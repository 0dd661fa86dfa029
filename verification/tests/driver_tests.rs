use archive_recognition_rs::driver::{exit_code, Driver, FatalError};

#[test]
fn missing_argument_finishes_the_run_at_once() {
    // Only the program name: the run is over before any model is loaded or
    // any path is touched, and the exit code is non-zero.
    let mut driver = Driver::new();
    let config = driver.parse(&[String::from("prog")]);
    assert!(config.is_none());
    let outcome = driver.outcome();
    assert_eq!(outcome, Err(FatalError::MissingArgument));
    assert_eq!(exit_code(&outcome), 1);
}

#[test]
fn model_load_failure_finishes_before_any_traversal() {
    let mut driver = Driver::new();
    let config = driver.parse(&[String::from("prog"), String::from("photos")]);
    assert_eq!(config.unwrap().foldername, "photos");
    driver.models_loaded(false);
    let outcome = driver.outcome();
    assert_eq!(outcome, Err(FatalError::ModelLoad));
    assert_eq!(exit_code(&outcome), 1);
}

#[test]
fn unresolvable_root_finishes_without_a_walk() {
    let mut driver = Driver::new();
    driver.parse(&[String::from("prog"), String::from("no-such-dir")]);
    driver.models_loaded(true);
    driver.root_resolved(false);
    let outcome = driver.outcome();
    assert_eq!(outcome, Err(FatalError::PathResolution));
    assert_eq!(exit_code(&outcome), 1);
}

#[test]
fn a_full_run_exits_zero() {
    let mut driver = Driver::new();
    driver.parse(&[String::from("prog"), String::from("photos")]);
    driver.models_loaded(true);
    driver.root_resolved(true);
    driver.walk_finished(false);
    let outcome = driver.outcome();
    assert_eq!(outcome, Ok(()));
    assert_eq!(exit_code(&outcome), 0);
}

#[test]
fn an_enumeration_failure_is_fatal() {
    let mut driver = Driver::new();
    driver.parse(&[String::from("prog"), String::from("photos")]);
    driver.models_loaded(true);
    driver.root_resolved(true);
    driver.walk_finished(true);
    let outcome = driver.outcome();
    assert_eq!(outcome, Err(FatalError::PathResolution));
    assert_eq!(exit_code(&outcome), 1);
}
