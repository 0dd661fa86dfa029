use archive_recognition_rs::driver::{exit_code, FatalError};
use archive_recognition_rs::walker::{DirectoryWalker, WalkAction, WalkEntry};

fn file(path: &str) -> WalkEntry {
    WalkEntry { path: String::from(path), is_dir: false }
}

fn dir(path: &str) -> WalkEntry {
    WalkEntry { path: String::from(path), is_dir: true }
}

fn expect_enter(w: &DirectoryWalker, path: &str) {
    match w.next_action() {
        WalkAction::EnterDirectory(p) => assert_eq!(p, path),
        other => panic!("expected EnterDirectory({path}), got {other:?}"),
    }
}

fn expect_visit(w: &DirectoryWalker, path: &str) {
    match w.next_action() {
        WalkAction::VisitFile(p) => assert_eq!(p, path),
        other => panic!("expected VisitFile({path}), got {other:?}"),
    }
}

fn expect_finished(w: &DirectoryWalker) {
    match w.next_action() {
        WalkAction::Finished => {}
        other => panic!("expected Finished, got {other:?}"),
    }
}

// The scenario: the root holds a.jpg (an image with one face), b.txt (not an
// image) and a subdirectory with c.png (two faces). The decode failure of
// b.txt is logged and skipped; every regular file is visited once; the run
// completes normally.
#[test]
fn mixed_tree_visits_every_file_once_and_survives_a_bad_file() {
    let mut w = DirectoryWalker::new(String::from("root"));
    expect_enter(&w, "root");
    w.on_directory_entries(vec![file("root/a.jpg"), file("root/b.txt"), dir("root/sub")]);

    expect_enter(&w, "root/sub");
    w.on_directory_entries(vec![file("root/sub/c.png")]);

    expect_visit(&w, "root/sub/c.png");
    w.on_file_visited(true);
    expect_visit(&w, "root/b.txt");
    w.on_file_visited(false); // not an image: decode fails, walk goes on
    expect_visit(&w, "root/a.jpg");
    w.on_file_visited(true);
    expect_finished(&w);

    let mut visited = w.visited().clone();
    visited.sort();
    assert_eq!(visited, vec!["root/a.jpg", "root/b.txt", "root/sub/c.png"]);
    assert_eq!(w.failed(), &vec![String::from("root/b.txt")]);

    // Per-file failures are not fatal: the run still exits zero.
    assert_eq!(exit_code(&Ok(())), 0);
}

#[test]
fn empty_root_finishes_with_nothing_visited() {
    let mut w = DirectoryWalker::new(String::from("root"));
    expect_enter(&w, "root");
    w.on_directory_entries(Vec::new());
    expect_finished(&w);
    assert!(w.visited().is_empty());
    assert!(w.failed().is_empty());
}

#[test]
fn nested_directories_are_all_entered() {
    let mut w = DirectoryWalker::new(String::from("r"));
    expect_enter(&w, "r");
    w.on_directory_entries(vec![dir("r/x"), dir("r/y")]);
    expect_enter(&w, "r/y");
    w.on_directory_entries(vec![file("r/y/1")]);
    expect_visit(&w, "r/y/1");
    w.on_file_visited(true);
    expect_enter(&w, "r/x");
    w.on_directory_entries(vec![file("r/x/2")]);
    expect_visit(&w, "r/x/2");
    w.on_file_visited(true);
    expect_finished(&w);
    let mut visited = w.visited().clone();
    visited.sort();
    assert_eq!(visited, vec!["r/x/2", "r/y/1"]);
}

#[test]
fn failure_keeps_the_rest_of_the_walk_identical() {
    // Two walks over the same tree, differing only in whether the first
    // file's processing failed: the remaining actions and the visit record
    // are the same.
    let mut ok_walk = DirectoryWalker::new(String::from("root"));
    let mut bad_walk = DirectoryWalker::new(String::from("root"));
    let listing = vec![file("root/p"), file("root/q")];
    ok_walk.on_directory_entries(listing.clone());
    bad_walk.on_directory_entries(listing);

    expect_visit(&ok_walk, "root/q");
    expect_visit(&bad_walk, "root/q");
    ok_walk.on_file_visited(true);
    bad_walk.on_file_visited(false);

    expect_visit(&ok_walk, "root/p");
    expect_visit(&bad_walk, "root/p");
    ok_walk.on_file_visited(true);
    bad_walk.on_file_visited(true);

    expect_finished(&ok_walk);
    expect_finished(&bad_walk);
    assert_eq!(ok_walk.visited(), bad_walk.visited());
    assert_eq!(bad_walk.failed(), &vec![String::from("root/q")]);
    assert!(ok_walk.failed().is_empty());
}

#[test]
fn fatal_outcomes_exit_nonzero() {
    assert_eq!(exit_code(&Err(FatalError::MissingArgument)), 1);
    assert_eq!(exit_code(&Err(FatalError::ModelLoad)), 1);
    assert_eq!(exit_code(&Err(FatalError::PathResolution)), 1);
    assert_eq!(exit_code(&Ok(())), 0);
}
