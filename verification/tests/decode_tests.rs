use archive_recognition_rs::config::Config;
use archive_recognition_rs::decode::{decode_image, ProcessError};

// A one-pixel binary PPM image: accepted by the codec.
fn tiny_ppm() -> Vec<u8> {
    let mut bytes = b"P6\n1 1\n255\n".to_vec();
    bytes.extend_from_slice(&[0xff, 0x00, 0x7f]);
    bytes
}

#[test]
fn valid_image_bytes_decode() {
    let r = decode_image(&tiny_ppm());
    assert!(r.is_ok());
}

#[test]
fn non_image_bytes_fail_to_decode() {
    let r = decode_image(b"this is not an image at all");
    match r {
        Err(ProcessError::ImageDecode(_)) => {}
        Ok(_) => panic!("garbage bytes must not decode"),
    }
}

#[test]
fn empty_bytes_fail_to_decode() {
    assert!(decode_image(&[]).is_err());
}

#[test]
fn config_takes_the_first_positional_argument() {
    let args = vec![String::from("prog"), String::from("photos"), String::from("extra")];
    let config = Config::new(&args).unwrap();
    assert_eq!(config.foldername, "photos");
}

#[test]
fn config_missing_argument_is_an_error() {
    let args = vec![String::from("prog")];
    assert!(Config::new(&args).is_err());
    assert!(Config::new(&[]).is_err());
}
