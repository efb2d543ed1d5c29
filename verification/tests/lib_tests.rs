//! Tests of the crate-level items.

use contexture_core::error::Error;
use contexture_core::NAME;

#[test]
fn test_name() {
    assert_eq!(NAME, "Contexture");
}

#[test]
fn test_error_message() {
    let err = Error::AudioDevice(String::from("no device"));
    assert_eq!(err.message().as_str(), "no device");
    let err = Error::Decoding(String::from("bad packet"));
    assert_eq!(err.message().as_str(), "bad packet");
    let cloned = err.clone();
    assert_eq!(cloned.message().as_str(), "bad packet");
}
