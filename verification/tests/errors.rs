use docstore::error::{DocumentKind, StoreError};

#[test]
fn a_missing_signature_is_named_in_the_message() {
    let error = StoreError::NotFound { kind: DocumentKind::Signature, name: "Work".to_string() };
    assert_eq!(error.message(), "Signature 'Work' not found");
}

#[test]
fn a_missing_image_is_named_in_the_message() {
    let error = StoreError::NotFound { kind: DocumentKind::Image, name: "logo.png".to_string() };
    assert_eq!(error.message(), "Image file 'logo.png' not found");
}

#[test]
fn the_message_of_a_timeout() {
    assert_eq!(StoreError::LockTimeout.message(), "Timed out waiting for cache lock");
}

#[test]
fn other_failures_give_their_text() {
    assert_eq!(StoreError::Io("disk full".to_string()).message(), "disk full");
    assert_eq!(StoreError::Decode("expected value".to_string()).message(), "expected value");
}
