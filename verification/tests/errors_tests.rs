use hymo_minimal::HymoError;

#[test]
fn error_kinds_are_distinct() {
    assert_ne!(HymoError::ComponentUnavailable, HymoError::InvalidInput);
    assert_ne!(HymoError::ComponentUnavailable, HymoError::Transport(0));
    assert_ne!(HymoError::InvalidInput, HymoError::Transport(0));
    // The transport error keeps the operating system's error number
    // unchanged.
    assert_ne!(HymoError::Transport(1), HymoError::Transport(13));
    assert_eq!(HymoError::Transport(13), HymoError::Transport(13));
}

#[test]
fn error_messages() {
    assert_eq!(
        HymoError::ComponentUnavailable.message(),
        "component not available"
    );
    assert_eq!(
        HymoError::InvalidInput.message(),
        "string contains an embedded null byte"
    );
    assert_eq!(HymoError::Transport(13).message(), "transport call failed");
}
