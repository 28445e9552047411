use graphmemes::GraphemeError;

// Helper mirroring the one-line rendering of an error.
fn make_test_string(err: &GraphemeError) -> String {
    err.display_string()
}

#[test]
fn test_error_creation() {
    let err = GraphemeError::invalid_ansi(10, 3);
    assert_eq!(err.offset(), 10);
    assert_eq!(err.sequence_length(), 3);

    let err = GraphemeError::buffer_overflow(20, 5);
    assert_eq!(err.offset(), 20);
    assert_eq!(err.sequence_length(), 5);
}

#[test]
fn test_error_messages() {
    let err = GraphemeError::invalid_ansi(0, 1);
    assert!(err.message().contains("ANSI"));
    assert!(err.help().contains("\\x1b"));

    let err = GraphemeError::buffer_overflow(0, 1);
    assert!(err.message().contains("buffer"));
    assert!(err.help().contains("maximum"));
}

#[test]
fn test_error_display() {
    let err = GraphemeError::invalid_ansi(5, 2);
    let display = make_test_string(&err);
    assert!(display.contains("offset 5"));
    assert!(display.contains("sequence length 2"));
    assert!(display.contains("Help:"));
}

#[test]
fn test_error_debug() {
    let err = GraphemeError::buffer_overflow(10, 3);
    let debug = make_test_string(&err);
    assert!(debug.contains("10"));
    assert!(debug.contains("3"));
}

#[test]
fn test_clone_and_eq() {
    let err1 = GraphemeError::invalid_ansi(1, 2);
    let err2 = err1;
    assert_eq!(err1, err2);

    let err3 = GraphemeError::invalid_ansi(1, 3);
    assert_ne!(err1, err3);
}

#[test]
fn test_display_exact() {
    let err = GraphemeError::invalid_ansi(5, 2);
    assert_eq!(
        err.display_string(),
        "Invalid ANSI sequence at offset 5 (sequence length 2)\nHelp: ANSI sequences must follow format: \\x1b[<n>m"
    );
    let err = GraphemeError::buffer_overflow(0, 4);
    assert_eq!(
        err.display_string(),
        "Grapheme buffer overflow at offset 0 (sequence length 4)\nHelp: Grapheme sequence exceeds maximum supported length (8 code points)"
    );
}

#[test]
fn test_large_offsets() {
    let err = GraphemeError::invalid_ansi(1234567890, 4);
    assert_eq!(err.offset(), 1234567890);
    let display = make_test_string(&err);
    assert!(display.contains("1234567890"));
}
