use graphmemes::Grapheme;
use graphmemes::GraphemeError;
use graphmemes::GraphemeIterator;
use heapless::Vec;

/// Maximum number of graphemes tested at once.
const TEST_VEC_SIZE: usize = 32;

/// Helper to collect graphemes and check results.
fn collect_graphemes(
    input: &str,
    count_ansi: bool,
) -> Result<Vec<Grapheme, TEST_VEC_SIZE>, GraphemeError> {
    let mut vec = Vec::new();
    let mut iter = GraphemeIterator::new(input, count_ansi);
    while let Some(result) = iter.next() {
        vec.extend_from_slice(&[result?])
            .map_err(|_| GraphemeError::buffer_overflow(0, 0))?;
    }
    Ok(vec)
}

#[test]
fn test_ascii() {
    let text = "abc";
    let graphemes = collect_graphemes(text, false).unwrap();

    assert_eq!(graphemes.len(), 3);
    assert_eq!(graphemes[0].as_chars(), &['a']);
    assert_eq!(graphemes[1].as_chars(), &['b']);
    assert_eq!(graphemes[2].as_chars(), &['c']);
}

#[test]
fn test_emoji() {
    let text = "\u{1F468}\u{200D}\u{1F469}\u{200D}\u{1F467}\u{200D}\u{1F466}";
    let graphemes = collect_graphemes(text, false).unwrap();

    assert_eq!(graphemes.len(), 1, "Family emoji should be one grapheme");
    let chars = graphemes[0].as_chars();
    assert!(chars.len() > 1, "Should contain multiple chars");
    assert_eq!(chars[0], '\u{1F468}', "Should start with man emoji");
}

#[test]
fn test_combining() {
    let text = "e\u{0301}"; // e with combining acute, decomposed
    let graphemes = collect_graphemes(text, false).unwrap();

    assert_eq!(
        graphemes.len(),
        1,
        "Combining sequence should be one grapheme"
    );
    assert_eq!(
        graphemes[0].len(),
        2,
        "Should contain base char and combining mark"
    );
    assert_eq!(graphemes[0].as_chars(), &['e', '\u{0301}']);
}

#[test]
fn test_zwj_sequences() {
    // More comprehensive ZWJ tests
    let text = "\u{1F468}\u{200D}\u{1F4BB}";
    let graphemes = collect_graphemes(text, false).unwrap();
    assert_eq!(graphemes.len(), 1, "ZWJ sequence should be one grapheme");

    let text = "\u{1F468}\u{200D}\u{1F4BB}"; // Explicitly test ZWJ
    let graphemes = collect_graphemes(text, false).unwrap();
    assert_eq!(graphemes.len(), 1);
}

#[test]
fn test_ansi() {
    let text = "\x1b[31mred\x1b[0m";
    let graphemes = collect_graphemes(text, true).unwrap();
    assert_eq!(graphemes.len(), 5); // 2 ANSI sequences + "red"
}

#[test]
fn test_invalid_ansi() {
    let text = "\x1b\u{1234}"; // Invalid non-ASCII in ANSI sequence
    let result = collect_graphemes(text, true);
    assert!(matches!(
        result,
        Err(GraphemeError::InvalidAnsiSequence { .. })
    ));
}

#[test]
fn test_buffer_overflow() {
    // Create string with too many combining marks
    let text = "a\u{0301}\u{0302}\u{0303}\u{0304}\u{0305}\u{0306}\u{0307}\u{0308}\u{0309}";
    let result = collect_graphemes(text, false);
    assert!(matches!(result, Err(GraphemeError::BufferOverflow { .. })));
}

// Verify heapless Vec capacity handling in the helper.
#[test]
fn test_vec_capacity() {
    let text = "a".repeat(TEST_VEC_SIZE + 1);
    let result = collect_graphemes(&text, false);
    assert!(result.is_err(), "Should error on exceeding vec capacity");
}

#[test]
fn test_empty_input() {
    let mut iter = GraphemeIterator::new("", false);
    assert!(iter.next().is_none());
    assert!(iter.next().is_none());
}

#[test]
fn test_ansi_not_counted() {
    let text = "\x1b[31mred\x1b[0m";
    let graphemes = collect_graphemes(text, false).unwrap();
    assert_eq!(graphemes.len(), 3);
    assert_eq!(graphemes[0].as_chars(), &['r']);
    assert_eq!(graphemes[1].as_chars(), &['e']);
    assert_eq!(graphemes[2].as_chars(), &['d']);
}

#[test]
fn test_ansi_counted_items() {
    let text = "\x1b[31mred\x1b[0m";
    let graphemes = collect_graphemes(text, true).unwrap();
    assert_eq!(graphemes.len(), 5);
    assert_eq!(graphemes[0].as_chars(), &['\x1b']);
    assert_eq!(graphemes[1].as_chars(), &['r']);
    assert_eq!(graphemes[2].as_chars(), &['e']);
    assert_eq!(graphemes[3].as_chars(), &['d']);
    assert_eq!(graphemes[4].as_chars(), &['\x1b']);
}

#[test]
fn test_invalid_ansi_offset() {
    // The non-ASCII scalar value sits right after the one-byte ESC.
    let mut iter = GraphemeIterator::new("\x1b\u{1234}", true);
    match iter.next() {
        Some(Err(GraphemeError::InvalidAnsiSequence {
            offset,
            sequence_len,
        })) => {
            assert_eq!(offset, 1);
            assert_eq!(sequence_len, 3); // U+1234 takes three bytes
        }
        other => panic!("expected an invalid ANSI error, got {:?}", other.is_some()),
    }
    // The offending scalar value is consumed; iteration continues cleanly.
    assert!(iter.next().is_none());
}

#[test]
fn test_buffer_overflow_offset() {
    // 'a' is one byte and each combining mark two bytes, so the ninth scalar
    // value (the eighth mark) begins at byte offset 1 + 7 * 2 = 15; the tenth
    // is reported in turn at offset 17.
    let text = "a\u{0301}\u{0302}\u{0303}\u{0304}\u{0305}\u{0306}\u{0307}\u{0308}\u{0309}";
    let mut iter = GraphemeIterator::new(text, false);
    match iter.next() {
        Some(Err(GraphemeError::BufferOverflow {
            offset,
            sequence_len,
        })) => {
            assert_eq!(offset, 15);
            assert_eq!(sequence_len, 2);
        }
        _ => panic!("expected a buffer overflow error"),
    }
    match iter.next() {
        Some(Err(GraphemeError::BufferOverflow { offset, .. })) => {
            assert_eq!(offset, 17);
        }
        _ => panic!("expected a second buffer overflow error"),
    }
    // The eight buffered scalar values are still flushed as one cluster.
    let flushed = iter.next().unwrap().unwrap();
    assert_eq!(flushed.len(), 8);
    assert_eq!(flushed.as_chars()[0], 'a');
    assert!(iter.next().is_none());
}

#[test]
fn test_end_of_input_flush() {
    let mut iter = GraphemeIterator::new("e\u{0301}", false);
    let g = iter.next().unwrap().unwrap();
    assert_eq!(g.as_chars(), &['e', '\u{0301}']);
    assert!(iter.next().is_none());
    assert!(iter.next().is_none());
}

#[test]
fn test_classifier_pure() {
    for c in ['a', '\u{200D}', '\u{0301}', '\u{1F3FB}', '\u{1F1E6}', '\u{0903}', '\u{0600}'] {
        assert_eq!(Grapheme::char_category(c), Grapheme::char_category(c));
    }
}

#[test]
fn test_regional_pair() {
    // Two regional indicators pair once a previous category has been
    // recorded: after 'a', the flag's indicators stay one cluster.
    let text = "a\u{1F1E6}\u{1F1FA}";
    let graphemes = collect_graphemes(text, false).unwrap();
    assert_eq!(graphemes.len(), 2);
    assert_eq!(graphemes[0].as_chars(), &['a']);
    assert_eq!(graphemes[1].len(), 2);

    // At the very start of the input the first scalar value's category is
    // not recorded, so a leading pair splits.
    let text = "\u{1F1E6}\u{1F1FA}";
    let graphemes = collect_graphemes(text, false).unwrap();
    assert_eq!(graphemes.len(), 2);
}

#[test]
fn test_skin_tone_modifier() {
    // Waving hand with a medium skin tone modifier stays one cluster.
    let text = "\u{1F44B}\u{1F3FD}";
    let graphemes = collect_graphemes(text, false).unwrap();
    assert_eq!(graphemes.len(), 1);
    assert_eq!(graphemes[0].len(), 2);
}

#[test]
fn test_grapheme_accessors() {
    let chars = ['a', '\u{0301}', '\0', '\0', '\0', '\0', '\0', '\0'];
    let grapheme = Grapheme::new(chars, 2);
    assert_eq!(grapheme.len(), 2);
    assert!(!grapheme.is_empty());
    assert_eq!(grapheme.as_chars(), &['a', '\u{0301}']);

    let empty = Grapheme::new(chars, 0);
    assert!(empty.is_empty());
    assert_eq!(empty.as_chars(), &[] as &[char]);
}

#[test]
fn test_classifier_predicates() {
    assert!(graphmemes::is_emoji('\u{1F600}'));
    assert!(!graphmemes::is_emoji('a'));
    assert!(graphmemes::is_extend('\u{0301}'));
    assert!(!graphmemes::is_extend('a'));
    assert!(graphmemes::is_spacing_mark('\u{0903}'));
    assert!(!graphmemes::is_spacing_mark('a'));
    assert!(graphmemes::is_prepend('\u{0600}'));
    assert!(!graphmemes::is_prepend('a'));
}
