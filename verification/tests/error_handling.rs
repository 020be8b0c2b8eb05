//! Error-message quality and input-bound tests for the note-name validator.

use noteconfig::validation::validate_note_name;

#[test]
fn test_error_message_quality() {
    let long_name = "a".repeat(256);
    let test_cases = vec![
        ("", "Note name cannot be empty"),
        ("../secret", "Path traversal not allowed"),
        (".hidden", "Note name cannot start with a dot"),
        (long_name.as_str(), "Note name too long"),
        ("file\\path", "Invalid note name"),
    ];

    for (input, expected_error_content) in test_cases {
        let error_msg = validate_note_name(input).unwrap_err();
        let error_string = error_msg.to_string();
        assert!(error_string.contains(expected_error_content));

        if input.len() > 10 {
            assert!(!error_string.contains(input));
        }
    }
}

#[test]
fn test_function_input_bounds() {
    assert!(validate_note_name(&"a".repeat(10000)).is_err());
    assert!(validate_note_name("note-测试-🦀.md").is_ok());
}
