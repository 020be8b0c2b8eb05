//! Direct tests of the validators, the catalogs and the default accessors.

use noteconfig::catalogs::{
    get_available_code_themes, get_available_editor_modes, get_available_editor_themes,
    get_available_markdown_themes, get_available_ui_themes,
};
use noteconfig::focus::FocusState;
use noteconfig::paths::get_config_notes_dir_from_config;
use noteconfig::schema::{
    default_global_shortcut, default_max_results, default_window_decorations,
};
use noteconfig::validation::{
    validate_basic_shortcut_format, validate_font_size, validate_notes_directory,
    validate_shortcut_format, Rejection,
};

#[test]
fn catalogs_hold_the_expected_entries() {
    assert_eq!(
        get_available_ui_themes(),
        vec!["gruvbox-dark", "article", "modern-dark"]
    );
    assert_eq!(
        get_available_markdown_themes(),
        vec!["modern-dark", "article", "gruvbox-dark"]
    );
    assert_eq!(get_available_editor_modes(), vec!["basic", "vim", "emacs"]);
    let editor_themes = get_available_editor_themes();
    assert_eq!(editor_themes.len(), 23);
    assert_eq!(editor_themes[0], "abcdef");
    assert_eq!(editor_themes[22], "vscode-light");
    let code_themes = get_available_code_themes();
    assert_eq!(code_themes.len(), 18);
    assert_eq!(code_themes[0], "gruvbox-dark-hard");
    assert_eq!(code_themes[17], "tokyo-night-light");
}

#[test]
fn default_accessors_report_the_defaults() {
    assert_eq!(default_max_results(), 100);
    assert_eq!(default_global_shortcut(), "Ctrl+Shift+N");
    assert!(default_window_decorations());
}

#[test]
fn notes_directory_validator_reports_each_rejection() {
    assert_eq!(validate_notes_directory(""), Err(Rejection::EmptyValue));
    assert_eq!(validate_notes_directory(&"a".repeat(1025)), Err(Rejection::TooLong));
    assert_eq!(validate_notes_directory(".config"), Err(Rejection::LeadingDot));
    assert_eq!(validate_notes_directory("a/../b"), Err(Rejection::PathTraversal));
    assert_eq!(validate_notes_directory("a|b"), Err(Rejection::IllegalCharacter));
    assert_eq!(validate_notes_directory("notes"), Ok(()));
    assert_eq!(validate_notes_directory("my/notes dir"), Ok(()));
}

#[test]
fn strict_shortcut_grammar_checks_modifiers() {
    assert!(validate_shortcut_format("Ctrl+Shift+N").is_ok());
    assert!(validate_shortcut_format("CTRL+shift+n").is_ok());
    assert!(validate_shortcut_format("cmd+Option+Space").is_ok());
    assert!(validate_shortcut_format("F5").is_ok());
    assert_eq!(validate_shortcut_format(""), Err(Rejection::MalformedShortcut));
    assert_eq!(validate_shortcut_format("Ctrl++N"), Err(Rejection::MalformedShortcut));
    assert_eq!(validate_shortcut_format("+N"), Err(Rejection::MalformedShortcut));
    assert_eq!(validate_shortcut_format("Ctrl+"), Err(Rejection::MalformedShortcut));
    assert_eq!(validate_shortcut_format("Hello+World"), Err(Rejection::MalformedShortcut));
    assert_eq!(validate_shortcut_format("Ctrl+Shift"), Err(Rejection::MalformedShortcut));
    assert_eq!(validate_shortcut_format("alt"), Err(Rejection::MalformedShortcut));
}

#[test]
fn loose_shortcut_grammar_allows_any_segments() {
    assert!(validate_basic_shortcut_format("Hello+World").is_ok());
    assert!(validate_basic_shortcut_format("Enter").is_ok());
    assert!(validate_basic_shortcut_format("Ctrl+Comma").is_ok());
    assert!(validate_basic_shortcut_format(&"a".repeat(70)).is_ok());
    assert_eq!(validate_basic_shortcut_format(""), Err(Rejection::MalformedShortcut));
    assert_eq!(validate_basic_shortcut_format("++"), Err(Rejection::MalformedShortcut));
    assert_eq!(validate_basic_shortcut_format("A+"), Err(Rejection::MalformedShortcut));
    assert_eq!(
        validate_basic_shortcut_format(&"a+".repeat(40)),
        Err(Rejection::MalformedShortcut)
    );
}

#[test]
fn font_size_validator_reports_value_bounds_and_label() {
    assert!(validate_font_size(8, "UI font size").is_ok());
    assert!(validate_font_size(72, "UI font size").is_ok());
    let e = validate_font_size(7, "UI font size").unwrap_err();
    assert_eq!(e.label, "UI font size");
    assert_eq!(e.value, 7);
    assert_eq!(e.min, 8);
    assert_eq!(e.max, 72);
    assert_eq!(e.message(), "UI font size must be between 8 and 72");
    let e = validate_font_size(73, "Editor font size").unwrap_err();
    assert_eq!(e.value, 73);
    assert_eq!(e.label, "Editor font size");
}

#[test]
fn notes_dir_path_wraps_the_configured_string() {
    let p = get_config_notes_dir_from_config("my/notes");
    assert_eq!(p, std::path::PathBuf::from("my/notes"));
}

#[test]
fn focus_state_preserves_target_across_rapid_toggles() {
    let mut state = FocusState::new();
    state.save_frontmost(Some(41), 7);
    state.save_frontmost(Some(7), 7);
    assert_eq!(state.prev_pid, Some(41));
    state.save_frontmost(None, 7);
    assert_eq!(state.prev_pid, Some(41));
    assert_eq!(state.take_restore_target(), Some(41));
    assert_eq!(state.take_restore_target(), None);
}
