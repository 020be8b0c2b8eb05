//! Scenario tests for the sanitizer, the parser and the catalogs.

use noteconfig::fields::{ConfigField, ShortcutField};
use noteconfig::parser::load_config_from_content;
use noteconfig::sanitize::sanitize_config;
use noteconfig::schema::AppConfig;

#[test]
fn tab_size_zero_is_reset_and_logged() {
    let mut config = AppConfig::default();
    config.editor.tab_size = 0;
    let events = sanitize_config(&mut config);
    assert_eq!(config.editor.tab_size, 4);
    assert_eq!(events, vec![ConfigField::TabSize]);
}

#[test]
fn oversized_max_search_results_is_reset_and_logged() {
    let mut config = AppConfig::default();
    config.preferences.max_search_results = 50000;
    let events = sanitize_config(&mut config);
    assert_eq!(config.preferences.max_search_results, 100);
    assert_eq!(events, vec![ConfigField::MaxSearchResults]);
}

#[test]
fn traversal_notes_directory_is_reset_and_logged() {
    let mut config = AppConfig::default();
    config.notes_directory = "../secret".to_string();
    let events = sanitize_config(&mut config);
    assert_eq!(config.notes_directory, "notes");
    assert_eq!(events, vec![ConfigField::NotesDirectory]);
}

#[test]
fn foreign_ui_theme_is_reset() {
    let mut config = AppConfig::default();
    config.interface.ui_theme = "not-a-theme".to_string();
    let events = sanitize_config(&mut config);
    assert_eq!(config.interface.ui_theme, "gruvbox-dark");
    assert_eq!(events, vec![ConfigField::UiTheme]);
}

#[test]
fn all_empty_shortcuts_are_reset_with_one_event_each() {
    let mut config = AppConfig::default();
    config.shortcuts.create_note = String::new();
    config.shortcuts.rename_note = String::new();
    config.shortcuts.delete_note = String::new();
    config.shortcuts.edit_note = String::new();
    config.shortcuts.save_and_exit = String::new();
    config.shortcuts.open_external = String::new();
    config.shortcuts.open_folder = String::new();
    config.shortcuts.refresh_cache = String::new();
    config.shortcuts.scroll_up = String::new();
    config.shortcuts.scroll_down = String::new();
    config.shortcuts.up = String::new();
    config.shortcuts.down = String::new();
    config.shortcuts.navigate_previous = String::new();
    config.shortcuts.navigate_next = String::new();
    config.shortcuts.navigate_code_previous = String::new();
    config.shortcuts.navigate_code_next = String::new();
    config.shortcuts.navigate_link_previous = String::new();
    config.shortcuts.navigate_link_next = String::new();
    config.shortcuts.copy_current_section = String::new();
    config.shortcuts.open_settings = String::new();
    config.shortcuts.version_explorer = String::new();
    config.shortcuts.recently_deleted = String::new();
    let events = sanitize_config(&mut config);
    assert_eq!(events.len(), 22);
    for e in &events {
        assert!(matches!(e, ConfigField::Shortcut(_)));
    }
    assert_eq!(config.shortcuts, AppConfig::default().shortcuts);
    assert_eq!(config.shortcuts.create_note, "Ctrl+N");
    assert_eq!(config.shortcuts.rename_note, "F2");
    assert_eq!(config.shortcuts.recently_deleted, "Ctrl+R");
    assert_eq!(events[0], ConfigField::Shortcut(ShortcutField::CreateNote));
    assert_eq!(events[21], ConfigField::Shortcut(ShortcutField::RecentlyDeleted));
}

#[test]
fn broken_document_falls_back_to_full_default() {
    let r = load_config_from_content("[interface\nui_theme = \"article\"");
    assert!(r.parse_failed);
    assert!(r.parse_error.is_some());
    assert_eq!(r.corrections.len(), 0);
    assert_eq!(r.config, AppConfig::default());
    assert_eq!(r.decoded, AppConfig::default());
}

#[test]
fn sanitize_is_idempotent_on_a_corrupt_config() {
    let mut once = AppConfig::default();
    once.editor.tab_size = 99;
    once.interface.ui_theme = "???".to_string();
    once.notes_directory = String::new();
    once.shortcuts.up = "++".to_string();
    let mut twice = once.clone();
    sanitize_config(&mut once);
    sanitize_config(&mut twice);
    let second_events = sanitize_config(&mut twice);
    assert_eq!(once, twice);
    assert_eq!(second_events.len(), 0);
}

#[test]
fn default_config_is_a_fixed_point() {
    let mut config = AppConfig::default();
    let events = sanitize_config(&mut config);
    assert_eq!(config, AppConfig::default());
    assert_eq!(events.len(), 0);
}

#[test]
fn unrelated_fields_are_corrected_independently() {
    let mut both = AppConfig::default();
    both.editor.tab_size = 0;
    both.interface.ui_theme = "nonexistent".to_string();
    let events = sanitize_config(&mut both);
    assert_eq!(events, vec![ConfigField::UiTheme, ConfigField::TabSize]);

    let mut only_tab = AppConfig::default();
    only_tab.editor.tab_size = 0;
    sanitize_config(&mut only_tab);

    let mut only_theme = AppConfig::default();
    only_theme.interface.ui_theme = "nonexistent".to_string();
    sanitize_config(&mut only_theme);

    assert_eq!(both.editor.tab_size, only_tab.editor.tab_size);
    assert_eq!(both.interface.ui_theme, only_theme.interface.ui_theme);
    assert_eq!(both, only_tab);
    assert_eq!(both, only_theme);
}

#[test]
fn parsed_values_reach_the_config() {
    let text = "notes_directory = \"my-notes\"\n\
                [interface]\n\
                ui_theme = \"article\"\n\
                font_size = 11\n\
                [editor]\n\
                mode = \"vim\"\n\
                tab_size = 2\n\
                [shortcuts]\n\
                create_note = \"Alt+C\"\n\
                [preferences]\n\
                max_search_results = 7\n";
    let r = load_config_from_content(text);
    assert!(!r.parse_failed);
    assert!(r.parse_error.is_none());
    assert_eq!(r.corrections.len(), 0);
    assert_eq!(r.config.notes_directory, "my-notes");
    assert_eq!(r.config.interface.ui_theme, "article");
    assert_eq!(r.config.interface.font_size, 11);
    assert_eq!(r.config.interface.markdown_render_theme, "modern-dark");
    assert_eq!(r.config.editor.mode, "vim");
    assert_eq!(r.config.editor.tab_size, 2);
    assert_eq!(r.config.shortcuts.create_note, "Alt+C");
    assert_eq!(r.config.shortcuts.rename_note, "F2");
    assert_eq!(r.config.preferences.max_search_results, 7);
    assert_eq!(r.decoded, r.config);
}

#[test]
fn parsed_invalid_fields_are_corrected() {
    let text = "[editor]\ntab_size = 0\n[interface]\nui_theme = \"nope\"\n";
    let r = load_config_from_content(text);
    assert!(!r.parse_failed);
    assert_eq!(r.config.editor.tab_size, 4);
    assert_eq!(r.config.interface.ui_theme, "gruvbox-dark");
    assert_eq!(r.corrections, vec![ConfigField::UiTheme, ConfigField::TabSize]);
    assert_eq!(r.decoded.editor.tab_size, 0);
    assert_eq!(r.decoded.interface.ui_theme, "nope");
    assert_eq!(r.decoded.notes_directory, "notes");
}

#[test]
fn wrongly_typed_field_counts_as_decode_failure() {
    let r = load_config_from_content("[interface]\nui_theme = 5\n");
    assert!(r.parse_failed);
    assert_eq!(r.config, AppConfig::default());
    assert_eq!(r.corrections.len(), 0);
}

#[test]
fn empty_document_decodes_to_the_default() {
    let r = load_config_from_content("");
    assert!(!r.parse_failed);
    assert!(r.parse_error.is_none());
    assert_eq!(r.corrections.len(), 0);
    assert_eq!(r.config, AppConfig::default());
}
