use vstd::prelude::*;
use crate::catalogs::{
    code_theme_allowed, editor_mode_allowed, editor_theme_allowed, is_code_theme, is_editor_mode,
    is_editor_theme, is_markdown_theme, is_ui_theme, markdown_theme_allowed, ui_theme_allowed,
};
use crate::fields::{ConfigField, ShortcutField};
use crate::schema::{
    AppConfig, ConfigView, EditorConfig, EditorView, InterfaceConfig, InterfaceView,
    PreferencesConfig, PreferencesView, ShortcutsConfig, ShortcutsView, default_config_view,
    default_editor_view, default_interface_view, default_preferences_view,
    default_shortcuts_view,
};
use crate::validation::{
    basic_shortcut_ok, font_size_ok, max_results_ok, notes_directory_ok, shortcut_ok,
    tab_size_ok, validate_basic_shortcut_format, validate_font_size, validate_notes_directory,
    validate_shortcut_format,
};

verus! {

// ---------------------------------------------------------------------------
// What sanitization computes, field by field
// ---------------------------------------------------------------------------

/// The event list produced by one field check: one event naming the field if
/// its value was invalid, nothing otherwise.
pub open spec fn correction(bad: bool, f: ConfigField) -> Seq<ConfigField> {
    if bad {
        seq![f]
    } else {
        Seq::empty()
    }
}

/// A key combo after correction: kept when it meets the loose grammar,
/// replaced by the default combo otherwise.
pub open spec fn fix_combo(v: Seq<char>, d: Seq<char>) -> Seq<char> {
    if basic_shortcut_ok(v) {
        v
    } else {
        d
    }
}

/// The event list produced by checking one key combo.
pub open spec fn combo_correction(v: Seq<char>, f: ShortcutField) -> Seq<ConfigField> {
    correction(!basic_shortcut_ok(v), ConfigField::Shortcut(f))
}

/// Appearance settings after correction.
pub open spec fn fix_interface(c: InterfaceView) -> InterfaceView {
    InterfaceView {
        ui_theme: if is_ui_theme(c.ui_theme) {
            c.ui_theme
        } else {
            default_interface_view().ui_theme
        },
        markdown_render_theme: if is_markdown_theme(c.markdown_render_theme) {
            c.markdown_render_theme
        } else {
            default_interface_view().markdown_render_theme
        },
        md_render_code_theme: if is_code_theme(c.md_render_code_theme) {
            c.md_render_code_theme
        } else {
            default_interface_view().md_render_code_theme
        },
        font_size: if font_size_ok(c.font_size) {
            c.font_size
        } else {
            default_interface_view().font_size
        },
        editor_font_size: if font_size_ok(c.editor_font_size) {
            c.editor_font_size
        } else {
            default_interface_view().editor_font_size
        },
    }
}

/// Events produced while correcting the appearance settings, in field order.
pub open spec fn interface_corrections(c: InterfaceView) -> Seq<ConfigField> {
    correction(!is_ui_theme(c.ui_theme), ConfigField::UiTheme) + correction(
        !is_markdown_theme(c.markdown_render_theme),
        ConfigField::MarkdownRenderTheme,
    ) + correction(!is_code_theme(c.md_render_code_theme), ConfigField::MdRenderCodeTheme)
        + correction(!font_size_ok(c.font_size), ConfigField::FontSize) + correction(
        !font_size_ok(c.editor_font_size),
        ConfigField::EditorFontSize,
    )
}

/// Editor settings after correction.
pub open spec fn fix_editor(c: EditorView) -> EditorView {
    EditorView {
        mode: if is_editor_mode(c.mode) {
            c.mode
        } else {
            default_editor_view().mode
        },
        theme: if is_editor_theme(c.theme) {
            c.theme
        } else {
            default_editor_view().theme
        },
        tab_size: if tab_size_ok(c.tab_size) {
            c.tab_size
        } else {
            default_editor_view().tab_size
        },
    }
}

/// Events produced while correcting the editor settings, in field order.
pub open spec fn editor_corrections(c: EditorView) -> Seq<ConfigField> {
    correction(!is_editor_mode(c.mode), ConfigField::EditorMode) + correction(
        !is_editor_theme(c.theme),
        ConfigField::EditorTheme,
    ) + correction(!tab_size_ok(c.tab_size), ConfigField::TabSize)
}

/// The per-action shortcuts after correction: each combo independently kept
/// or replaced by its own default.
pub open spec fn fix_shortcuts(c: ShortcutsView) -> ShortcutsView {
    let d = default_shortcuts_view();
    ShortcutsView {
        create_note: fix_combo(c.create_note, d.create_note),
        rename_note: fix_combo(c.rename_note, d.rename_note),
        delete_note: fix_combo(c.delete_note, d.delete_note),
        edit_note: fix_combo(c.edit_note, d.edit_note),
        save_and_exit: fix_combo(c.save_and_exit, d.save_and_exit),
        open_external: fix_combo(c.open_external, d.open_external),
        open_folder: fix_combo(c.open_folder, d.open_folder),
        refresh_cache: fix_combo(c.refresh_cache, d.refresh_cache),
        scroll_up: fix_combo(c.scroll_up, d.scroll_up),
        scroll_down: fix_combo(c.scroll_down, d.scroll_down),
        up: fix_combo(c.up, d.up),
        down: fix_combo(c.down, d.down),
        navigate_previous: fix_combo(c.navigate_previous, d.navigate_previous),
        navigate_next: fix_combo(c.navigate_next, d.navigate_next),
        navigate_code_previous: fix_combo(c.navigate_code_previous, d.navigate_code_previous),
        navigate_code_next: fix_combo(c.navigate_code_next, d.navigate_code_next),
        navigate_link_previous: fix_combo(c.navigate_link_previous, d.navigate_link_previous),
        navigate_link_next: fix_combo(c.navigate_link_next, d.navigate_link_next),
        copy_current_section: fix_combo(c.copy_current_section, d.copy_current_section),
        open_settings: fix_combo(c.open_settings, d.open_settings),
        version_explorer: fix_combo(c.version_explorer, d.version_explorer),
        recently_deleted: fix_combo(c.recently_deleted, d.recently_deleted),
    }
}

/// Events produced while correcting the per-action shortcuts, in field order.
pub open spec fn shortcuts_corrections(c: ShortcutsView) -> Seq<ConfigField> {
    combo_correction(c.create_note, ShortcutField::CreateNote) + combo_correction(
        c.rename_note,
        ShortcutField::RenameNote,
    ) + combo_correction(c.delete_note, ShortcutField::DeleteNote) + combo_correction(
        c.edit_note,
        ShortcutField::EditNote,
    ) + combo_correction(c.save_and_exit, ShortcutField::SaveAndExit) + combo_correction(
        c.open_external,
        ShortcutField::OpenExternal,
    ) + combo_correction(c.open_folder, ShortcutField::OpenFolder) + combo_correction(
        c.refresh_cache,
        ShortcutField::RefreshCache,
    ) + combo_correction(c.scroll_up, ShortcutField::ScrollUp) + combo_correction(
        c.scroll_down,
        ShortcutField::ScrollDown,
    ) + combo_correction(c.up, ShortcutField::Up) + combo_correction(
        c.down,
        ShortcutField::Down,
    ) + combo_correction(c.navigate_previous, ShortcutField::NavigatePrevious)
        + combo_correction(c.navigate_next, ShortcutField::NavigateNext) + combo_correction(
        c.navigate_code_previous,
        ShortcutField::NavigateCodePrevious,
    ) + combo_correction(c.navigate_code_next, ShortcutField::NavigateCodeNext)
        + combo_correction(c.navigate_link_previous, ShortcutField::NavigateLinkPrevious)
        + combo_correction(c.navigate_link_next, ShortcutField::NavigateLinkNext)
        + combo_correction(c.copy_current_section, ShortcutField::CopyCurrentSection)
        + combo_correction(c.open_settings, ShortcutField::OpenSettings) + combo_correction(
        c.version_explorer,
        ShortcutField::VersionExplorer,
    ) + combo_correction(c.recently_deleted, ShortcutField::RecentlyDeleted)
}

/// Preferences after correction.
pub open spec fn fix_preferences(c: PreferencesView) -> PreferencesView {
    PreferencesView {
        max_search_results: if max_results_ok(c.max_search_results) {
            c.max_search_results
        } else {
            default_preferences_view().max_search_results
        },
    }
}

/// Events produced while correcting the preferences.
pub open spec fn preferences_corrections(c: PreferencesView) -> Seq<ConfigField> {
    correction(!max_results_ok(c.max_search_results), ConfigField::MaxSearchResults)
}

/// The whole configuration after correction: every governed field kept when
/// valid and replaced by the corresponding default field otherwise. Fields
/// are corrected independently; no field's outcome depends on another.
pub open spec fn fix_config(c: ConfigView) -> ConfigView {
    ConfigView {
        notes_directory: if notes_directory_ok(c.notes_directory) {
            c.notes_directory
        } else {
            default_config_view().notes_directory
        },
        global_shortcut: if shortcut_ok(c.global_shortcut) {
            c.global_shortcut
        } else {
            default_config_view().global_shortcut
        },
        interface: fix_interface(c.interface),
        editor: fix_editor(c.editor),
        shortcuts: fix_shortcuts(c.shortcuts),
        preferences: fix_preferences(c.preferences),
    }
}

/// Events produced while correcting the whole configuration, in processing
/// order.
pub open spec fn config_corrections(c: ConfigView) -> Seq<ConfigField> {
    correction(!notes_directory_ok(c.notes_directory), ConfigField::NotesDirectory) + correction(
        !shortcut_ok(c.global_shortcut),
        ConfigField::GlobalShortcut,
    ) + interface_corrections(c.interface) + editor_corrections(c.editor)
        + shortcuts_corrections(c.shortcuts) + preferences_corrections(c.preferences)
}

// ---------------------------------------------------------------------------
// Validity of a whole configuration
// ---------------------------------------------------------------------------

/// Every appearance field lies in its domain.
pub open spec fn interface_ok(c: InterfaceView) -> bool {
    &&& is_ui_theme(c.ui_theme)
    &&& is_markdown_theme(c.markdown_render_theme)
    &&& is_code_theme(c.md_render_code_theme)
    &&& font_size_ok(c.font_size)
    &&& font_size_ok(c.editor_font_size)
}

/// Every editor field lies in its domain.
pub open spec fn editor_ok(c: EditorView) -> bool {
    is_editor_mode(c.mode) && is_editor_theme(c.theme) && tab_size_ok(c.tab_size)
}

/// Every per-action combo meets the loose grammar.
pub open spec fn shortcuts_ok(c: ShortcutsView) -> bool {
    &&& basic_shortcut_ok(c.create_note)
    &&& basic_shortcut_ok(c.rename_note)
    &&& basic_shortcut_ok(c.delete_note)
    &&& basic_shortcut_ok(c.edit_note)
    &&& basic_shortcut_ok(c.save_and_exit)
    &&& basic_shortcut_ok(c.open_external)
    &&& basic_shortcut_ok(c.open_folder)
    &&& basic_shortcut_ok(c.refresh_cache)
    &&& basic_shortcut_ok(c.scroll_up)
    &&& basic_shortcut_ok(c.scroll_down)
    &&& basic_shortcut_ok(c.up)
    &&& basic_shortcut_ok(c.down)
    &&& basic_shortcut_ok(c.navigate_previous)
    &&& basic_shortcut_ok(c.navigate_next)
    &&& basic_shortcut_ok(c.navigate_code_previous)
    &&& basic_shortcut_ok(c.navigate_code_next)
    &&& basic_shortcut_ok(c.navigate_link_previous)
    &&& basic_shortcut_ok(c.navigate_link_next)
    &&& basic_shortcut_ok(c.copy_current_section)
    &&& basic_shortcut_ok(c.open_settings)
    &&& basic_shortcut_ok(c.version_explorer)
    &&& basic_shortcut_ok(c.recently_deleted)
}

/// Every preference lies in its domain.
pub open spec fn preferences_ok(c: PreferencesView) -> bool {
    max_results_ok(c.max_search_results)
}

/// The post-sanitization invariant: every governed field of the whole
/// configuration lies in its domain.
pub open spec fn config_ok(c: ConfigView) -> bool {
    &&& notes_directory_ok(c.notes_directory)
    &&& shortcut_ok(c.global_shortcut)
    &&& interface_ok(c.interface)
    &&& editor_ok(c.editor)
    &&& shortcuts_ok(c.shortcuts)
    &&& preferences_ok(c.preferences)
}

// ---------------------------------------------------------------------------
// Executable sanitizers
// ---------------------------------------------------------------------------

/// Corrects one key combo in place: the generic routine through which all
/// per-action shortcuts are processed, so one policy governs them all.
fn sanitize_shortcut(
    value: &mut String,
    def: &String,
    field: ShortcutField,
    events: &mut Vec<ConfigField>,
)
    ensures
        final(value)@ == fix_combo(old(value)@, def@),
        final(events)@ == old(events)@ + combo_correction(old(value)@, field),
{
    let ghost e0 = events@;
    if validate_basic_shortcut_format(value.as_str()).is_err() {
        *value = def.clone();
        events.push(ConfigField::Shortcut(field));
    }
    proof {
        assert(events@ =~= e0 + combo_correction(old(value)@, field));
    }
}

/// Corrects every appearance field in place, appending one event per
/// corrected field.
pub fn sanitize_interface_config(
    config: &mut InterfaceConfig,
    defaults: &InterfaceConfig,
    events: &mut Vec<ConfigField>,
)
    requires
        defaults@ == default_interface_view(),
    ensures
        final(config)@ == fix_interface(old(config)@),
        final(events)@ == old(events)@ + interface_corrections(old(config)@),
{
    let ghost c0 = config@;
    let ghost e0 = events@;
    if !ui_theme_allowed(config.ui_theme.as_str()) {
        config.ui_theme = defaults.ui_theme.clone();
        events.push(ConfigField::UiTheme);
    }
    if !markdown_theme_allowed(config.markdown_render_theme.as_str()) {
        config.markdown_render_theme = defaults.markdown_render_theme.clone();
        events.push(ConfigField::MarkdownRenderTheme);
    }
    if !code_theme_allowed(config.md_render_code_theme.as_str()) {
        config.md_render_code_theme = defaults.md_render_code_theme.clone();
        events.push(ConfigField::MdRenderCodeTheme);
    }
    if validate_font_size(config.font_size, "UI font size").is_err() {
        config.font_size = defaults.font_size;
        events.push(ConfigField::FontSize);
    }
    if validate_font_size(config.editor_font_size, "Editor font size").is_err() {
        config.editor_font_size = defaults.editor_font_size;
        events.push(ConfigField::EditorFontSize);
    }
    proof {
        assert(config@ =~= fix_interface(c0));
        assert(events@ =~= e0 + interface_corrections(c0));
    }
}

/// Corrects every editor field in place, appending one event per corrected
/// field.
pub fn sanitize_editor_config(
    config: &mut EditorConfig,
    defaults: &EditorConfig,
    events: &mut Vec<ConfigField>,
)
    requires
        defaults@ == default_editor_view(),
    ensures
        final(config)@ == fix_editor(old(config)@),
        final(events)@ == old(events)@ + editor_corrections(old(config)@),
{
    let ghost c0 = config@;
    let ghost e0 = events@;
    if !editor_mode_allowed(config.mode.as_str()) {
        config.mode = defaults.mode.clone();
        events.push(ConfigField::EditorMode);
    }
    if !editor_theme_allowed(config.theme.as_str()) {
        config.theme = defaults.theme.clone();
        events.push(ConfigField::EditorTheme);
    }
    if config.tab_size == 0 || config.tab_size > 16 {
        config.tab_size = defaults.tab_size;
        events.push(ConfigField::TabSize);
    }
    proof {
        assert(config@ =~= fix_editor(c0));
        assert(events@ =~= e0 + editor_corrections(c0));
    }
}

/// Corrects every per-action combo in place through the one generic combo
/// routine, appending one event per corrected combo.
#[verifier::rlimit(100)]
pub fn sanitize_shortcuts_config(
    config: &mut ShortcutsConfig,
    defaults: &ShortcutsConfig,
    events: &mut Vec<ConfigField>,
)
    requires
        defaults@ == default_shortcuts_view(),
    ensures
        final(config)@ == fix_shortcuts(old(config)@),
        final(events)@ == old(events)@ + shortcuts_corrections(old(config)@),
{
    let ghost c0 = config@;
    let ghost e0 = events@;
    let ghost mut p: Seq<ConfigField> = Seq::empty();
    sanitize_shortcut(&mut config.create_note, &defaults.create_note, ShortcutField::CreateNote, events);
    proof {
        p = combo_correction(c0.create_note, ShortcutField::CreateNote);
        assert(events@ == e0 + p);
    }
    sanitize_shortcut(&mut config.rename_note, &defaults.rename_note, ShortcutField::RenameNote, events);
    proof {
        let a = combo_correction(c0.rename_note, ShortcutField::RenameNote);
        vstd::seq_lib::lemma_concat_associative(e0, p, a);
        p = p + a;
        assert(events@ == e0 + p);
    }
    sanitize_shortcut(&mut config.delete_note, &defaults.delete_note, ShortcutField::DeleteNote, events);
    proof {
        let a = combo_correction(c0.delete_note, ShortcutField::DeleteNote);
        vstd::seq_lib::lemma_concat_associative(e0, p, a);
        p = p + a;
        assert(events@ == e0 + p);
    }
    sanitize_shortcut(&mut config.edit_note, &defaults.edit_note, ShortcutField::EditNote, events);
    proof {
        let a = combo_correction(c0.edit_note, ShortcutField::EditNote);
        vstd::seq_lib::lemma_concat_associative(e0, p, a);
        p = p + a;
        assert(events@ == e0 + p);
    }
    sanitize_shortcut(&mut config.save_and_exit, &defaults.save_and_exit, ShortcutField::SaveAndExit, events);
    proof {
        let a = combo_correction(c0.save_and_exit, ShortcutField::SaveAndExit);
        vstd::seq_lib::lemma_concat_associative(e0, p, a);
        p = p + a;
        assert(events@ == e0 + p);
    }
    sanitize_shortcut(&mut config.open_external, &defaults.open_external, ShortcutField::OpenExternal, events);
    proof {
        let a = combo_correction(c0.open_external, ShortcutField::OpenExternal);
        vstd::seq_lib::lemma_concat_associative(e0, p, a);
        p = p + a;
        assert(events@ == e0 + p);
    }
    sanitize_shortcut(&mut config.open_folder, &defaults.open_folder, ShortcutField::OpenFolder, events);
    proof {
        let a = combo_correction(c0.open_folder, ShortcutField::OpenFolder);
        vstd::seq_lib::lemma_concat_associative(e0, p, a);
        p = p + a;
        assert(events@ == e0 + p);
    }
    sanitize_shortcut(&mut config.refresh_cache, &defaults.refresh_cache, ShortcutField::RefreshCache, events);
    proof {
        let a = combo_correction(c0.refresh_cache, ShortcutField::RefreshCache);
        vstd::seq_lib::lemma_concat_associative(e0, p, a);
        p = p + a;
        assert(events@ == e0 + p);
    }
    sanitize_shortcut(&mut config.scroll_up, &defaults.scroll_up, ShortcutField::ScrollUp, events);
    proof {
        let a = combo_correction(c0.scroll_up, ShortcutField::ScrollUp);
        vstd::seq_lib::lemma_concat_associative(e0, p, a);
        p = p + a;
        assert(events@ == e0 + p);
    }
    sanitize_shortcut(&mut config.scroll_down, &defaults.scroll_down, ShortcutField::ScrollDown, events);
    proof {
        let a = combo_correction(c0.scroll_down, ShortcutField::ScrollDown);
        vstd::seq_lib::lemma_concat_associative(e0, p, a);
        p = p + a;
        assert(events@ == e0 + p);
    }
    sanitize_shortcut(&mut config.up, &defaults.up, ShortcutField::Up, events);
    proof {
        let a = combo_correction(c0.up, ShortcutField::Up);
        vstd::seq_lib::lemma_concat_associative(e0, p, a);
        p = p + a;
        assert(events@ == e0 + p);
    }
    sanitize_shortcut(&mut config.down, &defaults.down, ShortcutField::Down, events);
    proof {
        let a = combo_correction(c0.down, ShortcutField::Down);
        vstd::seq_lib::lemma_concat_associative(e0, p, a);
        p = p + a;
        assert(events@ == e0 + p);
    }
    sanitize_shortcut(&mut config.navigate_previous, &defaults.navigate_previous, ShortcutField::NavigatePrevious, events);
    proof {
        let a = combo_correction(c0.navigate_previous, ShortcutField::NavigatePrevious);
        vstd::seq_lib::lemma_concat_associative(e0, p, a);
        p = p + a;
        assert(events@ == e0 + p);
    }
    sanitize_shortcut(&mut config.navigate_next, &defaults.navigate_next, ShortcutField::NavigateNext, events);
    proof {
        let a = combo_correction(c0.navigate_next, ShortcutField::NavigateNext);
        vstd::seq_lib::lemma_concat_associative(e0, p, a);
        p = p + a;
        assert(events@ == e0 + p);
    }
    sanitize_shortcut(&mut config.navigate_code_previous, &defaults.navigate_code_previous, ShortcutField::NavigateCodePrevious, events);
    proof {
        let a = combo_correction(c0.navigate_code_previous, ShortcutField::NavigateCodePrevious);
        vstd::seq_lib::lemma_concat_associative(e0, p, a);
        p = p + a;
        assert(events@ == e0 + p);
    }
    sanitize_shortcut(&mut config.navigate_code_next, &defaults.navigate_code_next, ShortcutField::NavigateCodeNext, events);
    proof {
        let a = combo_correction(c0.navigate_code_next, ShortcutField::NavigateCodeNext);
        vstd::seq_lib::lemma_concat_associative(e0, p, a);
        p = p + a;
        assert(events@ == e0 + p);
    }
    sanitize_shortcut(&mut config.navigate_link_previous, &defaults.navigate_link_previous, ShortcutField::NavigateLinkPrevious, events);
    proof {
        let a = combo_correction(c0.navigate_link_previous, ShortcutField::NavigateLinkPrevious);
        vstd::seq_lib::lemma_concat_associative(e0, p, a);
        p = p + a;
        assert(events@ == e0 + p);
    }
    sanitize_shortcut(&mut config.navigate_link_next, &defaults.navigate_link_next, ShortcutField::NavigateLinkNext, events);
    proof {
        let a = combo_correction(c0.navigate_link_next, ShortcutField::NavigateLinkNext);
        vstd::seq_lib::lemma_concat_associative(e0, p, a);
        p = p + a;
        assert(events@ == e0 + p);
    }
    sanitize_shortcut(&mut config.copy_current_section, &defaults.copy_current_section, ShortcutField::CopyCurrentSection, events);
    proof {
        let a = combo_correction(c0.copy_current_section, ShortcutField::CopyCurrentSection);
        vstd::seq_lib::lemma_concat_associative(e0, p, a);
        p = p + a;
        assert(events@ == e0 + p);
    }
    sanitize_shortcut(&mut config.open_settings, &defaults.open_settings, ShortcutField::OpenSettings, events);
    proof {
        let a = combo_correction(c0.open_settings, ShortcutField::OpenSettings);
        vstd::seq_lib::lemma_concat_associative(e0, p, a);
        p = p + a;
        assert(events@ == e0 + p);
    }
    sanitize_shortcut(&mut config.version_explorer, &defaults.version_explorer, ShortcutField::VersionExplorer, events);
    proof {
        let a = combo_correction(c0.version_explorer, ShortcutField::VersionExplorer);
        vstd::seq_lib::lemma_concat_associative(e0, p, a);
        p = p + a;
        assert(events@ == e0 + p);
    }
    sanitize_shortcut(&mut config.recently_deleted, &defaults.recently_deleted, ShortcutField::RecentlyDeleted, events);
    proof {
        let a = combo_correction(c0.recently_deleted, ShortcutField::RecentlyDeleted);
        vstd::seq_lib::lemma_concat_associative(e0, p, a);
        p = p + a;
        assert(events@ == e0 + p);
    }
    proof {
        assert(config@ =~= fix_shortcuts(c0));
        assert(p == shortcuts_corrections(c0));
        assert(events@ == e0 + shortcuts_corrections(c0));
    }
}

/// Corrects every preference in place, appending one event per corrected
/// field.
pub fn sanitize_preferences_config(
    config: &mut PreferencesConfig,
    defaults: &PreferencesConfig,
    events: &mut Vec<ConfigField>,
)
    requires
        defaults@ == default_preferences_view(),
    ensures
        final(config)@ == fix_preferences(old(config)@),
        final(events)@ == old(events)@ + preferences_corrections(old(config)@),
{
    let ghost c0 = config@;
    let ghost e0 = events@;
    if config.max_search_results == 0 || config.max_search_results > 10000 {
        config.max_search_results = defaults.max_search_results;
        events.push(ConfigField::MaxSearchResults);
    }
    proof {
        assert(config@ =~= fix_preferences(c0));
        assert(events@ =~= e0 + preferences_corrections(c0));
    }
}

/// Walks every governed field of a structurally valid but domain-unverified
/// configuration and replaces each invalid value with the corresponding
/// default field value, in place. Never fails: every invalid field has a
/// well-defined fallback. Returns one event per corrected field, in
/// processing order; the surrounding application forwards them to its log
/// sink.
pub fn sanitize_config(config: &mut AppConfig) -> (events: Vec<ConfigField>)
    ensures
        final(config)@ == fix_config(old(config)@),
        events@ == config_corrections(old(config)@),
{
    let ghost c0 = config@;
    let defaults = AppConfig::default();
    let mut events: Vec<ConfigField> = Vec::new();
    if validate_notes_directory(config.notes_directory.as_str()).is_err() {
        config.notes_directory = defaults.notes_directory.clone();
        events.push(ConfigField::NotesDirectory);
    }
    if validate_shortcut_format(config.global_shortcut.as_str()).is_err() {
        config.global_shortcut = defaults.global_shortcut.clone();
        events.push(ConfigField::GlobalShortcut);
    }
    sanitize_interface_config(&mut config.interface, &defaults.interface, &mut events);
    sanitize_editor_config(&mut config.editor, &defaults.editor, &mut events);
    sanitize_shortcuts_config(&mut config.shortcuts, &defaults.shortcuts, &mut events);
    sanitize_preferences_config(&mut config.preferences, &defaults.preferences, &mut events);
    proof {
        assert(config@ =~= fix_config(c0));
        assert(events@ =~= config_corrections(c0));
    }
    events
}

} // verus!
