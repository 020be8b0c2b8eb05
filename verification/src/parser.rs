use vstd::prelude::*;
use crate::fields::ConfigField;
use crate::laws::{lemma_default_config_valid, lemma_default_fixed_point, lemma_sanitize_total};
use crate::sanitize::{config_corrections, config_ok, fix_config, sanitize_config};
use crate::schema::{
    AppConfig, ConfigView, EditorView, InterfaceView, PreferencesView, ShortcutsConfig,
    ShortcutsView, default_config_view, default_editor_view, default_interface_view,
    default_preferences_view, default_shortcuts_view,
};

verus! {

// ---------------------------------------------------------------------------
// The model of a TOML value tree
// ---------------------------------------------------------------------------

/// What the decoder can observe of a TOML value: a string, an integer, a
/// table keyed by strings, or anything else (float, boolean, datetime,
/// array), which the schema never reads.
pub ghost enum TomlView {
    Str(Seq<char>),
    Int(int),
    Table(Map<Seq<char>, TomlView>),
    Other,
}

// ---------------------------------------------------------------------------
// The trusted edge to the TOML reader
// ---------------------------------------------------------------------------

#[verifier::external_type_specification]
#[verifier::external_body]
pub struct ExTomlValue(toml::Value);

/// Whether the TOML reader accepts `s` as a well-formed document. The
/// outcome depends on the text alone.
pub uninterp spec fn toml_parses(s: Seq<char>) -> bool;

/// The value tree the TOML reader builds from a well-formed document. It
/// depends on the text alone.
pub uninterp spec fn toml_doc_of(s: Seq<char>) -> TomlView;

/// What a `toml::Value` holds, in the model above.
pub uninterp spec fn toml_view(v: toml::Value) -> TomlView;

/// Relies on toml::from_str::<toml::Value>: decodes a TOML document into its
/// value tree, or reports the parse error's text. The same text always
/// parses to the same tree.
#[verifier::external_body]
fn parse_toml_document(content: &str) -> (r: Result<toml::Value, String>)
    ensures
        r is Ok <==> toml_parses(content@),
        r matches Ok(v) ==> toml_view(v) == toml_doc_of(content@),
{
    match toml::from_str::<toml::Value>(content) {
        Ok(v) => Ok(v),
        Err(e) => Err(e.to_string()),
    }
}

/// Relies on toml::Value::get with a string index: looks a key up when the
/// value is a table; None when the key is absent or the value is no table.
#[verifier::external_body]
fn toml_get<'a>(v: &'a toml::Value, key: &str) -> (r: Option<&'a toml::Value>)
    ensures
        r is Some <==> (toml_view(*v) matches TomlView::Table(m) && m.contains_key(key@)),
        r matches Some(x) ==> (toml_view(*v) matches TomlView::Table(m) && toml_view(*x)
            == m[key@]),
{
    v.get(key)
}

/// Relies on toml::Value::as_str: Some of the held text exactly when the
/// value is a string.
#[verifier::external_body]
fn toml_as_str<'a>(v: &'a toml::Value) -> (r: Option<&'a str>)
    ensures
        r is Some <==> toml_view(*v) is Str,
        r matches Some(s) ==> toml_view(*v) == TomlView::Str(s@),
{
    v.as_str()
}

/// Relies on toml::Value::as_integer: Some of the held number exactly when
/// the value is an integer.
#[verifier::external_body]
fn toml_as_integer(v: &toml::Value) -> (r: Option<i64>)
    ensures
        r is Some <==> toml_view(*v) is Int,
        r matches Some(x) ==> toml_view(*v) == TomlView::Int(x as int),
{
    v.as_integer()
}

/// Relies on toml::Value::is_table.
#[verifier::external_body]
fn toml_is_table(v: &toml::Value) -> (r: bool)
    ensures
        r == (toml_view(*v) is Table),
{
    v.is_table()
}

// ---------------------------------------------------------------------------
// What structural decoding computes
// ---------------------------------------------------------------------------

/// The value under `key` when `d` is a table holding it; None when the key
/// is absent or `d` is no table.
pub open spec fn doc_field(d: TomlView, key: Seq<char>) -> Option<TomlView> {
    match d {
        TomlView::Table(m) => if m.contains_key(key) {
            Some(m[key])
        } else {
            None
        },
        _ => None,
    }
}

/// A string-typed field decodes: it is absent or holds a string.
pub open spec fn str_field_ok(d: TomlView, key: Seq<char>) -> bool {
    match doc_field(d, key) {
        None => true,
        Some(x) => x is Str,
    }
}

/// The decoded value of a string-typed field: the held string, or `def`
/// when the field is absent.
pub open spec fn str_field(d: TomlView, key: Seq<char>, def: Seq<char>) -> Seq<char> {
    match doc_field(d, key) {
        Some(TomlView::Str(s)) => s,
        _ => def,
    }
}

/// An integer field that must fit a u32 decodes: it is absent or holds an
/// integer in range.
pub open spec fn u32_field_ok(d: TomlView, key: Seq<char>) -> bool {
    match doc_field(d, key) {
        None => true,
        Some(x) => x matches TomlView::Int(n) && 0 <= n <= u32::MAX as int,
    }
}

/// The decoded value of a u32 field: the held number, or `def` when the
/// field is absent.
pub open spec fn u32_field(d: TomlView, key: Seq<char>, def: int) -> int {
    match doc_field(d, key) {
        Some(TomlView::Int(n)) => if 0 <= n <= u32::MAX as int {
            n
        } else {
            def
        },
        _ => def,
    }
}

/// An integer field that must fit a usize decodes.
pub open spec fn usize_field_ok(d: TomlView, key: Seq<char>) -> bool {
    match doc_field(d, key) {
        None => true,
        Some(x) => x matches TomlView::Int(n) && 0 <= n <= usize::MAX as int,
    }
}

/// The decoded value of a usize field.
pub open spec fn usize_field(d: TomlView, key: Seq<char>, def: int) -> int {
    match doc_field(d, key) {
        Some(TomlView::Int(n)) => if 0 <= n <= usize::MAX as int {
            n
        } else {
            def
        },
        _ => def,
    }
}

/// A section decodes at its own level: it is absent or holds a table.
pub open spec fn section_ok(d: TomlView, key: Seq<char>) -> bool {
    match doc_field(d, key) {
        None => true,
        Some(x) => x is Table,
    }
}

/// The section value under `key`; an absent section reads as a non-table,
/// on which every field lookup misses, so its fields decode to defaults.
pub open spec fn section(d: TomlView, key: Seq<char>) -> TomlView {
    match doc_field(d, key) {
        Some(x) => x,
        None => TomlView::Other,
    }
}

/// Every appearance field of the section decodes.
pub open spec fn interface_decodes(sec: TomlView) -> bool {
    &&& str_field_ok(sec, "ui_theme"@)
    &&& str_field_ok(sec, "markdown_render_theme"@)
    &&& str_field_ok(sec, "md_render_code_theme"@)
    &&& u32_field_ok(sec, "font_size"@)
    &&& u32_field_ok(sec, "editor_font_size"@)
}

/// The decoded appearance settings: present fields verbatim, absent fields
/// at their structural defaults.
pub open spec fn decoded_interface(sec: TomlView) -> InterfaceView {
    let d = default_interface_view();
    InterfaceView {
        ui_theme: str_field(sec, "ui_theme"@, d.ui_theme),
        markdown_render_theme: str_field(sec, "markdown_render_theme"@, d.markdown_render_theme),
        md_render_code_theme: str_field(sec, "md_render_code_theme"@, d.md_render_code_theme),
        font_size: u32_field(sec, "font_size"@, d.font_size),
        editor_font_size: u32_field(sec, "editor_font_size"@, d.editor_font_size),
    }
}

/// Every editor field of the section decodes.
pub open spec fn editor_decodes(sec: TomlView) -> bool {
    &&& str_field_ok(sec, "mode"@)
    &&& str_field_ok(sec, "theme"@)
    &&& u32_field_ok(sec, "tab_size"@)
}

/// The decoded editor settings.
pub open spec fn decoded_editor(sec: TomlView) -> EditorView {
    let d = default_editor_view();
    EditorView {
        mode: str_field(sec, "mode"@, d.mode),
        theme: str_field(sec, "theme"@, d.theme),
        tab_size: u32_field(sec, "tab_size"@, d.tab_size),
    }
}

/// Every per-action shortcut field of the section decodes.
pub open spec fn shortcuts_decodes(sec: TomlView) -> bool {
    &&& str_field_ok(sec, "create_note"@)
    &&& str_field_ok(sec, "rename_note"@)
    &&& str_field_ok(sec, "delete_note"@)
    &&& str_field_ok(sec, "edit_note"@)
    &&& str_field_ok(sec, "save_and_exit"@)
    &&& str_field_ok(sec, "open_external"@)
    &&& str_field_ok(sec, "open_folder"@)
    &&& str_field_ok(sec, "refresh_cache"@)
    &&& str_field_ok(sec, "scroll_up"@)
    &&& str_field_ok(sec, "scroll_down"@)
    &&& str_field_ok(sec, "up"@)
    &&& str_field_ok(sec, "down"@)
    &&& str_field_ok(sec, "navigate_previous"@)
    &&& str_field_ok(sec, "navigate_next"@)
    &&& str_field_ok(sec, "navigate_code_previous"@)
    &&& str_field_ok(sec, "navigate_code_next"@)
    &&& str_field_ok(sec, "navigate_link_previous"@)
    &&& str_field_ok(sec, "navigate_link_next"@)
    &&& str_field_ok(sec, "copy_current_section"@)
    &&& str_field_ok(sec, "open_settings"@)
    &&& str_field_ok(sec, "version_explorer"@)
    &&& str_field_ok(sec, "recently_deleted"@)
}

/// The decoded per-action shortcuts.
pub open spec fn decoded_shortcuts(sec: TomlView) -> ShortcutsView {
    let d = default_shortcuts_view();
    ShortcutsView {
        create_note: str_field(sec, "create_note"@, d.create_note),
        rename_note: str_field(sec, "rename_note"@, d.rename_note),
        delete_note: str_field(sec, "delete_note"@, d.delete_note),
        edit_note: str_field(sec, "edit_note"@, d.edit_note),
        save_and_exit: str_field(sec, "save_and_exit"@, d.save_and_exit),
        open_external: str_field(sec, "open_external"@, d.open_external),
        open_folder: str_field(sec, "open_folder"@, d.open_folder),
        refresh_cache: str_field(sec, "refresh_cache"@, d.refresh_cache),
        scroll_up: str_field(sec, "scroll_up"@, d.scroll_up),
        scroll_down: str_field(sec, "scroll_down"@, d.scroll_down),
        up: str_field(sec, "up"@, d.up),
        down: str_field(sec, "down"@, d.down),
        navigate_previous: str_field(sec, "navigate_previous"@, d.navigate_previous),
        navigate_next: str_field(sec, "navigate_next"@, d.navigate_next),
        navigate_code_previous: str_field(
            sec,
            "navigate_code_previous"@,
            d.navigate_code_previous,
        ),
        navigate_code_next: str_field(sec, "navigate_code_next"@, d.navigate_code_next),
        navigate_link_previous: str_field(
            sec,
            "navigate_link_previous"@,
            d.navigate_link_previous,
        ),
        navigate_link_next: str_field(sec, "navigate_link_next"@, d.navigate_link_next),
        copy_current_section: str_field(sec, "copy_current_section"@, d.copy_current_section),
        open_settings: str_field(sec, "open_settings"@, d.open_settings),
        version_explorer: str_field(sec, "version_explorer"@, d.version_explorer),
        recently_deleted: str_field(sec, "recently_deleted"@, d.recently_deleted),
    }
}

/// Every preference field of the section decodes.
pub open spec fn preferences_decodes(sec: TomlView) -> bool {
    usize_field_ok(sec, "max_search_results"@)
}

/// The decoded preferences.
pub open spec fn decoded_preferences(sec: TomlView) -> PreferencesView {
    PreferencesView {
        max_search_results: usize_field(
            sec,
            "max_search_results"@,
            default_preferences_view().max_search_results,
        ),
    }
}

/// The whole document decodes: every known field is absent or of its
/// expected type. Unknown fields carry no constraint — the decoder ignores
/// them.
pub open spec fn doc_decodes(d: TomlView) -> bool {
    &&& str_field_ok(d, "notes_directory"@)
    &&& str_field_ok(d, "global_shortcut"@)
    &&& section_ok(d, "interface"@)
    &&& interface_decodes(section(d, "interface"@))
    &&& section_ok(d, "editor"@)
    &&& editor_decodes(section(d, "editor"@))
    &&& section_ok(d, "shortcuts"@)
    &&& shortcuts_decodes(section(d, "shortcuts"@))
    &&& section_ok(d, "preferences"@)
    &&& preferences_decodes(section(d, "preferences"@))
}

/// The configuration decoded from the document: present fields verbatim,
/// absent fields and sections at their structural defaults. Domain validity
/// is not judged here; that is the sanitizer's job.
pub open spec fn decoded_config(d: TomlView) -> ConfigView {
    ConfigView {
        notes_directory: str_field(d, "notes_directory"@, default_config_view().notes_directory),
        global_shortcut: str_field(d, "global_shortcut"@, default_config_view().global_shortcut),
        interface: decoded_interface(section(d, "interface"@)),
        editor: decoded_editor(section(d, "editor"@)),
        shortcuts: decoded_shortcuts(section(d, "shortcuts"@)),
        preferences: decoded_preferences(section(d, "preferences"@)),
    }
}

// ---------------------------------------------------------------------------
// Executable structural decoding
// ---------------------------------------------------------------------------

/// One field read from the document: absent, present with the wrong type or
/// out of the representable range, or present with a usable value.
enum FieldVal<T> {
    Missing,
    Bad,
    Present(T),
}

/// Reads a string-typed field of a table.
fn read_string_field(table: &toml::Value, key: &str) -> (r: FieldVal<String>)
    ensures
        r is Missing <==> doc_field(toml_view(*table), key@) is None,
        r is Bad <==> !str_field_ok(toml_view(*table), key@),
        r matches FieldVal::Present(s) ==> doc_field(toml_view(*table), key@) == Some(
            TomlView::Str(s@),
        ),
{
    match toml_get(table, key) {
        None => FieldVal::Missing,
        Some(v) => match toml_as_str(v) {
            None => FieldVal::Bad,
            Some(s) => FieldVal::Present(s.to_owned()),
        },
    }
}

/// Reads an integer field of a table that must fit a u32.
fn read_u32_field(table: &toml::Value, key: &str) -> (r: FieldVal<u32>)
    ensures
        r is Missing <==> doc_field(toml_view(*table), key@) is None,
        r is Bad <==> !u32_field_ok(toml_view(*table), key@),
        r matches FieldVal::Present(x) ==> doc_field(toml_view(*table), key@) == Some(
            TomlView::Int(x as int),
        ),
{
    match toml_get(table, key) {
        None => FieldVal::Missing,
        Some(v) => match toml_as_integer(v) {
            None => FieldVal::Bad,
            Some(x) => if x < 0 || x > 0xffff_ffffi64 {
                FieldVal::Bad
            } else {
                FieldVal::Present(x as u32)
            },
        },
    }
}

/// Reads an integer field of a table that must fit a usize.
fn read_usize_field(table: &toml::Value, key: &str) -> (r: FieldVal<usize>)
    ensures
        r is Missing <==> doc_field(toml_view(*table), key@) is None,
        r is Bad <==> !usize_field_ok(toml_view(*table), key@),
        r matches FieldVal::Present(x) ==> doc_field(toml_view(*table), key@) == Some(
            TomlView::Int(x as int),
        ),
{
    match toml_get(table, key) {
        None => FieldVal::Missing,
        Some(v) => match toml_as_integer(v) {
            None => FieldVal::Bad,
            Some(x) => if x < 0 {
                FieldVal::Bad
            } else {
                let xu = x as u64;
                if xu > usize::MAX as u64 {
                    FieldVal::Bad
                } else {
                    FieldVal::Present(xu as usize)
                }
            },
        },
    }
}

/// Reads one shortcut field of the shortcuts table into `slot`, which
/// arrives holding its structural default; false when the field is present
/// with a non-string value.
fn decode_shortcut_field(sec: &toml::Value, key: &str, slot: &mut String) -> (ok: bool)
    ensures
        ok <==> str_field_ok(toml_view(*sec), key@),
        ok ==> final(slot)@ == str_field(toml_view(*sec), key@, old(slot)@),
        !ok ==> *final(slot) == *old(slot),
{
    match read_string_field(sec, key) {
        FieldVal::Missing => true,
        FieldVal::Bad => false,
        FieldVal::Present(s) => {
            *slot = s;
            true
        },
    }
}

/// Reads every shortcut field of the shortcuts table into a shortcuts
/// struct that arrives holding its structural defaults; false on the first
/// field of the wrong type.
#[verifier::rlimit(100)]
fn decode_shortcuts(sec: &toml::Value, shortcuts: &mut ShortcutsConfig) -> (ok: bool)
    requires
        old(shortcuts)@ == default_shortcuts_view(),
    ensures
        ok <==> shortcuts_decodes(toml_view(*sec)),
        ok ==> final(shortcuts)@ == decoded_shortcuts(toml_view(*sec)),
{
    if !decode_shortcut_field(sec, "create_note", &mut shortcuts.create_note) {
        return false;
    }
    if !decode_shortcut_field(sec, "rename_note", &mut shortcuts.rename_note) {
        return false;
    }
    if !decode_shortcut_field(sec, "delete_note", &mut shortcuts.delete_note) {
        return false;
    }
    if !decode_shortcut_field(sec, "edit_note", &mut shortcuts.edit_note) {
        return false;
    }
    if !decode_shortcut_field(sec, "save_and_exit", &mut shortcuts.save_and_exit) {
        return false;
    }
    if !decode_shortcut_field(sec, "open_external", &mut shortcuts.open_external) {
        return false;
    }
    if !decode_shortcut_field(sec, "open_folder", &mut shortcuts.open_folder) {
        return false;
    }
    if !decode_shortcut_field(sec, "refresh_cache", &mut shortcuts.refresh_cache) {
        return false;
    }
    if !decode_shortcut_field(sec, "scroll_up", &mut shortcuts.scroll_up) {
        return false;
    }
    if !decode_shortcut_field(sec, "scroll_down", &mut shortcuts.scroll_down) {
        return false;
    }
    if !decode_shortcut_field(sec, "up", &mut shortcuts.up) {
        return false;
    }
    if !decode_shortcut_field(sec, "down", &mut shortcuts.down) {
        return false;
    }
    if !decode_shortcut_field(sec, "navigate_previous", &mut shortcuts.navigate_previous) {
        return false;
    }
    if !decode_shortcut_field(sec, "navigate_next", &mut shortcuts.navigate_next) {
        return false;
    }
    if !decode_shortcut_field(
        sec,
        "navigate_code_previous",
        &mut shortcuts.navigate_code_previous,
    ) {
        return false;
    }
    if !decode_shortcut_field(sec, "navigate_code_next", &mut shortcuts.navigate_code_next) {
        return false;
    }
    if !decode_shortcut_field(
        sec,
        "navigate_link_previous",
        &mut shortcuts.navigate_link_previous,
    ) {
        return false;
    }
    if !decode_shortcut_field(sec, "navigate_link_next", &mut shortcuts.navigate_link_next) {
        return false;
    }
    if !decode_shortcut_field(sec, "copy_current_section", &mut shortcuts.copy_current_section) {
        return false;
    }
    if !decode_shortcut_field(sec, "open_settings", &mut shortcuts.open_settings) {
        return false;
    }
    if !decode_shortcut_field(sec, "version_explorer", &mut shortcuts.version_explorer) {
        return false;
    }
    if !decode_shortcut_field(sec, "recently_deleted", &mut shortcuts.recently_deleted) {
        return false;
    }
    proof {
        assert(shortcuts@ =~= decoded_shortcuts(toml_view(*sec)));
    }
    true
}

/// Decodes the value tree into a configuration: a missing field or section
/// keeps its structural default, an unknown field is ignored, and a field
/// or section of the wrong type makes the whole document count as a decode
/// failure (None). Domain validity is not checked here; that is the
/// sanitizer's job.
#[verifier::rlimit(100)]
fn decode_config(root: &toml::Value) -> (r: Option<AppConfig>)
    ensures
        r is Some <==> doc_decodes(toml_view(*root)),
        r matches Some(c) ==> c@ == decoded_config(toml_view(*root)),
{
    let ghost dv = toml_view(*root);
    let mut config = AppConfig::default();
    match read_string_field(root, "notes_directory") {
        FieldVal::Missing => (),
        FieldVal::Bad => {
            return None;
        },
        FieldVal::Present(s) => {
            config.notes_directory = s;
        },
    }
    match read_string_field(root, "global_shortcut") {
        FieldVal::Missing => (),
        FieldVal::Bad => {
            return None;
        },
        FieldVal::Present(s) => {
            config.global_shortcut = s;
        },
    }
    match toml_get(root, "interface") {
        None => {
            assert(section(dv, "interface"@) == TomlView::Other);
        },
        Some(sec) => {
            if !toml_is_table(sec) {
                return None;
            }
            match read_string_field(sec, "ui_theme") {
                FieldVal::Missing => (),
                FieldVal::Bad => {
                    return None;
                },
                FieldVal::Present(s) => {
                    config.interface.ui_theme = s;
                },
            }
            match read_string_field(sec, "markdown_render_theme") {
                FieldVal::Missing => (),
                FieldVal::Bad => {
                    return None;
                },
                FieldVal::Present(s) => {
                    config.interface.markdown_render_theme = s;
                },
            }
            match read_string_field(sec, "md_render_code_theme") {
                FieldVal::Missing => (),
                FieldVal::Bad => {
                    return None;
                },
                FieldVal::Present(s) => {
                    config.interface.md_render_code_theme = s;
                },
            }
            match read_u32_field(sec, "font_size") {
                FieldVal::Missing => (),
                FieldVal::Bad => {
                    return None;
                },
                FieldVal::Present(x) => {
                    config.interface.font_size = x;
                },
            }
            match read_u32_field(sec, "editor_font_size") {
                FieldVal::Missing => (),
                FieldVal::Bad => {
                    return None;
                },
                FieldVal::Present(x) => {
                    config.interface.editor_font_size = x;
                },
            }
        },
    }
    assert(config.interface@ =~= decoded_interface(section(dv, "interface"@)));
    match toml_get(root, "editor") {
        None => (),
        Some(sec) => {
            if !toml_is_table(sec) {
                return None;
            }
            match read_string_field(sec, "mode") {
                FieldVal::Missing => (),
                FieldVal::Bad => {
                    return None;
                },
                FieldVal::Present(s) => {
                    config.editor.mode = s;
                },
            }
            match read_string_field(sec, "theme") {
                FieldVal::Missing => (),
                FieldVal::Bad => {
                    return None;
                },
                FieldVal::Present(s) => {
                    config.editor.theme = s;
                },
            }
            match read_u32_field(sec, "tab_size") {
                FieldVal::Missing => (),
                FieldVal::Bad => {
                    return None;
                },
                FieldVal::Present(x) => {
                    config.editor.tab_size = x;
                },
            }
        },
    }
    assert(config.editor@ =~= decoded_editor(section(dv, "editor"@)));
    match toml_get(root, "shortcuts") {
        None => (),
        Some(sec) => {
            if !toml_is_table(sec) {
                return None;
            }
            if !decode_shortcuts(sec, &mut config.shortcuts) {
                return None;
            }
        },
    }
    assert(config.shortcuts@ =~= decoded_shortcuts(section(dv, "shortcuts"@)));
    match toml_get(root, "preferences") {
        None => (),
        Some(sec) => {
            if !toml_is_table(sec) {
                return None;
            }
            match read_usize_field(sec, "max_search_results") {
                FieldVal::Missing => (),
                FieldVal::Bad => {
                    return None;
                },
                FieldVal::Present(x) => {
                    config.preferences.max_search_results = x;
                },
            }
        },
    }
    proof {
        assert(config@ =~= decoded_config(dv));
    }
    Some(config)
}

// ---------------------------------------------------------------------------
// Loading
// ---------------------------------------------------------------------------

/// The outcome of one configuration load.
pub struct LoadResult {
    /// The guaranteed-valid configuration to run with.
    pub config: AppConfig,
    /// The configuration as decoded, before sanitization: the source of the
    /// invalid values and the defaults that the log sink reports beside each
    /// correction event. The full default on decode failure.
    pub decoded: AppConfig,
    /// The whole document failed to decode and the full default was
    /// substituted.
    pub parse_failed: bool,
    /// The decode error's text, present exactly on decode failure.
    pub parse_error: Option<String>,
    /// One event per corrected field, in processing order; empty on decode
    /// failure.
    pub corrections: Vec<ConfigField>,
}

/// Turns raw configuration text into a guaranteed-valid configuration. On
/// any decode failure — ill-formed text, or a known field or section of the
/// wrong type — the full default configuration is substituted, the error's
/// text is reported once, and no per-field events are produced; otherwise
/// the configuration decoded from the text is sanitized field by field.
/// Never fails, whatever the text holds.
pub fn load_config_from_content(content: &str) -> (r: LoadResult)
    ensures
        config_ok(r.config@),
        r.parse_failed <==> r.parse_error is Some,
        r.parse_failed <==> !(toml_parses(content@) && doc_decodes(toml_doc_of(content@))),
        r.parse_failed ==> r.decoded@ == default_config_view(),
        !r.parse_failed ==> r.decoded@ == decoded_config(toml_doc_of(content@)),
        r.config@ == fix_config(r.decoded@),
        r.corrections@ == config_corrections(r.decoded@),
{
    proof {
        lemma_default_config_valid();
        lemma_default_fixed_point();
    }
    match parse_toml_document(content) {
        Err(e) => LoadResult {
            config: AppConfig::default(),
            decoded: AppConfig::default(),
            parse_failed: true,
            parse_error: Some(e),
            corrections: Vec::new(),
        },
        Ok(root) => match decode_config(&root) {
            None => LoadResult {
                config: AppConfig::default(),
                decoded: AppConfig::default(),
                parse_failed: true,
                parse_error: Some("document shape does not match the configuration".to_owned()),
                corrections: Vec::new(),
            },
            Some(mut config) => {
                let decoded = config.duplicate();
                let ghost c0 = config@;
                let corrections = sanitize_config(&mut config);
                proof {
                    lemma_sanitize_total(c0);
                }
                LoadResult { config, decoded, parse_failed: false, parse_error: None, corrections }
            },
        },
    }
}

} // verus!
