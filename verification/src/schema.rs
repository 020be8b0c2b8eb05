use vstd::prelude::*;

verus! {

// ---------------------------------------------------------------------------
// The configuration schema and its mathematical views
// ---------------------------------------------------------------------------

/// Appearance settings.
#[derive(Debug, Clone)]
pub struct InterfaceConfig {
    pub ui_theme: String,
    pub markdown_render_theme: String,
    pub md_render_code_theme: String,
    pub font_size: u32,
    pub editor_font_size: u32,
}

/// Editor behaviour settings.
#[derive(Debug, Clone)]
pub struct EditorConfig {
    pub mode: String,
    pub theme: String,
    pub tab_size: u32,
}

/// The per-action key combos, one field per action.
#[derive(Debug, Clone)]
pub struct ShortcutsConfig {
    pub create_note: String,
    pub rename_note: String,
    pub delete_note: String,
    pub edit_note: String,
    pub save_and_exit: String,
    pub open_external: String,
    pub open_folder: String,
    pub refresh_cache: String,
    pub scroll_up: String,
    pub scroll_down: String,
    pub up: String,
    pub down: String,
    pub navigate_previous: String,
    pub navigate_next: String,
    pub navigate_code_previous: String,
    pub navigate_code_next: String,
    pub navigate_link_previous: String,
    pub navigate_link_next: String,
    pub copy_current_section: String,
    pub open_settings: String,
    pub version_explorer: String,
    pub recently_deleted: String,
}

/// Miscellaneous preferences.
#[derive(Debug, Clone)]
pub struct PreferencesConfig {
    pub max_search_results: usize,
}

/// The root configuration aggregate.
#[derive(Debug, Clone)]
pub struct AppConfig {
    pub notes_directory: String,
    pub global_shortcut: String,
    pub interface: InterfaceConfig,
    pub editor: EditorConfig,
    pub shortcuts: ShortcutsConfig,
    pub preferences: PreferencesConfig,
}

/// Mathematical view of `InterfaceConfig`.
#[verifier::ext_equal]
pub ghost struct InterfaceView {
    pub ui_theme: Seq<char>,
    pub markdown_render_theme: Seq<char>,
    pub md_render_code_theme: Seq<char>,
    pub font_size: int,
    pub editor_font_size: int,
}

/// Mathematical view of `EditorConfig`.
#[verifier::ext_equal]
pub ghost struct EditorView {
    pub mode: Seq<char>,
    pub theme: Seq<char>,
    pub tab_size: int,
}

/// Mathematical view of `ShortcutsConfig`.
#[verifier::ext_equal]
pub ghost struct ShortcutsView {
    pub create_note: Seq<char>,
    pub rename_note: Seq<char>,
    pub delete_note: Seq<char>,
    pub edit_note: Seq<char>,
    pub save_and_exit: Seq<char>,
    pub open_external: Seq<char>,
    pub open_folder: Seq<char>,
    pub refresh_cache: Seq<char>,
    pub scroll_up: Seq<char>,
    pub scroll_down: Seq<char>,
    pub up: Seq<char>,
    pub down: Seq<char>,
    pub navigate_previous: Seq<char>,
    pub navigate_next: Seq<char>,
    pub navigate_code_previous: Seq<char>,
    pub navigate_code_next: Seq<char>,
    pub navigate_link_previous: Seq<char>,
    pub navigate_link_next: Seq<char>,
    pub copy_current_section: Seq<char>,
    pub open_settings: Seq<char>,
    pub version_explorer: Seq<char>,
    pub recently_deleted: Seq<char>,
}

/// Mathematical view of `PreferencesConfig`.
#[verifier::ext_equal]
pub ghost struct PreferencesView {
    pub max_search_results: int,
}

/// Mathematical view of `AppConfig`.
#[verifier::ext_equal]
pub ghost struct ConfigView {
    pub notes_directory: Seq<char>,
    pub global_shortcut: Seq<char>,
    pub interface: InterfaceView,
    pub editor: EditorView,
    pub shortcuts: ShortcutsView,
    pub preferences: PreferencesView,
}

impl View for InterfaceConfig {
    type V = InterfaceView;

    open spec fn view(&self) -> InterfaceView {
        InterfaceView {
            ui_theme: self.ui_theme@,
            markdown_render_theme: self.markdown_render_theme@,
            md_render_code_theme: self.md_render_code_theme@,
            font_size: self.font_size as int,
            editor_font_size: self.editor_font_size as int,
        }
    }
}

impl View for EditorConfig {
    type V = EditorView;

    open spec fn view(&self) -> EditorView {
        EditorView {
            mode: self.mode@,
            theme: self.theme@,
            tab_size: self.tab_size as int,
        }
    }
}

impl View for ShortcutsConfig {
    type V = ShortcutsView;

    open spec fn view(&self) -> ShortcutsView {
        ShortcutsView {
            create_note: self.create_note@,
            rename_note: self.rename_note@,
            delete_note: self.delete_note@,
            edit_note: self.edit_note@,
            save_and_exit: self.save_and_exit@,
            open_external: self.open_external@,
            open_folder: self.open_folder@,
            refresh_cache: self.refresh_cache@,
            scroll_up: self.scroll_up@,
            scroll_down: self.scroll_down@,
            up: self.up@,
            down: self.down@,
            navigate_previous: self.navigate_previous@,
            navigate_next: self.navigate_next@,
            navigate_code_previous: self.navigate_code_previous@,
            navigate_code_next: self.navigate_code_next@,
            navigate_link_previous: self.navigate_link_previous@,
            navigate_link_next: self.navigate_link_next@,
            copy_current_section: self.copy_current_section@,
            open_settings: self.open_settings@,
            version_explorer: self.version_explorer@,
            recently_deleted: self.recently_deleted@,
        }
    }
}

impl View for PreferencesConfig {
    type V = PreferencesView;

    open spec fn view(&self) -> PreferencesView {
        PreferencesView { max_search_results: self.max_search_results as int }
    }
}

impl View for AppConfig {
    type V = ConfigView;

    open spec fn view(&self) -> ConfigView {
        ConfigView {
            notes_directory: self.notes_directory@,
            global_shortcut: self.global_shortcut@,
            interface: self.interface@,
            editor: self.editor@,
            shortcuts: self.shortcuts@,
            preferences: self.preferences@,
        }
    }
}

// ---------------------------------------------------------------------------
// The default configuration
// ---------------------------------------------------------------------------

/// View of the default appearance settings.
pub open spec fn default_interface_view() -> InterfaceView {
    InterfaceView {
        ui_theme: "gruvbox-dark"@,
        markdown_render_theme: "modern-dark"@,
        md_render_code_theme: "gruvbox-dark-hard"@,
        font_size: 14,
        editor_font_size: 14,
    }
}

/// View of the default editor settings.
pub open spec fn default_editor_view() -> EditorView {
    EditorView { mode: "basic"@, theme: "gruvbox-dark"@, tab_size: 4 }
}

/// View of the default per-action shortcuts.
pub open spec fn default_shortcuts_view() -> ShortcutsView {
    ShortcutsView {
        create_note: "Ctrl+N"@,
        rename_note: "F2"@,
        delete_note: "Ctrl+D"@,
        edit_note: "Enter"@,
        save_and_exit: "Ctrl+S"@,
        open_external: "Ctrl+O"@,
        open_folder: "Ctrl+F"@,
        refresh_cache: "F5"@,
        scroll_up: "Ctrl+Up"@,
        scroll_down: "Ctrl+Down"@,
        up: "Up"@,
        down: "Down"@,
        navigate_previous: "Ctrl+K"@,
        navigate_next: "Ctrl+J"@,
        navigate_code_previous: "Alt+K"@,
        navigate_code_next: "Alt+J"@,
        navigate_link_previous: "Alt+P"@,
        navigate_link_next: "Alt+N"@,
        copy_current_section: "Ctrl+C"@,
        open_settings: "Ctrl+Comma"@,
        version_explorer: "Ctrl+H"@,
        recently_deleted: "Ctrl+R"@,
    }
}

/// View of the default preferences.
pub open spec fn default_preferences_view() -> PreferencesView {
    PreferencesView { max_search_results: 100 }
}

/// View of the full default configuration: the sole source of replacement
/// values during sanitization.
pub open spec fn default_config_view() -> ConfigView {
    ConfigView {
        notes_directory: "notes"@,
        global_shortcut: "Ctrl+Shift+N"@,
        interface: default_interface_view(),
        editor: default_editor_view(),
        shortcuts: default_shortcuts_view(),
        preferences: default_preferences_view(),
    }
}

impl Default for InterfaceConfig {
    fn default() -> (r: Self)
        ensures
            r@ == default_interface_view(),
    {
        let r = InterfaceConfig {
            ui_theme: "gruvbox-dark".to_owned(),
            markdown_render_theme: "modern-dark".to_owned(),
            md_render_code_theme: "gruvbox-dark-hard".to_owned(),
            font_size: 14,
            editor_font_size: 14,
        };
        proof {
            assert(r@ =~= default_interface_view());
        }
        r
    }
}

impl Default for EditorConfig {
    fn default() -> (r: Self)
        ensures
            r@ == default_editor_view(),
    {
        let r = EditorConfig {
            mode: "basic".to_owned(),
            theme: "gruvbox-dark".to_owned(),
            tab_size: 4,
        };
        proof {
            assert(r@ =~= default_editor_view());
        }
        r
    }
}

impl Default for ShortcutsConfig {
    fn default() -> (r: Self)
        ensures
            r@ == default_shortcuts_view(),
    {
        let r = ShortcutsConfig {
            create_note: "Ctrl+N".to_owned(),
            rename_note: "F2".to_owned(),
            delete_note: "Ctrl+D".to_owned(),
            edit_note: "Enter".to_owned(),
            save_and_exit: "Ctrl+S".to_owned(),
            open_external: "Ctrl+O".to_owned(),
            open_folder: "Ctrl+F".to_owned(),
            refresh_cache: "F5".to_owned(),
            scroll_up: "Ctrl+Up".to_owned(),
            scroll_down: "Ctrl+Down".to_owned(),
            up: "Up".to_owned(),
            down: "Down".to_owned(),
            navigate_previous: "Ctrl+K".to_owned(),
            navigate_next: "Ctrl+J".to_owned(),
            navigate_code_previous: "Alt+K".to_owned(),
            navigate_code_next: "Alt+J".to_owned(),
            navigate_link_previous: "Alt+P".to_owned(),
            navigate_link_next: "Alt+N".to_owned(),
            copy_current_section: "Ctrl+C".to_owned(),
            open_settings: "Ctrl+Comma".to_owned(),
            version_explorer: "Ctrl+H".to_owned(),
            recently_deleted: "Ctrl+R".to_owned(),
        };
        proof {
            assert(r@ =~= default_shortcuts_view());
        }
        r
    }
}

impl Default for PreferencesConfig {
    fn default() -> (r: Self)
        ensures
            r@ == default_preferences_view(),
    {
        PreferencesConfig { max_search_results: 100 }
    }
}

impl Default for AppConfig {
    fn default() -> (r: Self)
        ensures
            r@ == default_config_view(),
    {
        let r = AppConfig {
            notes_directory: "notes".to_owned(),
            global_shortcut: "Ctrl+Shift+N".to_owned(),
            interface: InterfaceConfig::default(),
            editor: EditorConfig::default(),
            shortcuts: ShortcutsConfig::default(),
            preferences: PreferencesConfig::default(),
        };
        proof {
            assert(r@ =~= default_config_view());
        }
        r
    }
}

impl AppConfig {
    /// An exact copy with its view preserved: the loader snapshots the
    /// decoded configuration through this before sanitizing it, so the
    /// invalid values behind the correction events stay available.
    pub fn duplicate(&self) -> (r: AppConfig)
        ensures
            r@ == self@,
    {
        let r = AppConfig {
            notes_directory: self.notes_directory.clone(),
            global_shortcut: self.global_shortcut.clone(),
            interface: InterfaceConfig {
                ui_theme: self.interface.ui_theme.clone(),
                markdown_render_theme: self.interface.markdown_render_theme.clone(),
                md_render_code_theme: self.interface.md_render_code_theme.clone(),
                font_size: self.interface.font_size,
                editor_font_size: self.interface.editor_font_size,
            },
            editor: EditorConfig {
                mode: self.editor.mode.clone(),
                theme: self.editor.theme.clone(),
                tab_size: self.editor.tab_size,
            },
            shortcuts: ShortcutsConfig {
                create_note: self.shortcuts.create_note.clone(),
                rename_note: self.shortcuts.rename_note.clone(),
                delete_note: self.shortcuts.delete_note.clone(),
                edit_note: self.shortcuts.edit_note.clone(),
                save_and_exit: self.shortcuts.save_and_exit.clone(),
                open_external: self.shortcuts.open_external.clone(),
                open_folder: self.shortcuts.open_folder.clone(),
                refresh_cache: self.shortcuts.refresh_cache.clone(),
                scroll_up: self.shortcuts.scroll_up.clone(),
                scroll_down: self.shortcuts.scroll_down.clone(),
                up: self.shortcuts.up.clone(),
                down: self.shortcuts.down.clone(),
                navigate_previous: self.shortcuts.navigate_previous.clone(),
                navigate_next: self.shortcuts.navigate_next.clone(),
                navigate_code_previous: self.shortcuts.navigate_code_previous.clone(),
                navigate_code_next: self.shortcuts.navigate_code_next.clone(),
                navigate_link_previous: self.shortcuts.navigate_link_previous.clone(),
                navigate_link_next: self.shortcuts.navigate_link_next.clone(),
                copy_current_section: self.shortcuts.copy_current_section.clone(),
                open_settings: self.shortcuts.open_settings.clone(),
                version_explorer: self.shortcuts.version_explorer.clone(),
                recently_deleted: self.shortcuts.recently_deleted.clone(),
            },
            preferences: PreferencesConfig {
                max_search_results: self.preferences.max_search_results,
            },
        };
        proof {
            assert(r@ =~~= self@);
        }
        r
    }
}

// ---------------------------------------------------------------------------
// Default accessors used by the surrounding application
// ---------------------------------------------------------------------------

/// Default upper bound on search results returned by queries.
pub fn default_max_results() -> (r: usize)
    ensures
        r as int == default_preferences_view().max_search_results,
{
    100
}

/// Default key combo that summons the application from anywhere.
pub fn default_global_shortcut() -> (r: String)
    ensures
        r@ == default_config_view().global_shortcut,
{
    "Ctrl+Shift+N".to_owned()
}

/// Whether the main window is decorated by default.
pub fn default_window_decorations() -> (r: bool)
    ensures
        r == true,
{
    true
}

// ---------------------------------------------------------------------------
// Equality
// ---------------------------------------------------------------------------

impl PartialEq for InterfaceConfig {
    fn eq(&self, o: &InterfaceConfig) -> (r: bool) {
        let r = self.ui_theme == o.ui_theme && self.markdown_render_theme
            == o.markdown_render_theme && self.md_render_code_theme == o.md_render_code_theme
            && self.font_size == o.font_size && self.editor_font_size == o.editor_font_size;
        proof {
            if r {
                assert(self@ =~= o@);
            }
        }
        r
    }
}

impl vstd::std_specs::cmp::PartialEqSpecImpl for InterfaceConfig {
    open spec fn obeys_eq_spec() -> bool {
        true
    }

    open spec fn eq_spec(&self, o: &InterfaceConfig) -> bool {
        self@ == o@
    }
}

impl vstd::std_specs::cmp::PartialEqSpecImpl for EditorConfig {
    open spec fn obeys_eq_spec() -> bool {
        true
    }

    open spec fn eq_spec(&self, o: &EditorConfig) -> bool {
        self@ == o@
    }
}

impl PartialEq for EditorConfig {
    fn eq(&self, o: &EditorConfig) -> (r: bool) {
        let r = self.mode == o.mode && self.theme == o.theme && self.tab_size == o.tab_size;
        proof {
            if r {
                assert(self@ =~= o@);
            }
        }
        r
    }
}

impl vstd::std_specs::cmp::PartialEqSpecImpl for ShortcutsConfig {
    open spec fn obeys_eq_spec() -> bool {
        true
    }

    open spec fn eq_spec(&self, o: &ShortcutsConfig) -> bool {
        self@ == o@
    }
}

impl PartialEq for ShortcutsConfig {
    fn eq(&self, o: &ShortcutsConfig) -> (r: bool) {
        let r = self.create_note == o.create_note && self.rename_note == o.rename_note
            && self.delete_note == o.delete_note && self.edit_note == o.edit_note
            && self.save_and_exit == o.save_and_exit && self.open_external == o.open_external
            && self.open_folder == o.open_folder && self.refresh_cache == o.refresh_cache
            && self.scroll_up == o.scroll_up && self.scroll_down == o.scroll_down
            && self.up == o.up && self.down == o.down && self.navigate_previous
            == o.navigate_previous && self.navigate_next == o.navigate_next
            && self.navigate_code_previous == o.navigate_code_previous
            && self.navigate_code_next == o.navigate_code_next && self.navigate_link_previous
            == o.navigate_link_previous && self.navigate_link_next == o.navigate_link_next
            && self.copy_current_section == o.copy_current_section && self.open_settings
            == o.open_settings && self.version_explorer == o.version_explorer
            && self.recently_deleted == o.recently_deleted;
        proof {
            if r {
                assert(self@ =~= o@);
            }
        }
        r
    }
}

impl vstd::std_specs::cmp::PartialEqSpecImpl for PreferencesConfig {
    open spec fn obeys_eq_spec() -> bool {
        true
    }

    open spec fn eq_spec(&self, o: &PreferencesConfig) -> bool {
        self@ == o@
    }
}

impl PartialEq for PreferencesConfig {
    fn eq(&self, o: &PreferencesConfig) -> (r: bool) {
        let r = self.max_search_results == o.max_search_results;
        proof {
            if r {
                assert(self@ =~= o@);
            }
        }
        r
    }
}

impl vstd::std_specs::cmp::PartialEqSpecImpl for AppConfig {
    open spec fn obeys_eq_spec() -> bool {
        true
    }

    open spec fn eq_spec(&self, o: &AppConfig) -> bool {
        self@ == o@
    }
}

impl PartialEq for AppConfig {
    fn eq(&self, o: &AppConfig) -> (r: bool) {
        let r = self.notes_directory == o.notes_directory && self.global_shortcut
            == o.global_shortcut && self.interface == o.interface && self.editor == o.editor
            && self.shortcuts == o.shortcuts && self.preferences == o.preferences;
        proof {
            if r {
                assert(self@ =~= o@);
            }
        }
        r
    }
}

} // verus!
