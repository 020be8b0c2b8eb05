use vstd::prelude::*;

verus! {

/// Identity of one of the per-action shortcut fields. The sanitizer corrects
/// all of them through one generic routine, parameterized by this identity, so
/// the same policy applies to every shortcut field.
#[derive(Clone, Copy, Debug, PartialEq, Eq, Structural)]
pub enum ShortcutField {
    CreateNote,
    RenameNote,
    DeleteNote,
    EditNote,
    SaveAndExit,
    OpenExternal,
    OpenFolder,
    RefreshCache,
    ScrollUp,
    ScrollDown,
    Up,
    Down,
    NavigatePrevious,
    NavigateNext,
    NavigateCodePrevious,
    NavigateCodeNext,
    NavigateLinkPrevious,
    NavigateLinkNext,
    CopyCurrentSection,
    OpenSettings,
    VersionExplorer,
    RecentlyDeleted,
}

/// Identity of a governed configuration field. Each correction the sanitizer
/// makes is reported as one event naming the corrected field; the surrounding
/// application turns these events into log lines for its sink.
#[derive(Clone, Copy, Debug, PartialEq, Eq, Structural)]
pub enum ConfigField {
    NotesDirectory,
    GlobalShortcut,
    UiTheme,
    MarkdownRenderTheme,
    MdRenderCodeTheme,
    FontSize,
    EditorFontSize,
    EditorMode,
    EditorTheme,
    TabSize,
    Shortcut(ShortcutField),
    MaxSearchResults,
}

} // verus!
