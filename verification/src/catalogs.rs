use vstd::prelude::*;
use crate::chars::str_eq;

verus! {

// ---------------------------------------------------------------------------
// Membership predicates: the closed domains of the catalog-bound fields
// ---------------------------------------------------------------------------

/// The closed set of UI themes.
pub open spec fn is_ui_theme(s: Seq<char>) -> bool {
    ||| s == "gruvbox-dark"@
    ||| s == "article"@
    ||| s == "modern-dark"@
}

/// The closed set of markdown render themes.
pub open spec fn is_markdown_theme(s: Seq<char>) -> bool {
    ||| s == "modern-dark"@
    ||| s == "article"@
    ||| s == "gruvbox-dark"@
}

/// The closed set of editor modes.
pub open spec fn is_editor_mode(s: Seq<char>) -> bool {
    ||| s == "basic"@
    ||| s == "vim"@
    ||| s == "emacs"@
}

/// The closed set of editor themes.
pub open spec fn is_editor_theme(s: Seq<char>) -> bool {
    ||| s == "abcdef"@
    ||| s == "abyss"@
    ||| s == "android-studio"@
    ||| s == "andromeda"@
    ||| s == "basic-dark"@
    ||| s == "basic-light"@
    ||| s == "forest"@
    ||| s == "github-dark"@
    ||| s == "github-light"@
    ||| s == "gruvbox-dark"@
    ||| s == "gruvbox-light"@
    ||| s == "material-dark"@
    ||| s == "material-light"@
    ||| s == "monokai"@
    ||| s == "nord"@
    ||| s == "palenight"@
    ||| s == "solarized-dark"@
    ||| s == "solarized-light"@
    ||| s == "tokyo-night-day"@
    ||| s == "tokyo-night-storm"@
    ||| s == "volcano"@
    ||| s == "vscode-dark"@
    ||| s == "vscode-light"@
}

/// The closed set of code-highlight themes for rendered markdown.
pub open spec fn is_code_theme(s: Seq<char>) -> bool {
    ||| s == "gruvbox-dark-hard"@
    ||| s == "gruvbox-dark-medium"@
    ||| s == "gruvbox-dark-soft"@
    ||| s == "gruvbox-light-hard"@
    ||| s == "gruvbox-light-medium"@
    ||| s == "atom-one-dark"@
    ||| s == "dracula"@
    ||| s == "nord"@
    ||| s == "monokai"@
    ||| s == "github-dark"@
    ||| s == "vs2015"@
    ||| s == "night-owl"@
    ||| s == "tokyo-night-dark"@
    ||| s == "atom-one-light"@
    ||| s == "github"@
    ||| s == "vs"@
    ||| s == "xcode"@
    ||| s == "tokyo-night-light"@
}

// ---------------------------------------------------------------------------
// Catalog listings
// ---------------------------------------------------------------------------

/// The ordered catalog of UI themes.
pub fn get_available_ui_themes() -> (r: Vec<&'static str>)
    ensures
        r@.len() == 3,
        r@[0]@ == "gruvbox-dark"@,
        r@[1]@ == "article"@,
        r@[2]@ == "modern-dark"@,
        forall|i: int| 0 <= i < r@.len() ==> is_ui_theme(#[trigger] r@[i]@),
{
    let mut v: Vec<&'static str> = Vec::new();
    v.push("gruvbox-dark");
    v.push("article");
    v.push("modern-dark");
    v
}

/// The ordered catalog of markdown render themes.
pub fn get_available_markdown_themes() -> (r: Vec<&'static str>)
    ensures
        r@.len() == 3,
        r@[0]@ == "modern-dark"@,
        r@[1]@ == "article"@,
        r@[2]@ == "gruvbox-dark"@,
        forall|i: int| 0 <= i < r@.len() ==> is_markdown_theme(#[trigger] r@[i]@),
{
    let mut v: Vec<&'static str> = Vec::new();
    v.push("modern-dark");
    v.push("article");
    v.push("gruvbox-dark");
    v
}

/// The ordered catalog of editor modes.
pub fn get_available_editor_modes() -> (r: Vec<&'static str>)
    ensures
        r@.len() == 3,
        r@[0]@ == "basic"@,
        r@[1]@ == "vim"@,
        r@[2]@ == "emacs"@,
        forall|i: int| 0 <= i < r@.len() ==> is_editor_mode(#[trigger] r@[i]@),
{
    let mut v: Vec<&'static str> = Vec::new();
    v.push("basic");
    v.push("vim");
    v.push("emacs");
    v
}

/// The ordered catalog of editor themes.
pub fn get_available_editor_themes() -> (r: Vec<&'static str>)
    ensures
        r@.len() == 23,
        r@[0]@ == "abcdef"@,
        r@[1]@ == "abyss"@,
        r@[2]@ == "android-studio"@,
        r@[3]@ == "andromeda"@,
        r@[4]@ == "basic-dark"@,
        r@[5]@ == "basic-light"@,
        r@[6]@ == "forest"@,
        r@[7]@ == "github-dark"@,
        r@[8]@ == "github-light"@,
        r@[9]@ == "gruvbox-dark"@,
        r@[10]@ == "gruvbox-light"@,
        r@[11]@ == "material-dark"@,
        r@[12]@ == "material-light"@,
        r@[13]@ == "monokai"@,
        r@[14]@ == "nord"@,
        r@[15]@ == "palenight"@,
        r@[16]@ == "solarized-dark"@,
        r@[17]@ == "solarized-light"@,
        r@[18]@ == "tokyo-night-day"@,
        r@[19]@ == "tokyo-night-storm"@,
        r@[20]@ == "volcano"@,
        r@[21]@ == "vscode-dark"@,
        r@[22]@ == "vscode-light"@,
        forall|i: int| 0 <= i < r@.len() ==> is_editor_theme(#[trigger] r@[i]@),
{
    let mut v: Vec<&'static str> = Vec::new();
    v.push("abcdef");
    v.push("abyss");
    v.push("android-studio");
    v.push("andromeda");
    v.push("basic-dark");
    v.push("basic-light");
    v.push("forest");
    v.push("github-dark");
    v.push("github-light");
    v.push("gruvbox-dark");
    v.push("gruvbox-light");
    v.push("material-dark");
    v.push("material-light");
    v.push("monokai");
    v.push("nord");
    v.push("palenight");
    v.push("solarized-dark");
    v.push("solarized-light");
    v.push("tokyo-night-day");
    v.push("tokyo-night-storm");
    v.push("volcano");
    v.push("vscode-dark");
    v.push("vscode-light");
    v
}

/// The ordered catalog of code-highlight themes.
pub fn get_available_code_themes() -> (r: Vec<&'static str>)
    ensures
        r@.len() == 18,
        r@[0]@ == "gruvbox-dark-hard"@,
        r@[1]@ == "gruvbox-dark-medium"@,
        r@[2]@ == "gruvbox-dark-soft"@,
        r@[3]@ == "gruvbox-light-hard"@,
        r@[4]@ == "gruvbox-light-medium"@,
        r@[5]@ == "atom-one-dark"@,
        r@[6]@ == "dracula"@,
        r@[7]@ == "nord"@,
        r@[8]@ == "monokai"@,
        r@[9]@ == "github-dark"@,
        r@[10]@ == "vs2015"@,
        r@[11]@ == "night-owl"@,
        r@[12]@ == "tokyo-night-dark"@,
        r@[13]@ == "atom-one-light"@,
        r@[14]@ == "github"@,
        r@[15]@ == "vs"@,
        r@[16]@ == "xcode"@,
        r@[17]@ == "tokyo-night-light"@,
        forall|i: int| 0 <= i < r@.len() ==> is_code_theme(#[trigger] r@[i]@),
{
    let mut v: Vec<&'static str> = Vec::new();
    v.push("gruvbox-dark-hard");
    v.push("gruvbox-dark-medium");
    v.push("gruvbox-dark-soft");
    v.push("gruvbox-light-hard");
    v.push("gruvbox-light-medium");
    v.push("atom-one-dark");
    v.push("dracula");
    v.push("nord");
    v.push("monokai");
    v.push("github-dark");
    v.push("vs2015");
    v.push("night-owl");
    v.push("tokyo-night-dark");
    v.push("atom-one-light");
    v.push("github");
    v.push("vs");
    v.push("xcode");
    v.push("tokyo-night-light");
    v
}

// ---------------------------------------------------------------------------
// Membership checks
// ---------------------------------------------------------------------------

/// `s` is a member of the UI theme catalog.
pub fn ui_theme_allowed(s: &str) -> (r: bool)
    ensures
        r == is_ui_theme(s@),
{
    str_eq(s, "gruvbox-dark") || str_eq(s, "article") || str_eq(s, "modern-dark")
}

/// `s` is a member of the markdown render theme catalog.
pub fn markdown_theme_allowed(s: &str) -> (r: bool)
    ensures
        r == is_markdown_theme(s@),
{
    str_eq(s, "modern-dark") || str_eq(s, "article") || str_eq(s, "gruvbox-dark")
}

/// `s` is a member of the editor mode catalog.
pub fn editor_mode_allowed(s: &str) -> (r: bool)
    ensures
        r == is_editor_mode(s@),
{
    str_eq(s, "basic") || str_eq(s, "vim") || str_eq(s, "emacs")
}

/// `s` is a member of the editor theme catalog.
pub fn editor_theme_allowed(s: &str) -> (r: bool)
    ensures
        r == is_editor_theme(s@),
{
    str_eq(s, "abcdef") || str_eq(s, "abyss") || str_eq(s, "android-studio")
        || str_eq(s, "andromeda") || str_eq(s, "basic-dark") || str_eq(s, "basic-light")
        || str_eq(s, "forest") || str_eq(s, "github-dark") || str_eq(s, "github-light")
        || str_eq(s, "gruvbox-dark") || str_eq(s, "gruvbox-light") || str_eq(s, "material-dark")
        || str_eq(s, "material-light") || str_eq(s, "monokai") || str_eq(s, "nord")
        || str_eq(s, "palenight") || str_eq(s, "solarized-dark") || str_eq(s, "solarized-light")
        || str_eq(s, "tokyo-night-day") || str_eq(s, "tokyo-night-storm") || str_eq(s, "volcano")
        || str_eq(s, "vscode-dark") || str_eq(s, "vscode-light")
}

/// `s` is a member of the code-highlight theme catalog.
pub fn code_theme_allowed(s: &str) -> (r: bool)
    ensures
        r == is_code_theme(s@),
{
    str_eq(s, "gruvbox-dark-hard") || str_eq(s, "gruvbox-dark-medium")
        || str_eq(s, "gruvbox-dark-soft") || str_eq(s, "gruvbox-light-hard")
        || str_eq(s, "gruvbox-light-medium") || str_eq(s, "atom-one-dark")
        || str_eq(s, "dracula") || str_eq(s, "nord") || str_eq(s, "monokai")
        || str_eq(s, "github-dark") || str_eq(s, "vs2015") || str_eq(s, "night-owl")
        || str_eq(s, "tokyo-night-dark") || str_eq(s, "atom-one-light") || str_eq(s, "github")
        || str_eq(s, "vs") || str_eq(s, "xcode") || str_eq(s, "tokyo-night-light")
}

} // verus!
