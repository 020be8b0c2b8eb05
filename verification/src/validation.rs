use vstd::prelude::*;
use vstd::string::StrSliceExecFns;
use crate::chars::{lower, lower_char};

verus! {

// ---------------------------------------------------------------------------
// Domains of the governed scalar fields
// ---------------------------------------------------------------------------

/// Inclusive bounds of the two font-size fields.
pub open spec fn font_size_ok(n: int) -> bool {
    8 <= n <= 72
}

/// Inclusive bounds of the editor's tab size.
pub open spec fn tab_size_ok(n: int) -> bool {
    1 <= n <= 16
}

/// Inclusive bounds of the search-result cap.
pub open spec fn max_results_ok(n: int) -> bool {
    1 <= n <= 10000
}

// ---------------------------------------------------------------------------
// Notes-directory paths
// ---------------------------------------------------------------------------

/// Characters that may appear in a notes-directory path.
pub open spec fn path_char_ok(c: char) -> bool {
    c != '<' && c != '>' && c != '"' && c != '|' && c != '?' && c != '*'
}

/// A parent-directory traversal sequence sits at position `i` of `s`.
pub open spec fn traversal_at(s: Seq<char>, i: int) -> bool {
    0 < i < s.len() && s[i] == '.' && s[i - 1] == '.'
}

/// A parent-directory traversal sequence occurs somewhere in `s`.
pub open spec fn has_traversal(s: Seq<char>) -> bool {
    exists|i: int| #[trigger] traversal_at(s, i)
}

/// The notes-directory domain: non-empty, bounded, no traversal sequence, no
/// leading dot, and only path-legal characters.
pub open spec fn notes_directory_ok(s: Seq<char>) -> bool {
    &&& 0 < s.len() <= 1024
    &&& s[0] != '.'
    &&& !has_traversal(s)
    &&& forall|i: int| 0 <= i < s.len() ==> path_char_ok(#[trigger] s[i])
}

// ---------------------------------------------------------------------------
// Note names
// ---------------------------------------------------------------------------

/// Characters that may appear in a note name: path-legal, and no separators
/// or drive markers.
pub open spec fn note_char_ok(c: char) -> bool {
    path_char_ok(c) && c != '/' && c != '\\' && c != ':'
}

/// The note-name domain.
pub open spec fn note_name_ok(s: Seq<char>) -> bool {
    &&& 0 < s.len() <= 255
    &&& s[0] != '.'
    &&& !has_traversal(s)
    &&& forall|i: int| 0 <= i < s.len() ==> note_char_ok(#[trigger] s[i])
}

/// The rejection reason reported for an invalid note name. The fixed texts
/// never embed the offending value, so an oversized or sensitive input cannot
/// leak into logs or the UI through them.
pub open spec fn note_name_rejection(s: Seq<char>) -> Seq<char> {
    if s.len() == 0 {
        "Note name cannot be empty"@
    } else if has_traversal(s) {
        "Path traversal not allowed"@
    } else if s[0] == '.' {
        "Note name cannot start with a dot"@
    } else if s.len() > 255 {
        "Note name too long"@
    } else {
        "Invalid note name: illegal character"@
    }
}

// ---------------------------------------------------------------------------
// Shortcut grammar
// ---------------------------------------------------------------------------

/// The loose shortcut grammar shared by all key combos: a non-empty sequence
/// of non-empty segments joined by '+'. The per-action shortcuts are held
/// only to this.
pub open spec fn basic_shortcut_ok(s: Seq<char>) -> bool {
    &&& 0 < s.len()
    &&& s[0] != '+'
    &&& s[s.len() - 1] != '+'
    &&& forall|i: int| 0 < i < s.len() ==> !(s[i - 1] == '+' && (#[trigger] s[i]) == '+')
}

/// Segment `[i + k]` for `k < w.len()` spells `w`, ignoring ASCII case; `j`
/// is the exclusive end of the segment.
pub open spec fn seg_eq_ci(s: Seq<char>, i: int, j: int, w: Seq<char>) -> bool {
    j - i == w.len() && forall|k: int| 0 <= k < w.len() ==> lower(s[i + k]) == #[trigger] w[k]
}

/// The segment `[i, j)` names a modifier key, ignoring ASCII case.
pub open spec fn seg_is_modifier(s: Seq<char>, i: int, j: int) -> bool {
    ||| seg_eq_ci(s, i, j, "ctrl"@)
    ||| seg_eq_ci(s, i, j, "cmd"@)
    ||| seg_eq_ci(s, i, j, "alt"@)
    ||| seg_eq_ci(s, i, j, "shift"@)
    ||| seg_eq_ci(s, i, j, "super"@)
    ||| seg_eq_ci(s, i, j, "option"@)
    ||| seg_eq_ci(s, i, j, "meta"@)
}

/// `[i, j)` is a maximal '+'-free run that ends at a separator: one of the
/// leading segments of the combo, each of which must name a modifier.
pub open spec fn mod_segment(s: Seq<char>, i: int, j: int) -> bool {
    &&& 0 <= i < j < s.len()
    &&& s[j] == '+'
    &&& i == 0 || s[i - 1] == '+'
    &&& forall|k: int| i <= k < j ==> #[trigger] s[k] != '+'
}

/// `[i, s.len())` is the final, '+'-free segment of the combo: the key that
/// terminates it.
pub open spec fn key_segment(s: Seq<char>, i: int) -> bool {
    &&& 0 <= i < s.len()
    &&& i == 0 || s[i - 1] == '+'
    &&& forall|k: int| i <= k < s.len() ==> #[trigger] s[k] != '+'
}

/// The strict shortcut grammar used for the global shortcut: the loose
/// grammar, every segment before a separator names a modifier key, and the
/// combo is terminated by one non-modifier key.
pub open spec fn shortcut_ok(s: Seq<char>) -> bool {
    &&& basic_shortcut_ok(s)
    &&& forall|i: int, j: int| #[trigger] mod_segment(s, i, j) ==> seg_is_modifier(s, i, j)
    &&& forall|i: int| #[trigger] key_segment(s, i) ==> !seg_is_modifier(s, i, s.len() as int)
}

// ---------------------------------------------------------------------------
// Executable validators
// ---------------------------------------------------------------------------

/// Why a candidate value was rejected by a validator.
#[derive(Clone, Copy, Debug, PartialEq, Eq, Structural)]
pub enum Rejection {
    EmptyValue,
    PathTraversal,
    LeadingDot,
    TooLong,
    IllegalCharacter,
    MalformedShortcut,
}

/// The rejection reported for an invalid notes directory.
pub open spec fn notes_directory_rejection(s: Seq<char>) -> Rejection {
    if s.len() == 0 {
        Rejection::EmptyValue
    } else if s.len() > 1024 {
        Rejection::TooLong
    } else if s[0] == '.' {
        Rejection::LeadingDot
    } else if has_traversal(s) {
        Rejection::PathTraversal
    } else {
        Rejection::IllegalCharacter
    }
}

/// Checks a notes-directory path against its domain; never transforms the
/// value on acceptance.
pub fn validate_notes_directory(s: &str) -> (r: Result<(), Rejection>)
    ensures
        r is Ok <==> notes_directory_ok(s@),
        r is Err ==> r->Err_0 == notes_directory_rejection(s@),
{
    let n = s.unicode_len();
    if n == 0 {
        return Err(Rejection::EmptyValue);
    }
    if n > 1024 {
        return Err(Rejection::TooLong);
    }
    if s.get_char(0) == '.' {
        return Err(Rejection::LeadingDot);
    }
    let mut i: usize = 1;
    while i < n
        invariant
            n == s@.len(),
            0 < n <= 1024,
            s@[0] != '.',
            1 <= i <= n,
            forall|k: int| 0 < k < i ==> !traversal_at(s@, k),
        decreases n - i,
    {
        if s.get_char(i) == '.' && s.get_char(i - 1) == '.' {
            proof {
                assert(traversal_at(s@, i as int));
            }
            return Err(Rejection::PathTraversal);
        }
        i += 1;
    }
    assert(!has_traversal(s@));
    let mut i: usize = 0;
    while i < n
        invariant
            n == s@.len(),
            0 < n <= 1024,
            s@[0] != '.',
            !has_traversal(s@),
            0 <= i <= n,
            forall|k: int| 0 <= k < i ==> path_char_ok(#[trigger] s@[k]),
        decreases n - i,
    {
        let c = s.get_char(i);
        if c == '<' || c == '>' || c == '"' || c == '|' || c == '?' || c == '*' {
            return Err(Rejection::IllegalCharacter);
        }
        i += 1;
    }
    Ok(())
}

/// Checks a note name against its domain. The rejection reason is a fixed,
/// human-readable message that never embeds the offending value, so oversized
/// or sensitive input cannot leak through it.
pub fn validate_note_name(name: &str) -> (r: Result<(), String>)
    ensures
        r is Ok <==> note_name_ok(name@),
        r is Err ==> r->Err_0@ == note_name_rejection(name@),
{
    let n = name.unicode_len();
    if n == 0 {
        return Err("Note name cannot be empty".to_owned());
    }
    let mut i: usize = 1;
    while i < n
        invariant
            n == name@.len(),
            0 < n,
            1 <= i <= n,
            forall|k: int| 0 < k < i ==> !traversal_at(name@, k),
        decreases n - i,
    {
        if name.get_char(i) == '.' && name.get_char(i - 1) == '.' {
            proof {
                assert(traversal_at(name@, i as int));
            }
            return Err("Path traversal not allowed".to_owned());
        }
        i += 1;
    }
    assert(!has_traversal(name@));
    if name.get_char(0) == '.' {
        return Err("Note name cannot start with a dot".to_owned());
    }
    if n > 255 {
        return Err("Note name too long".to_owned());
    }
    let mut i: usize = 0;
    while i < n
        invariant
            n == name@.len(),
            0 < n <= 255,
            name@[0] != '.',
            !has_traversal(name@),
            0 <= i <= n,
            forall|k: int| 0 <= k < i ==> note_char_ok(#[trigger] name@[k]),
        decreases n - i,
    {
        let c = name.get_char(i);
        if c == '<' || c == '>' || c == '"' || c == '|' || c == '?' || c == '*' || c == '/'
            || c == '\\' || c == ':' {
            return Err("Invalid note name: illegal character".to_owned());
        }
        i += 1;
    }
    Ok(())
}

/// Rejection of a font size, carrying the offending value, the violated
/// bounds, and the caller-supplied label for the field.
pub struct FontSizeError {
    pub label: String,
    pub value: u32,
    pub min: u32,
    pub max: u32,
}

impl FontSizeError {
    /// A human-readable message naming the labelled field and its bounds.
    pub fn message(&self) -> (m: String)
        ensures
            m@ == self.label@ + " must be between 8 and 72"@,
    {
        let mut m = self.label.clone();
        m.append(" must be between 8 and 72");
        m
    }
}

/// Checks a font size against the fixed inclusive range; the label only
/// serves to make the eventual error text specific to the field.
pub fn validate_font_size(size: u32, label: &str) -> (r: Result<(), FontSizeError>)
    ensures
        r is Ok <==> font_size_ok(size as int),
        r is Err ==> (r->Err_0.label@ == label@ && r->Err_0.value == size && r->Err_0.min == 8
            && r->Err_0.max == 72),
{
    if size < 8 || size > 72 {
        Err(FontSizeError { label: label.to_owned(), value: size, min: 8, max: 72 })
    } else {
        Ok(())
    }
}

/// Checks a key combo against the loose grammar: non-empty, bounded, and no
/// empty segment around a separator.
pub fn validate_basic_shortcut_format(s: &str) -> (r: Result<(), Rejection>)
    ensures
        r is Ok <==> basic_shortcut_ok(s@),
        r is Err ==> r->Err_0 == Rejection::MalformedShortcut,
{
    let n = s.unicode_len();
    if n == 0 {
        return Err(Rejection::MalformedShortcut);
    }
    if s.get_char(0) == '+' || s.get_char(n - 1) == '+' {
        return Err(Rejection::MalformedShortcut);
    }
    let mut i: usize = 1;
    while i < n
        invariant
            n == s@.len(),
            1 <= i <= n,
            forall|k: int| 0 < k < i ==> !(s@[k - 1] == '+' && (#[trigger] s@[k]) == '+'),
        decreases n - i,
    {
        if s.get_char(i) == '+' && s.get_char(i - 1) == '+' {
            return Err(Rejection::MalformedShortcut);
        }
        i += 1;
    }
    Ok(())
}

/// The characters of `s` from `start` to `end` spell `w` up to ASCII case.
fn seg_matches_ci(s: &str, start: usize, end: usize, w: &str) -> (r: bool)
    requires
        start <= end <= s@.len(),
    ensures
        r == seg_eq_ci(s@, start as int, end as int, w@),
{
    let wn = w.unicode_len();
    if end - start != wn {
        return false;
    }
    let mut k: usize = 0;
    while k < wn
        invariant
            wn == w@.len(),
            start + wn == end <= s@.len(),
            0 <= k <= wn,
            forall|t: int| 0 <= t < k ==> lower(s@[start + t]) == #[trigger] w@[t],
        decreases wn - k,
    {
        if lower_char(s.get_char(start + k)) != w.get_char(k) {
            return false;
        }
        k += 1;
    }
    true
}

/// The segment `[start, end)` of `s` names a modifier key, up to ASCII case.
fn is_modifier_segment(s: &str, start: usize, end: usize) -> (r: bool)
    requires
        start <= end <= s@.len(),
    ensures
        r == seg_is_modifier(s@, start as int, end as int),
{
    seg_matches_ci(s, start, end, "ctrl") || seg_matches_ci(s, start, end, "cmd")
        || seg_matches_ci(s, start, end, "alt") || seg_matches_ci(s, start, end, "shift")
        || seg_matches_ci(s, start, end, "super") || seg_matches_ci(s, start, end, "option")
        || seg_matches_ci(s, start, end, "meta")
}

/// Checks a key combo against the strict grammar: the loose grammar, every
/// segment before a separator names a modifier key, case-insensitively, and
/// the final segment does not.
pub fn validate_shortcut_format(s: &str) -> (r: Result<(), Rejection>)
    ensures
        r is Ok <==> shortcut_ok(s@),
        r is Err ==> r->Err_0 == Rejection::MalformedShortcut,
{
    if validate_basic_shortcut_format(s).is_err() {
        return Err(Rejection::MalformedShortcut);
    }
    let n = s.unicode_len();
    let mut seg_start: usize = 0;
    let mut i: usize = 0;
    while i < n
        invariant
            n == s@.len(),
            basic_shortcut_ok(s@),
            0 <= seg_start <= i <= n,
            seg_start == 0 || s@[seg_start as int - 1] == '+',
            forall|k: int| seg_start <= k < i ==> (#[trigger] s@[k]) != '+',
            forall|a: int, b: int| #[trigger] mod_segment(s@, a, b) && b < i ==> seg_is_modifier(
                s@,
                a,
                b,
            ),
        decreases n - i,
    {
        if s.get_char(i) == '+' {
            proof {
                // The separator cannot open the string or follow another
                // separator, so the current segment is non-empty.
                if seg_start == i {
                    if seg_start == 0 {
                        assert(s@[0] != '+');
                    } else {
                        assert(!(s@[seg_start as int - 1] == '+' && s@[seg_start as int] == '+'));
                    }
                }
            }
            if !is_modifier_segment(s, seg_start, i) {
                proof {
                    assert(mod_segment(s@, seg_start as int, i as int));
                }
                return Err(Rejection::MalformedShortcut);
            }
            proof {
                let gi = i as int;
                let gs = seg_start as int;
                assert forall|a: int, b: int| #[trigger] mod_segment(s@, a, b) && b < gi
                    + 1 implies seg_is_modifier(s@, a, b) by {
                    if b == gi {
                        // A segment ending here must start exactly at
                        // seg_start: anywhere earlier would cross the
                        // separator before seg_start, anywhere later would
                        // put a separator inside the current run.
                        if a < gs {
                            assert(s@[gs - 1] != '+');
                        } else if a > gs {
                            assert(s@[a - 1] == '+');
                        }
                        assert(a == gs);
                        assert(seg_is_modifier(s@, a, b));
                    }
                }
            }
            seg_start = i + 1;
        }
        i += 1;
    }
    proof {
        assert forall|a: int, b: int| #[trigger] mod_segment(s@, a, b) implies seg_is_modifier(
            s@,
            a,
            b,
        ) by {
            assert(b < n);
        }
        // The final run is non-empty: otherwise the combo would end in a
        // separator, which the loose grammar excludes.
        if seg_start == n {
            assert(s@[n as int - 1] == '+');
        }
    }
    if is_modifier_segment(s, seg_start, n) {
        proof {
            assert(key_segment(s@, seg_start as int));
        }
        return Err(Rejection::MalformedShortcut);
    }
    proof {
        let gs = seg_start as int;
        assert forall|a: int| #[trigger] key_segment(s@, a) implies !seg_is_modifier(
            s@,
            a,
            s@.len() as int,
        ) by {
            // The final segment starts exactly at seg_start: anywhere earlier
            // would cross the separator before seg_start, anywhere later
            // would put a separator inside the final run.
            if a < gs {
                assert(s@[gs - 1] != '+');
            } else if a > gs {
                assert(s@[a - 1] == '+');
            }
            assert(a == gs);
        }
    }
    Ok(())
}

/// The default global shortcut satisfies the strict grammar.
pub proof fn lemma_default_global_shortcut_ok()
    ensures
        shortcut_ok("Ctrl+Shift+N"@),
{
    reveal_strlit("Ctrl+Shift+N");
    reveal_strlit("ctrl");
    reveal_strlit("cmd");
    reveal_strlit("alt");
    reveal_strlit("shift");
    reveal_strlit("super");
    reveal_strlit("option");
    reveal_strlit("meta");
    let s = "Ctrl+Shift+N"@;
    assert(s.len() == 12);
    assert forall|i: int, j: int| #[trigger] mod_segment(s, i, j) implies seg_is_modifier(s, i, j) by {
        assert(s[i] != '+');
        if j == 4 {
            assert(i == 0) by {
                if i > 0 {
                    assert(s[i - 1] == '+');
                }
            }
            assert(seg_eq_ci(s, 0, 4, "ctrl"@)) by {
                assert(lower(s[0]) == 'c');
                assert(lower(s[1]) == 't');
                assert(lower(s[2]) == 'r');
                assert(lower(s[3]) == 'l');
            }
        } else if j == 10 {
            assert(i == 5) by {
                if i != 5 {
                    if i < 5 {
                        assert(s[4] != '+');
                    } else {
                        assert(s[i - 1] == '+');
                    }
                }
            }
            assert(seg_eq_ci(s, 5, 10, "shift"@)) by {
                assert(lower(s[5]) == 's');
                assert(lower(s[6]) == 'h');
                assert(lower(s[7]) == 'i');
                assert(lower(s[8]) == 'f');
                assert(lower(s[9]) == 't');
            }
        } else {
            assert(s[j] != '+');
        }
    }
    assert forall|i: int| #[trigger] key_segment(s, i) implies !seg_is_modifier(s, i, 12) by {
        if i < 11 {
            assert(s[10] == '+');
        }
        assert(i == 11);
        assert(!seg_is_modifier(s, 11, 12));
    }
}

} // verus!
