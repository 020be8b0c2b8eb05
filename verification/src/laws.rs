use vstd::prelude::*;
use crate::sanitize::{config_corrections, config_ok, fix_config};
use crate::schema::{ConfigView, default_config_view};
use crate::validation::{
    basic_shortcut_ok, lemma_default_global_shortcut_ok, notes_directory_ok, traversal_at,
};

verus! {

/// The default configuration satisfies every invariant: each catalog-bound
/// field is a member of its catalog, each number lies in its range, the
/// default path is safe and the default combos meet their grammars.
pub proof fn lemma_default_config_valid()
    ensures
        config_ok(default_config_view()),
{
    let d = default_config_view();
    assert(notes_directory_ok(d.notes_directory)) by {
        reveal_strlit("notes");
        let s = "notes"@;
        assert(s.len() == 5);
        assert forall|i: int| !traversal_at(s, i) by {
            if 0 < i < 5 {
                assert(s[i] != '.');
            }
        }
        assert forall|i: int| 0 <= i < s.len() implies crate::validation::path_char_ok(
            #[trigger] s[i],
        ) by {
            assert(s[i] != '<' && s[i] != '>' && s[i] != '"' && s[i] != '|' && s[i] != '?'
                && s[i] != '*');
        }
    }
    lemma_default_global_shortcut_ok();
    assert(basic_shortcut_ok(d.shortcuts.create_note)) by {
        reveal_strlit("Ctrl+N");
    }
    assert(basic_shortcut_ok(d.shortcuts.rename_note)) by {
        reveal_strlit("F2");
    }
    assert(basic_shortcut_ok(d.shortcuts.delete_note)) by {
        reveal_strlit("Ctrl+D");
    }
    assert(basic_shortcut_ok(d.shortcuts.edit_note)) by {
        reveal_strlit("Enter");
    }
    assert(basic_shortcut_ok(d.shortcuts.save_and_exit)) by {
        reveal_strlit("Ctrl+S");
    }
    assert(basic_shortcut_ok(d.shortcuts.open_external)) by {
        reveal_strlit("Ctrl+O");
    }
    assert(basic_shortcut_ok(d.shortcuts.open_folder)) by {
        reveal_strlit("Ctrl+F");
    }
    assert(basic_shortcut_ok(d.shortcuts.refresh_cache)) by {
        reveal_strlit("F5");
    }
    assert(basic_shortcut_ok(d.shortcuts.scroll_up)) by {
        reveal_strlit("Ctrl+Up");
    }
    assert(basic_shortcut_ok(d.shortcuts.scroll_down)) by {
        reveal_strlit("Ctrl+Down");
    }
    assert(basic_shortcut_ok(d.shortcuts.up)) by {
        reveal_strlit("Up");
    }
    assert(basic_shortcut_ok(d.shortcuts.down)) by {
        reveal_strlit("Down");
    }
    assert(basic_shortcut_ok(d.shortcuts.navigate_previous)) by {
        reveal_strlit("Ctrl+K");
    }
    assert(basic_shortcut_ok(d.shortcuts.navigate_next)) by {
        reveal_strlit("Ctrl+J");
    }
    assert(basic_shortcut_ok(d.shortcuts.navigate_code_previous)) by {
        reveal_strlit("Alt+K");
    }
    assert(basic_shortcut_ok(d.shortcuts.navigate_code_next)) by {
        reveal_strlit("Alt+J");
    }
    assert(basic_shortcut_ok(d.shortcuts.navigate_link_previous)) by {
        reveal_strlit("Alt+P");
    }
    assert(basic_shortcut_ok(d.shortcuts.navigate_link_next)) by {
        reveal_strlit("Alt+N");
    }
    assert(basic_shortcut_ok(d.shortcuts.copy_current_section)) by {
        reveal_strlit("Ctrl+C");
    }
    assert(basic_shortcut_ok(d.shortcuts.open_settings)) by {
        reveal_strlit("Ctrl+Comma");
    }
    assert(basic_shortcut_ok(d.shortcuts.version_explorer)) by {
        reveal_strlit("Ctrl+H");
    }
    assert(basic_shortcut_ok(d.shortcuts.recently_deleted)) by {
        reveal_strlit("Ctrl+R");
    }
}

/// Per-field totality: whatever value every governed field holds, the
/// corrected configuration satisfies every invariant — each resulting field
/// is a catalog or range member.
pub proof fn lemma_sanitize_total(c: ConfigView)
    ensures
        config_ok(fix_config(c)),
{
    lemma_default_config_valid();
}

/// A configuration that already satisfies every invariant is left unchanged
/// by correction.
pub proof fn lemma_sanitize_fixed_on_valid(c: ConfigView)
    requires
        config_ok(c),
    ensures
        fix_config(c) == c,
{
    assert(fix_config(c) =~~= c);
}

/// Idempotence: correcting a configuration twice yields the same result as
/// correcting it once, for every configuration.
pub proof fn lemma_sanitize_idempotent(c: ConfigView)
    ensures
        fix_config(fix_config(c)) == fix_config(c),
{
    lemma_sanitize_total(c);
    lemma_sanitize_fixed_on_valid(fix_config(c));
}

/// Fixed point: the default configuration is unchanged by correction, and
/// correcting it reports no events.
pub proof fn lemma_default_fixed_point()
    ensures
        fix_config(default_config_view()) == default_config_view(),
        config_corrections(default_config_view()) == Seq::<crate::fields::ConfigField>::empty(),
{
    lemma_default_config_valid();
    lemma_sanitize_fixed_on_valid(default_config_view());
    assert(config_corrections(default_config_view()) =~= Seq::<
        crate::fields::ConfigField,
    >::empty());
}

/// A valid configuration produces no correction events.
pub proof fn lemma_no_corrections_when_valid(c: ConfigView)
    requires
        config_ok(c),
    ensures
        config_corrections(c) == Seq::<crate::fields::ConfigField>::empty(),
{
    assert(config_corrections(c) =~= Seq::<crate::fields::ConfigField>::empty());
}

/// Independent correction: each part of the configuration is corrected from
/// that part alone, so corrupting one field never changes how another is
/// corrected.
pub proof fn lemma_independent_correction(c: ConfigView, d: ConfigView)
    ensures
        c.notes_directory == d.notes_directory ==> fix_config(c).notes_directory == fix_config(
            d,
        ).notes_directory,
        c.global_shortcut == d.global_shortcut ==> fix_config(c).global_shortcut == fix_config(
            d,
        ).global_shortcut,
        c.interface == d.interface ==> fix_config(c).interface == fix_config(d).interface,
        c.editor == d.editor ==> fix_config(c).editor == fix_config(d).editor,
        c.shortcuts == d.shortcuts ==> fix_config(c).shortcuts == fix_config(d).shortcuts,
        c.preferences == d.preferences ==> fix_config(c).preferences == fix_config(d).preferences,
{
}

} // verus!
