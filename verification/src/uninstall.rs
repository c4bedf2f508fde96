//! The uninstall orchestrator's decisions: what an invocation does with
//! the unused set, what it asks the user, and which dependencies end up
//! as removal targets. The caller performs the prompts and child-process
//! calls and feeds the answers back.

use vstd::prelude::*;

use crate::names::{trim_str, trimmed};
use crate::package_manager::spec_uninstall_verb;
use crate::package_manager::uninstall_verb;
use crate::text::chars_of;

verus! {

pub open spec fn is_ascii_letter(c: char) -> bool {
    ('a' as u32 <= c as u32 && c as u32 <= 'z' as u32) || ('A' as u32 <= c as u32 && c as u32
        <= 'Z' as u32)
}

/// Two characters equal up to ASCII letter case.
pub open spec fn eq_ignore_ascii_case(x: char, y: char) -> bool {
    x == y || (is_ascii_letter(x) && is_ascii_letter(y) && (x as u32 + 32 == y as u32 || y as u32
        + 32 == x as u32))
}

fn char_eq_nocase(x: char, y: char) -> (b: bool)
    ensures
        b == eq_ignore_ascii_case(x, y),
{
    let xu = x as u32;
    let yu = y as u32;
    let x_letter = ('a' as u32 <= xu && xu <= 'z' as u32) || ('A' as u32 <= xu && xu <= 'Z'
        as u32);
    let y_letter = ('a' as u32 <= yu && yu <= 'z' as u32) || ('A' as u32 <= yu && yu <= 'Z'
        as u32);
    x == y || (x_letter && y_letter && (xu + 32 == yu || yu + 32 == xu))
}

/// Whether a typed confirmation answer is affirmative: `y` or `yes` after
/// trimming, compared without regard to ASCII letter case.
pub open spec fn is_affirmative(answer: Seq<char>) -> bool {
    let t = trimmed(answer);
    (t.len() == 1 && eq_ignore_ascii_case(t[0], 'y')) || (t.len() == 3 && eq_ignore_ascii_case(
        t[0],
        'y',
    ) && eq_ignore_ascii_case(t[1], 'e') && eq_ignore_ascii_case(t[2], 's'))
}

/// Reads a yes/no answer: only a trimmed `y` or `yes`, in any letter
/// case, confirms.
pub fn affirmative_answer(answer: &str) -> (b: bool)
    ensures
        b == is_affirmative(answer@),
{
    let t = trim_str(answer);
    let cs = chars_of(t.as_str());
    if cs.len() == 1 {
        char_eq_nocase(cs[0], 'y')
    } else if cs.len() == 3 {
        char_eq_nocase(cs[0], 'y') && char_eq_nocase(cs[1], 'e') && char_eq_nocase(cs[2], 's')
    } else {
        false
    }
}

/// The names at the selected positions, in selection order; a position
/// outside the list selects nothing.
pub open spec fn spec_selected_names(items: Seq<Seq<char>>, indices: Seq<usize>) -> Seq<Seq<char>>
    decreases indices.len(),
{
    if indices.len() == 0 {
        Seq::empty()
    } else {
        let rest = spec_selected_names(items, indices.drop_first());
        if (indices[0] as int) < items.len() {
            seq![items[indices[0] as int]] + rest
        } else {
            rest
        }
    }
}

/// The subset of the items a multi-select prompt's index answer picks,
/// in the order the answer lists them.
pub fn select_by_indices(items: &Vec<String>, indices: &Vec<usize>) -> (r: Vec<String>)
    ensures
        r.deep_view() == spec_selected_names(items.deep_view(), indices@),
{
    let n = indices.len();
    let ghost its = items.deep_view();
    let ghost idx = indices@;
    let mut out: Vec<String> = Vec::new();
    let mut i: usize = 0;
    proof {
        assert(out.deep_view() + spec_selected_names(its, idx) =~= spec_selected_names(its, idx));
        assert(idx.skip(0) =~= idx);
    }
    while i < n
        invariant
            i <= n,
            n == indices@.len(),
            its == items.deep_view(),
            idx == indices@,
            spec_selected_names(its, idx) == out.deep_view() + spec_selected_names(
                its,
                idx.skip(i as int),
            ),
        decreases n - i,
    {
        let ghost before = out.deep_view();
        proof {
            assert(idx.skip(i as int).drop_first() =~= idx.skip(i + 1));
            assert(idx.skip(i as int)[0] == idx[i as int]);
        }
        if indices[i] < items.len() {
            out.push(items[indices[i]].clone());
            proof {
                assert(out.deep_view() =~= before.push(its[idx[i as int] as int]));
                assert(before + spec_selected_names(its, idx.skip(i as int)) =~= out.deep_view()
                    + spec_selected_names(its, idx.skip(i + 1)));
            }
        } else {
            proof {
                assert(before + spec_selected_names(its, idx.skip(i as int)) =~= out.deep_view()
                    + spec_selected_names(its, idx.skip(i + 1)));
            }
        }
        i = i + 1;
    }
    proof {
        assert(spec_selected_names(its, idx.skip(n as int)) =~= Seq::<Seq<char>>::empty());
        assert(out.deep_view() =~= spec_selected_names(its, idx));
    }
    out
}

/// What the orchestrator does with the unused set: list it without any
/// change (dry run), put each name to the user in a multi-select prompt,
/// ask once for confirmation of the whole set, or, with no mode chosen,
/// only tell the user which flags to pass.
pub enum UninstallAction {
    ListOnly(Vec<String>),
    PromptSelect(Vec<String>),
    PromptConfirmAll(Vec<String>),
    Inform,
}

fn copy_names(v: &Vec<String>) -> (r: Vec<String>)
    ensures
        r.deep_view() == v.deep_view(),
{
    let n = v.len();
    let mut r: Vec<String> = Vec::new();
    let mut i: usize = 0;
    while i < n
        invariant
            i <= n,
            n == v@.len(),
            r.deep_view() == v.deep_view().take(i as int),
        decreases n - i,
    {
        let ghost before = r.deep_view();
        r.push(v[i].clone());
        proof {
            assert(r.deep_view() =~= before.push(v.deep_view()[i as int]));
            assert(r.deep_view() =~= v.deep_view().take(i + 1));
        }
        i = i + 1;
    }
    proof {
        assert(v.deep_view().take(n as int) =~= v.deep_view());
    }
    r
}

/// The mode of one invocation over the unused set, the three flags being
/// mutually exclusive: a dry run lists only, interactive selects per
/// name, all confirms once for the whole set, and without any flag the
/// user is only told which flags to pass.
pub fn plan_uninstall(unused: &Vec<String>, dry_run: bool, interactive: bool, all: bool) -> (a:
    UninstallAction)
    ensures
        dry_run ==> a is ListOnly && a->ListOnly_0.deep_view() == unused.deep_view(),
        !dry_run && interactive ==> a is PromptSelect && a->PromptSelect_0.deep_view()
            == unused.deep_view(),
        !dry_run && !interactive && all ==> a is PromptConfirmAll
            && a->PromptConfirmAll_0.deep_view() == unused.deep_view(),
        !dry_run && !interactive && !all ==> a is Inform,
{
    if dry_run {
        UninstallAction::ListOnly(copy_names(unused))
    } else if interactive {
        UninstallAction::PromptSelect(copy_names(unused))
    } else if all {
        UninstallAction::PromptConfirmAll(copy_names(unused))
    } else {
        UninstallAction::Inform
    }
}

/// The dependencies an action removes, given the user's answers: nothing
/// for a listing, the user's selection for a multi-select prompt, and the
/// whole set or nothing for a yes/no confirmation.
pub open spec fn spec_removal_targets(
    a: UninstallAction,
    confirmed: bool,
    selected: Seq<Seq<char>>,
) -> Seq<Seq<char>> {
    match a {
        UninstallAction::ListOnly(_) => Seq::empty(),
        UninstallAction::PromptSelect(_) => selected,
        UninstallAction::PromptConfirmAll(items) => if confirmed {
            items.deep_view()
        } else {
            Seq::empty()
        },
        UninstallAction::Inform => Seq::empty(),
    }
}

pub fn removal_targets(a: &UninstallAction, confirmed: bool, selected: &Vec<String>) -> (r: Vec<
    String,
>)
    ensures
        r.deep_view() == spec_removal_targets(*a, confirmed, selected.deep_view()),
{
    match a {
        UninstallAction::ListOnly(_) => {
            let r: Vec<String> = Vec::new();
            proof {
                assert(r.deep_view() =~= Seq::<Seq<char>>::empty());
            }
            r
        },
        UninstallAction::PromptSelect(_) => copy_names(selected),
        UninstallAction::PromptConfirmAll(items) => {
            if confirmed {
                copy_names(items)
            } else {
                let r: Vec<String> = Vec::new();
                proof {
                    assert(r.deep_view() =~= Seq::<Seq<char>>::empty());
                }
                r
            }
        },
        UninstallAction::Inform => {
            let r: Vec<String> = Vec::new();
            proof {
                assert(r.deep_view() =~= Seq::<Seq<char>>::empty());
            }
            r
        },
    }
}

/// A dry run never removes anything: whatever the unused set holds and
/// whatever the user would have answered or selected, the dry-run plan
/// yields no removal targets, so no uninstall command is built and the
/// manifest is never rewritten.
pub proof fn lemma_dry_run_removes_nothing(
    a: UninstallAction,
    confirmed: bool,
    selected: Seq<Seq<char>>,
)
    requires
        a is ListOnly,
    ensures
        spec_removal_targets(a, confirmed, selected) == Seq::<Seq<char>>::empty(),
{
}

/// One removal: the manager to invoke, its removal subcommand, and the
/// dependency to hand it.
pub struct RemovalCommand {
    pub program: String,
    pub verb: String,
    pub package: String,
}

/// The command that removes one dependency, or nothing for an
/// unrecognized package manager (reported as a failure for that
/// dependency alone).
pub fn removal_command(manager: &str, package: &str) -> (r: Option<RemovalCommand>)
    ensures
        match (r, spec_uninstall_verb(manager@)) {
            (Some(c), Some(v)) => c.program@ == manager@ && c.verb@ == v && c.package@ == package@,
            (None, None) => true,
            _ => false,
        },
{
    match uninstall_verb(manager) {
        Some(verb) => Some(
            RemovalCommand { program: manager.to_owned(), verb, package: package.to_owned() },
        ),
        None => None,
    }
}

} // verus!
