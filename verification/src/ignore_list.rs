//! The user-authored ignore list: one dependency name per line, with
//! blank lines and `#` comments (full-line or trailing) skipped.

use vstd::prelude::*;

use crate::names::trim_str;
use crate::names::trimmed;
use crate::sets::{dedup, dedup_names};
use crate::text::{find_char, index_of_char, spec_lines, split_lines};
use vstd::string::StrSliceExecFns;

verus! {

/// The name an ignore-list line contributes: the line with surrounding
/// spaces and any `#` comment removed, if anything is left.
pub open spec fn ignore_entry(line: Seq<char>) -> Option<Seq<char>> {
    let t = trimmed(line);
    let k = find_char(t, '#', 0);
    let before = if k >= 0 {
        t.subrange(0, k)
    } else {
        t
    };
    let name = trimmed(before);
    if name.len() > 0 {
        Some(name)
    } else {
        None
    }
}

pub open spec fn ignore_entries_from(lines: Seq<Seq<char>>, i: int) -> Seq<Seq<char>>
    decreases lines.len() - i,
{
    if i < 0 || i >= lines.len() {
        Seq::empty()
    } else {
        let rest = ignore_entries_from(lines, i + 1);
        match ignore_entry(lines[i]) {
            Some(n) => seq![n] + rest,
            None => rest,
        }
    }
}

/// The set of names an ignore file holds, in order of first appearance.
pub open spec fn ignore_names(content: Seq<char>) -> Seq<Seq<char>> {
    dedup_names(ignore_entries_from(spec_lines(content), 0))
}

fn ignore_entry_of_line(line: &str) -> (r: Option<String>)
    ensures
        match (r, ignore_entry(line@)) {
            (Some(a), Some(b)) => a@ == b,
            (None, None) => true,
            _ => false,
        },
{
    let t = trim_str(line);
    let tc = crate::text::chars_of(t.as_str());
    let before = match index_of_char(&tc, '#', 0) {
        Some(k) => t.as_str().substring_char(0, k).to_owned(),
        None => t.clone(),
    };
    let name = trim_str(before.as_str());
    if name.as_str().unicode_len() > 0 {
        Some(name)
    } else {
        None
    }
}

/// The dependency names listed by an ignore file's content: every
/// non-blank, non-comment line, trimmed and with trailing comments
/// stripped, deduplicated in order of first appearance.
pub fn parse_cnpignore(content: &str) -> (r: Vec<String>)
    ensures
        r.deep_view() == ignore_names(content@),
{
    let lines = split_lines(content);
    let n = lines.len();
    let ghost ls = lines.deep_view();
    let mut out: Vec<String> = Vec::new();
    let mut i: usize = 0;
    proof {
        assert(out.deep_view() + ignore_entries_from(ls, 0) =~= ignore_entries_from(ls, 0));
    }
    while i < n
        invariant
            i <= n,
            n == lines@.len(),
            ls == lines.deep_view(),
            ignore_entries_from(ls, 0) == out.deep_view() + ignore_entries_from(ls, i as int),
        decreases n - i,
    {
        let ghost before = out.deep_view();
        match ignore_entry_of_line(lines[i].as_str()) {
            Some(name) => {
                out.push(name);
                proof {
                    assert(out.deep_view() =~= before.push(ignore_entry(ls[i as int])->Some_0));
                    assert(before + ignore_entries_from(ls, i as int) =~= out.deep_view()
                        + ignore_entries_from(ls, i + 1));
                }
            },
            None => {
                proof {
                    assert(before + ignore_entries_from(ls, i as int) =~= out.deep_view()
                        + ignore_entries_from(ls, i + 1));
                }
            },
        }
        i = i + 1;
    }
    proof {
        assert(ignore_entries_from(ls, n as int) =~= Seq::<Seq<char>>::empty());
        assert(out.deep_view() =~= ignore_entries_from(ls, 0));
    }
    dedup(&out)
}

} // verus!
