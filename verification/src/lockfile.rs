//! Lockfile resolution: which single lockfile is present, and the set of
//! package names it records. Those names are treated as required even
//! without a source reference. With more than one lockfile present the
//! resolution is ambiguous and the required set is deliberately empty.

use vstd::prelude::*;

use crate::manifest::{manifest_dev_dependencies, manifest_dev_names};
use crate::names::{
    base_name, base_package_name, lock_key_name, lock_key_package_name, trim_str, trimmed,
    unquote_str, unquoted,
};
use crate::sets::{dedup, dedup_names};
use crate::text::{
    chars_of, find_char, index_of_char, is_space, opt_content, space_char, spec_lines, split_lines,
};
use vstd::string::StrSliceExecFns;

verus! {

/// What the JSON parser extracts from an npm lockfile: the keys of its
/// `packages` object (or, in the older layout, its `dependencies`
/// object), or `None` when the content cannot be parsed as JSON or holds
/// no such object.
pub uninterp spec fn npm_lock_package_keys(content: Seq<char>) -> Option<Seq<Seq<char>>>;

/// Relies on serde_json::from_str and serde_json::Value::{get, as_object}:
/// the result depends on the content alone, keys coming out in the
/// parser's sorted key order.
#[verifier::external_body]
fn parse_npm_lock_keys(content: &str) -> (r: Option<Vec<String>>)
    ensures
        match (r, npm_lock_package_keys(content@)) {
            (Some(v), Some(s)) => v.deep_view() == s,
            (None, None) => true,
            _ => false,
        },
{
    let doc: serde_json::Value = match serde_json::from_str(content) {
        Ok(v) => v,
        Err(_) => return None,
    };
    let section = match doc.get("packages") {
        Some(v) => v,
        None => doc.get("dependencies")?,
    };
    let packages = section.as_object()?;
    Some(packages.keys().cloned().collect())
}

/// What the YAML parser extracts from a pnpm lockfile: the string keys of
/// the mapping under `packages`, or failing that under `dependencies` or
/// `devDependencies`; `None` when the content cannot be parsed as YAML or
/// no such mapping exists.
pub uninterp spec fn pnpm_lock_section_keys(content: Seq<char>) -> Option<Seq<Seq<char>>>;

/// Relies on serde_yaml::from_str and serde_yaml::Value::{get, as_mapping,
/// as_str}: the result depends on the content alone, a mapping keeping its
/// keys in document order. Keys that are not strings are passed over.
#[verifier::external_body]
fn parse_pnpm_lock_keys(content: &str) -> (r: Option<Vec<String>>)
    ensures
        match (r, pnpm_lock_section_keys(content@)) {
            (Some(v), Some(s)) => v.deep_view() == s,
            (None, None) => true,
            _ => false,
        },
{
    let doc: serde_yaml::Value = match serde_yaml::from_str::<serde_yaml::Value>(content) {
        Ok(v) => v,
        Err(_) => return None,
    };
    let section = match doc.get("packages") {
        Some(v) => Some(v),
        None => doc.get("dependencies"),
    };
    let section = match section {
        Some(v) => v,
        None => doc.get("devDependencies")?,
    };
    let mapping = section.as_mapping()?;
    Some(mapping.keys().filter_map(|k| k.as_str().map(String::from)).collect())
}

/// What the JSON parser extracts from a bun lockfile: the key lists of the
/// `dependencies` and `devDependencies` objects of the root workspace
/// (the entry under `workspaces` with the empty key), or `None` when the
/// content cannot be parsed as JSON or holds no root workspace object.
pub uninterp spec fn bun_lock_sections(content: Seq<char>) -> Option<
    (Seq<Seq<char>>, Seq<Seq<char>>),
>;

/// Relies on serde_json::from_str and serde_json::Value::{get, as_object}:
/// the result depends on the content alone, keys coming out in the
/// parser's sorted key order.
#[verifier::external_body]
fn parse_bun_lock_sections(content: &str) -> (r: Option<(Vec<String>, Vec<String>)>)
    ensures
        match (r, bun_lock_sections(content@)) {
            (Some(v), Some(s)) => v.0.deep_view() == s.0 && v.1.deep_view() == s.1,
            (None, None) => true,
            _ => false,
        },
{
    let doc: serde_json::Value = match serde_json::from_str(content) {
        Ok(v) => v,
        Err(_) => return None,
    };
    let root = doc.get("workspaces")?.get("")?.as_object()?;
    let deps: Vec<String> = match root.get("dependencies").and_then(serde_json::Value::as_object) {
        Some(m) => m.keys().cloned().collect(),
        None => Vec::new(),
    };
    let dev: Vec<String> = match root.get("devDependencies").and_then(serde_json::Value::as_object)
    {
        Some(m) => m.keys().cloned().collect(),
        None => Vec::new(),
    };
    Some((deps, dev))
}

/// The package names a list of lockfile keys records: each key without its
/// path prefix and version suffix, keys that leave nothing being dropped.
pub open spec fn lock_names_of_keys(keys: Seq<Seq<char>>) -> Seq<Seq<char>>
    decreases keys.len(),
{
    if keys.len() == 0 {
        Seq::empty()
    } else {
        let rest = lock_names_of_keys(keys.drop_first());
        let n = lock_key_name(keys[0]);
        if n.len() > 0 {
            seq![n] + rest
        } else {
            rest
        }
    }
}

fn lock_names_from_keys(keys: &Vec<String>) -> (r: Vec<String>)
    ensures
        r.deep_view() == lock_names_of_keys(keys.deep_view()),
{
    let n = keys.len();
    let ghost ks = keys.deep_view();
    let mut out: Vec<String> = Vec::new();
    let mut i: usize = 0;
    proof {
        assert(out.deep_view() + lock_names_of_keys(ks) =~= lock_names_of_keys(ks));
        assert(ks.skip(0) =~= ks);
    }
    while i < n
        invariant
            i <= n,
            n == keys@.len(),
            ks == keys.deep_view(),
            lock_names_of_keys(ks) == out.deep_view() + lock_names_of_keys(ks.skip(i as int)),
        decreases n - i,
    {
        let ghost before = out.deep_view();
        proof {
            assert(ks.skip(i as int).drop_first() =~= ks.skip(i + 1));
            assert(ks.skip(i as int)[0] == ks[i as int]);
        }
        let name = lock_key_package_name(keys[i].as_str());
        if name.as_str().unicode_len() > 0 {
            out.push(name);
            proof {
                assert(out.deep_view() =~= before.push(lock_key_name(ks[i as int])));
                assert(before + lock_names_of_keys(ks.skip(i as int)) =~= out.deep_view()
                    + lock_names_of_keys(ks.skip(i + 1)));
            }
        } else {
            proof {
                assert(before + lock_names_of_keys(ks.skip(i as int)) =~= out.deep_view()
                    + lock_names_of_keys(ks.skip(i + 1)));
            }
        }
        i = i + 1;
    }
    proof {
        assert(lock_names_of_keys(ks.skip(n as int)) =~= Seq::<Seq<char>>::empty());
        assert(out.deep_view() =~= lock_names_of_keys(ks));
    }
    out
}

/// The name a yarn lockfile line contributes. An entry line is unindented,
/// is no comment, and ends in a colon; it lists comma-separated
/// specifiers, of which the first is taken, unquoted, and stripped of its
/// version to recover the bare package name.
pub open spec fn yarn_entry_name(line: Seq<char>) -> Option<Seq<char>> {
    let l = if line.len() > 0 && line.last() == '\r' {
        line.drop_last()
    } else {
        line
    };
    if l.len() > 0 && l.last() == ':' && !is_space(l[0]) && l[0] != '#' {
        let body = l.drop_last();
        let k = find_char(body, ',', 0);
        let first = if k >= 0 {
            body.subrange(0, k)
        } else {
            body
        };
        let name = base_name(unquoted(trimmed(first)));
        if name.len() > 0 {
            Some(name)
        } else {
            None
        }
    } else {
        None
    }
}

fn yarn_entry_of_line(line: &str) -> (r: Option<String>)
    ensures
        match (r, yarn_entry_name(line@)) {
            (Some(a), Some(b)) => a@ == b,
            (None, None) => true,
            _ => false,
        },
{
    let cs = chars_of(line);
    let mut end = cs.len();
    if end > 0 && cs[end - 1] == '\r' {
        end = end - 1;
    }
    let ghost l = if line@.len() > 0 && line@.last() == '\r' {
        line@.drop_last()
    } else {
        line@
    };
    proof {
        assert(l =~= line@.subrange(0, end as int));
    }
    if !(end > 0 && cs[end - 1] == ':' && !space_char(cs[0]) && cs[0] != '#') {
        return None;
    }
    let body = line.substring_char(0, end - 1).to_owned();
    proof {
        assert(body@ =~= l.drop_last());
    }
    let bcs = chars_of(body.as_str());
    let first = match index_of_char(&bcs, ',', 0) {
        Some(k) => body.as_str().substring_char(0, k).to_owned(),
        None => body,
    };
    let name = base_package_name(unquote_str(trim_str(first.as_str()).as_str()).as_str());
    if name.as_str().unicode_len() > 0 {
        Some(name)
    } else {
        None
    }
}

pub open spec fn yarn_entries_from(lines: Seq<Seq<char>>, i: int) -> Seq<Seq<char>>
    decreases lines.len() - i,
{
    if i < 0 || i >= lines.len() {
        Seq::empty()
    } else {
        let rest = yarn_entries_from(lines, i + 1);
        match yarn_entry_name(lines[i]) {
            Some(n) => seq![n] + rest,
            None => rest,
        }
    }
}

/// The package names a yarn lockfile's content records, in order of first
/// appearance.
pub open spec fn yarn_lock_names(content: Seq<char>) -> Seq<Seq<char>> {
    yarn_entries_from(spec_lines(content), 0)
}

pub fn parse_yarn_lock(content: &str) -> (r: Vec<String>)
    ensures
        r.deep_view() == yarn_lock_names(content@),
{
    let lines = split_lines(content);
    let n = lines.len();
    let ghost ls = lines.deep_view();
    let mut out: Vec<String> = Vec::new();
    let mut i: usize = 0;
    proof {
        assert(out.deep_view() + yarn_entries_from(ls, 0) =~= yarn_entries_from(ls, 0));
    }
    while i < n
        invariant
            i <= n,
            n == lines@.len(),
            ls == lines.deep_view(),
            yarn_entries_from(ls, 0) == out.deep_view() + yarn_entries_from(ls, i as int),
        decreases n - i,
    {
        let ghost before = out.deep_view();
        match yarn_entry_of_line(lines[i].as_str()) {
            Some(name) => {
                out.push(name);
                proof {
                    assert(out.deep_view() =~= before.push(yarn_entry_name(ls[i as int])->Some_0));
                    assert(before + yarn_entries_from(ls, i as int) =~= out.deep_view()
                        + yarn_entries_from(ls, i + 1));
                }
            },
            None => {
                proof {
                    assert(before + yarn_entries_from(ls, i as int) =~= out.deep_view()
                        + yarn_entries_from(ls, i + 1));
                }
            },
        }
        i = i + 1;
    }
    proof {
        assert(yarn_entries_from(ls, n as int) =~= Seq::<Seq<char>>::empty());
        assert(out.deep_view() =~= yarn_entries_from(ls, 0));
    }
    out
}

/// The names the single present lockfile records; empty when none is
/// present. The caller guarantees at most one is present.
pub open spec fn lock_required_names(
    npm: Option<Seq<char>>,
    yarn: Option<Seq<char>>,
    pnpm: Option<Seq<char>>,
    bun: Option<Seq<char>>,
) -> Seq<Seq<char>> {
    if npm is Some {
        match npm_lock_package_keys(npm->Some_0) {
            Some(keys) => lock_names_of_keys(keys),
            None => Seq::empty(),
        }
    } else if yarn is Some {
        yarn_lock_names(yarn->Some_0)
    } else if pnpm is Some {
        match pnpm_lock_section_keys(pnpm->Some_0) {
            Some(keys) => lock_names_of_keys(keys),
            None => Seq::empty(),
        }
    } else if bun is Some {
        match bun_lock_sections(bun->Some_0) {
            Some(s) => lock_names_of_keys(s.0 + s.1),
            None => Seq::empty(),
        }
    } else {
        Seq::empty()
    }
}

pub open spec fn present_lockfile_count(
    npm: Option<Seq<char>>,
    yarn: Option<Seq<char>>,
    pnpm: Option<Seq<char>>,
    bun: Option<Seq<char>>,
) -> int {
    (if npm is Some {
        1int
    } else {
        0int
    }) + (if yarn is Some {
        1int
    } else {
        0int
    }) + (if pnpm is Some {
        1int
    } else {
        0int
    }) + (if bun is Some {
        1int
    } else {
        0int
    })
}

/// The outcome of required-set resolution: the names, and whether more
/// than one lockfile made the resolution ambiguous.
pub struct RequiredDependencies {
    pub names: Vec<String>,
    pub ambiguous: bool,
}

/// What the manifest may contribute to the required set: nothing, unless
/// the caller opted into treating development dependencies as required,
/// an unresolved policy choice left configurable on purpose. The
/// manifest's `dependencies` keys never enter the required set: they are
/// the declared set that unused detection subtracts from.
pub open spec fn manifest_required_names(
    m: Option<Seq<char>>,
    include_dev_dependencies: bool,
) -> Seq<Seq<char>> {
    if include_dev_dependencies {
        manifest_dev_names(m)
    } else {
        Seq::empty()
    }
}

/// The full required set: the names the single present lockfile records,
/// in order of first appearance, after the manifest's optional
/// `devDependencies` contribution. With more than one lockfile present
/// the set is empty and the result is marked ambiguous, whatever the
/// lockfiles hold; the caller then warns the user.
pub fn get_required_dependencies(
    manifest: Option<&String>,
    npm_lock: Option<&String>,
    yarn_lock: Option<&String>,
    pnpm_lock: Option<&String>,
    bun_lock: Option<&String>,
    include_dev_dependencies: bool,
) -> (r: RequiredDependencies)
    ensures
        r.ambiguous == (present_lockfile_count(
            opt_content(npm_lock),
            opt_content(yarn_lock),
            opt_content(pnpm_lock),
            opt_content(bun_lock),
        ) > 1),
        r.ambiguous ==> r.names.deep_view() == Seq::<Seq<char>>::empty(),
        !r.ambiguous ==> r.names.deep_view() == dedup_names(
            manifest_required_names(opt_content(manifest), include_dev_dependencies)
                + lock_required_names(
                opt_content(npm_lock),
                opt_content(yarn_lock),
                opt_content(pnpm_lock),
                opt_content(bun_lock),
            ),
        ),
{
    let mut count: usize = 0;
    if npm_lock.is_some() {
        count = count + 1;
    }
    if yarn_lock.is_some() {
        count = count + 1;
    }
    if pnpm_lock.is_some() {
        count = count + 1;
    }
    if bun_lock.is_some() {
        count = count + 1;
    }
    if count > 1 {
        let names: Vec<String> = Vec::new();
        assert(names.deep_view() =~= Seq::<Seq<char>>::empty());
        return RequiredDependencies { names, ambiguous: true };
    }
    let mut all: Vec<String> = if include_dev_dependencies {
        manifest_dev_dependencies(manifest)
    } else {
        Vec::new()
    };
    let ghost from_manifest = all.deep_view();
    proof {
        assert(from_manifest =~= manifest_required_names(
            opt_content(manifest),
            include_dev_dependencies,
        ));
    }
    let mut from_lock: Vec<String> = if let Some(c) = npm_lock {
        match parse_npm_lock_keys(c.as_str()) {
            Some(keys) => lock_names_from_keys(&keys),
            None => Vec::new(),
        }
    } else if let Some(c) = yarn_lock {
        parse_yarn_lock(c.as_str())
    } else if let Some(c) = pnpm_lock {
        match parse_pnpm_lock_keys(c.as_str()) {
            Some(keys) => lock_names_from_keys(&keys),
            None => Vec::new(),
        }
    } else if let Some(c) = bun_lock {
        match parse_bun_lock_sections(c.as_str()) {
            Some(sections) => {
                let mut deps = sections.0;
                let mut dev = sections.1;
                let ghost a = deps.deep_view();
                let ghost b = dev.deep_view();
                deps.append(&mut dev);
                proof {
                    assert(deps.deep_view() =~= a + b);
                }
                lock_names_from_keys(&deps)
            },
            None => Vec::new(),
        }
    } else {
        Vec::new()
    };
    proof {
        assert(from_lock.deep_view() =~= lock_required_names(
            opt_content(npm_lock),
            opt_content(yarn_lock),
            opt_content(pnpm_lock),
            opt_content(bun_lock),
        ));
    }
    all.append(&mut from_lock);
    proof {
        assert(all.deep_view() =~= from_manifest + lock_required_names(
            opt_content(npm_lock),
            opt_content(yarn_lock),
            opt_content(pnpm_lock),
            opt_content(bun_lock),
        ));
    }
    let names = dedup(&all);
    RequiredDependencies { names, ambiguous: false }
}

} // verus!
