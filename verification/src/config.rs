//! Configuration of the scan: which file extensions count as source,
//! which of them call for type-aware handling, and which folder names are
//! skipped wherever they appear in a path.

use vstd::prelude::*;

use crate::text::{split_on, split_on_from, str_eq};

verus! {

/// The extensions of the files the scan reads.
pub open spec fn source_extension_list() -> Seq<Seq<char>> {
    seq!["js"@, "ts"@, "jsx"@, "tsx"@, "mdx"@, "cjs"@, "mjs"@]
}

pub fn source_extensions() -> (r: Vec<String>)
    ensures
        r.deep_view() == source_extension_list(),
{
    let mut r: Vec<String> = Vec::new();
    r.push("js".to_owned());
    r.push("ts".to_owned());
    r.push("jsx".to_owned());
    r.push("tsx".to_owned());
    r.push("mdx".to_owned());
    r.push("cjs".to_owned());
    r.push("mjs".to_owned());
    proof {
        assert(r.deep_view() =~= source_extension_list());
    }
    r
}

/// The extensions handled with the type checker's help.
pub open spec fn typescript_extension_list() -> Seq<Seq<char>> {
    seq!["ts"@, "tsx"@, "d.ts"@, "cts"@]
}

pub fn typescript_extensions() -> (r: Vec<String>)
    ensures
        r.deep_view() == typescript_extension_list(),
{
    let mut r: Vec<String> = Vec::new();
    r.push("ts".to_owned());
    r.push("tsx".to_owned());
    r.push("d.ts".to_owned());
    r.push("cts".to_owned());
    proof {
        assert(r.deep_view() =~= typescript_extension_list());
    }
    r
}

pub fn is_typescript_extension(ext: &str) -> (b: bool)
    ensures
        b == typescript_extension_list().contains(ext@),
{
    if str_eq(ext, "ts") || str_eq(ext, "tsx") || str_eq(ext, "d.ts") || str_eq(ext, "cts") {
        assert(typescript_extension_list().contains(ext@)) by {
            if ext@ == "ts"@ {
                assert(typescript_extension_list()[0] == ext@);
            } else if ext@ == "tsx"@ {
                assert(typescript_extension_list()[1] == ext@);
            } else if ext@ == "d.ts"@ {
                assert(typescript_extension_list()[2] == ext@);
            } else {
                assert(typescript_extension_list()[3] == ext@);
            }
        }
        true
    } else {
        assert(forall|i: int|
            0 <= i < typescript_extension_list().len() ==> typescript_extension_list()[i] != ext@);
        false
    }
}

/// The folder names whose contents the scan passes over.
pub open spec fn is_ignore_folder(seg: Seq<char>) -> bool {
    ||| seg == "node_modules"@
    ||| seg == "dist"@
    ||| seg == "build"@
    ||| seg == "public"@
    ||| seg == ".next"@
    ||| seg == ".git"@
    ||| seg == "coverage"@
    ||| seg == "cypress"@
    ||| seg == "test"@
    ||| seg == "output"@
}

pub fn ignore_folder(seg: &str) -> (b: bool)
    ensures
        b == is_ignore_folder(seg@),
{
    str_eq(seg, "node_modules") || str_eq(seg, "dist") || str_eq(seg, "build") || str_eq(
        seg,
        "public",
    ) || str_eq(seg, ".next") || str_eq(seg, ".git") || str_eq(seg, "coverage") || str_eq(
        seg,
        "cypress",
    ) || str_eq(seg, "test") || str_eq(seg, "output")
}

/// The ignored folder names, in the order the report shows them.
pub open spec fn ignore_folder_list() -> Seq<Seq<char>> {
    seq![
        "node_modules"@,
        "dist"@,
        "build"@,
        "public"@,
        ".next"@,
        ".git"@,
        "coverage"@,
        "cypress"@,
        "test"@,
        "output"@,
    ]
}

/// A segment is an ignored folder exactly when it stands in the list.
pub proof fn lemma_ignore_folder_list_complete(seg: Seq<char>)
    ensures
        is_ignore_folder(seg) <==> ignore_folder_list().contains(seg),
{
    if is_ignore_folder(seg) {
        if seg == "node_modules"@ {
            assert(ignore_folder_list()[0] == seg);
        } else if seg == "dist"@ {
            assert(ignore_folder_list()[1] == seg);
        } else if seg == "build"@ {
            assert(ignore_folder_list()[2] == seg);
        } else if seg == "public"@ {
            assert(ignore_folder_list()[3] == seg);
        } else if seg == ".next"@ {
            assert(ignore_folder_list()[4] == seg);
        } else if seg == ".git"@ {
            assert(ignore_folder_list()[5] == seg);
        } else if seg == "coverage"@ {
            assert(ignore_folder_list()[6] == seg);
        } else if seg == "cypress"@ {
            assert(ignore_folder_list()[7] == seg);
        } else if seg == "test"@ {
            assert(ignore_folder_list()[8] == seg);
        } else {
            assert(ignore_folder_list()[9] == seg);
        }
    }
}

pub fn ignore_folder_names() -> (r: Vec<String>)
    ensures
        r.deep_view() == ignore_folder_list(),
{
    let mut r: Vec<String> = Vec::new();
    r.push("node_modules".to_owned());
    r.push("dist".to_owned());
    r.push("build".to_owned());
    r.push("public".to_owned());
    r.push(".next".to_owned());
    r.push(".git".to_owned());
    r.push("coverage".to_owned());
    r.push("cypress".to_owned());
    r.push("test".to_owned());
    r.push("output".to_owned());
    proof {
        assert(r.deep_view() =~= ignore_folder_list());
    }
    r
}

/// The `/`-separated segments of a path.
pub open spec fn path_segments(p: Seq<char>) -> Seq<Seq<char>> {
    split_on_from(p, '/', 0)
}

/// A path is ignored exactly when one of its segments equals an ignored
/// folder name: the match is on whole segments at any depth, never on a
/// segment prefix.
pub open spec fn spec_should_ignore(p: Seq<char>) -> bool {
    exists|k: int| 0 <= k < path_segments(p).len() && is_ignore_folder(path_segments(p)[k])
}

pub fn should_ignore(path: &str) -> (b: bool)
    ensures
        b == spec_should_ignore(path@),
{
    let segs = split_on(path, '/');
    let n = segs.len();
    let mut k: usize = 0;
    while k < n
        invariant
            k <= n,
            n == segs@.len(),
            segs.deep_view() == path_segments(path@),
            forall|j: int| 0 <= j < k ==> !is_ignore_folder(path_segments(path@)[j]),
        decreases n - k,
    {
        if ignore_folder(segs[k].as_str()) {
            assert(is_ignore_folder(path_segments(path@)[k as int]));
            return true;
        }
        k = k + 1;
    }
    false
}

} // verus!
