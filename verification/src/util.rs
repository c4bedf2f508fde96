//! Small path utilities: the file name and extension of a path, and the
//! mount prefix some platforms put in front of temporary paths.

use vstd::prelude::*;

use crate::text::{chars_of, str_eq, token_at};
use vstd::string::StrSliceExecFns;

verus! {

/// The greatest position at or below `i` holding `c`, or `-1` if none
/// does.
pub open spec fn rfind_char(s: Seq<char>, c: char, i: int) -> int
    decreases i + 1,
{
    if i < 0 {
        -1
    } else if 0 <= i < s.len() && s[i] == c {
        i
    } else {
        rfind_char(s, c, i - 1)
    }
}

pub fn rindex_of_char(s: &Vec<char>, c: char, i: usize) -> (r: Option<usize>)
    requires
        i < s@.len(),
    ensures
        match r {
            Some(k) => k < s@.len() && rfind_char(s@, c, i as int) == k as int,
            None => rfind_char(s@, c, i as int) == -1,
        },
{
    let n = s.len();
    assert(i < n);
    let mut j: usize = i + 1;
    while j > 0
        invariant
            j <= i + 1,
            i < s@.len(),
            rfind_char(s@, c, i as int) == rfind_char(s@, c, j as int - 1),
        decreases j,
    {
        if s[j - 1] == c {
            return Some(j - 1);
        }
        j = j - 1;
    }
    None
}

/// The last `/`-separated component of a path.
pub open spec fn spec_file_name(p: Seq<char>) -> Seq<char> {
    let k = rfind_char(p, '/', p.len() - 1);
    p.subrange(k + 1, p.len() as int)
}

/// The file name and extension of a path: the component after the last
/// slash, and what follows its last dot. There is no extension when the
/// name is empty, is a current- or parent-directory component, or has no
/// dot after its first character, and then there is no result at all.
pub open spec fn spec_file_name_and_extension(p: Seq<char>) -> Option<(Seq<char>, Seq<char>)> {
    let name = spec_file_name(p);
    if name.len() == 0 || name == "."@ || name == ".."@ {
        None
    } else {
        let d = rfind_char(name, '.', name.len() - 1);
        if d <= 0 {
            None
        } else {
            Some((name, name.subrange(d + 1, name.len() as int)))
        }
    }
}

pub fn get_file_name_and_extension(path: &str) -> (r: Option<(String, String)>)
    ensures
        match (r, spec_file_name_and_extension(path@)) {
            (Some(v), Some(s)) => v.0@ == s.0 && v.1@ == s.1,
            (None, None) => true,
            _ => false,
        },
{
    let cs = chars_of(path);
    let n = cs.len();
    let start: usize = if n == 0 {
        0
    } else {
        match rindex_of_char(&cs, '/', n - 1) {
            Some(k) => k + 1,
            None => 0,
        }
    };
    let name = path.substring_char(start, n).to_owned();
    proof {
        assert(name@ =~= spec_file_name(path@));
    }
    let m = name.as_str().unicode_len();
    if m == 0 || str_eq(name.as_str(), ".") || str_eq(name.as_str(), "..") {
        return None;
    }
    let ncs = chars_of(name.as_str());
    match rindex_of_char(&ncs, '.', m - 1) {
        Some(d) if d > 0 => {
            let ext = name.as_str().substring_char(d + 1, m).to_owned();
            Some((name, ext))
        },
        _ => None,
    }
}

/// The path with one leading `/private` mount prefix removed, as some
/// platforms prepend to canonicalized temporary paths.
pub open spec fn spec_strip_mount_prefix(p: Seq<char>) -> Seq<char> {
    if token_at(p, 0, "/private"@) {
        p.subrange("/private"@.len() as int, p.len() as int)
    } else {
        p
    }
}

pub fn strip_mount_prefix(path: &str) -> (r: String)
    ensures
        r@ == spec_strip_mount_prefix(path@),
{
    let cs = chars_of(path);
    let prefix = chars_of("/private");
    if crate::text::has_token_at(&cs, 0, &prefix) {
        path.substring_char(prefix.len(), cs.len()).to_owned()
    } else {
        path.to_owned()
    }
}

} // verus!
