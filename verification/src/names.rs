//! Package-name handling: recovering a bare package name from a lockfile
//! key or specifier, and deciding whether a quoted module specifier refers
//! to a given package.

use vstd::prelude::*;

use crate::text::{
    chars_of, find_char, has_token_at, index_of_char, is_space, skip_spaces, skip_spaces_from,
    space_char, token_at,
};
use vstd::string::StrSliceExecFns;

verus! {

/// The bare package name of a specifier: everything before a trailing
/// `@version` part. A leading `@` marks a scope, so for a scoped specifier
/// the version separator is the first `@` after the start.
pub open spec fn base_name(s: Seq<char>) -> Seq<char> {
    if s.len() > 0 && s[0] == '@' {
        let k = find_char(s, '@', 1);
        if k >= 0 {
            s.subrange(0, k)
        } else {
            s
        }
    } else {
        let k = find_char(s, '@', 0);
        if k >= 0 {
            s.subrange(0, k)
        } else {
            s
        }
    }
}

pub fn base_package_name(s: &str) -> (r: String)
    ensures
        r@ == base_name(s@),
{
    let cs = chars_of(s);
    let n = cs.len();
    if n > 0 && cs[0] == '@' {
        match index_of_char(&cs, '@', 1) {
            Some(k) => s.substring_char(0, k).to_owned(),
            None => s.to_owned(),
        }
    } else {
        match index_of_char(&cs, '@', 0) {
            Some(k) => s.substring_char(0, k).to_owned(),
            None => s.to_owned(),
        }
    }
}

/// A lockfile key may carry a `node_modules/` or leading-slash path prefix
/// in front of the package name; strip one such prefix.
pub open spec fn strip_path_prefix(s: Seq<char>) -> Seq<char> {
    if token_at(s, 0, "node_modules/"@) {
        s.subrange("node_modules/"@.len() as int, s.len() as int)
    } else if s.len() > 0 && s[0] == '/' {
        s.subrange(1, s.len() as int)
    } else {
        s
    }
}

pub fn strip_key_prefix(s: &str) -> (r: String)
    ensures
        r@ == strip_path_prefix(s@),
{
    let cs = chars_of(s);
    let prefix = chars_of("node_modules/");
    let n = cs.len();
    if has_token_at(&cs, 0, &prefix) {
        s.substring_char(prefix.len(), n).to_owned()
    } else if n > 0 && cs[0] == '/' {
        s.substring_char(1, n).to_owned()
    } else {
        s.to_owned()
    }
}

/// The package name recorded by a lockfile key: the key without its path
/// prefix and without its version suffix.
pub open spec fn lock_key_name(key: Seq<char>) -> Seq<char> {
    base_name(strip_path_prefix(key))
}

pub fn lock_key_package_name(key: &str) -> (r: String)
    ensures
        r@ == lock_key_name(key@),
{
    let stripped = strip_key_prefix(key);
    base_package_name(stripped.as_str())
}

/// Whether a quoted module specifier refers to the package `dep`: either it
/// names the package exactly, or it names a sub-path below it.
pub open spec fn refers_to(s: Seq<char>, dep: Seq<char>) -> bool {
    s == dep || (s.len() > dep.len() && s.subrange(0, dep.len() as int) == dep && s[dep.len() as int]
        == '/')
}

/// A specifier that refers to a sub-path below a package also refers to
/// the package itself.
pub proof fn lemma_refers_through_subpath(spec_name: Seq<char>, dep: Seq<char>, sub: Seq<char>)
    requires
        refers_to(spec_name, dep + seq!['/'] + sub),
    ensures
        refers_to(spec_name, dep),
{
    let full = dep + seq!['/'] + sub;
    if spec_name == full {
        assert(spec_name.subrange(0, dep.len() as int) =~= dep);
        assert(spec_name[dep.len() as int] == '/');
    } else {
        assert(spec_name.subrange(0, full.len() as int) == full);
        assert forall|j: int| 0 <= j < full.len() implies spec_name[j] == full[j] by {
            assert(spec_name.subrange(0, full.len() as int)[j] == spec_name[j]);
        }
        assert(spec_name.subrange(0, dep.len() as int) =~= dep);
        assert(spec_name[dep.len() as int] == '/');
    }
}

pub fn specifier_refers_to(s: &Vec<char>, dep: &Vec<char>) -> (b: bool)
    ensures
        b == refers_to(s@, dep@),
{
    let ns = s.len();
    let nd = dep.len();
    if ns < nd {
        return false;
    }
    if !has_token_at(s, 0, dep) {
        // Without the prefix, neither equality nor a sub-path is possible.
        proof {
            if s@ == dep@ {
                assert(s@.subrange(0, nd as int) =~= dep@);
            }
        }
        return false;
    }
    if ns == nd {
        assert(s@ =~= dep@);
        true
    } else {
        s[nd] == '/'
    }
}

/// The greatest position `j <= i` such that no space characters stand
/// between `j` and `i`.
pub open spec fn skip_spaces_rev(s: Seq<char>, i: int) -> int
    decreases i,
{
    if 0 < i <= s.len() && is_space(s[i - 1]) {
        skip_spaces_rev(s, i - 1)
    } else {
        i
    }
}

pub fn skip_spaces_rev_from(s: &Vec<char>, i: usize) -> (r: usize)
    requires
        i <= s@.len(),
    ensures
        r == skip_spaces_rev(s@, i as int),
        r <= i,
{
    let mut j: usize = i;
    while j > 0 && space_char(s[j - 1])
        invariant
            j <= i <= s@.len(),
            skip_spaces_rev(s@, i as int) == skip_spaces_rev(s@, j as int),
        decreases j,
    {
        j = j - 1;
    }
    j
}

/// The string with leading and trailing spaces removed.
pub open spec fn trimmed(s: Seq<char>) -> Seq<char> {
    let a = skip_spaces(s, 0);
    let b = skip_spaces_rev(s, s.len() as int);
    if a <= b {
        s.subrange(a, b)
    } else {
        Seq::empty()
    }
}

pub fn trim_str(s: &str) -> (r: String)
    ensures
        r@ == trimmed(s@),
{
    let cs = chars_of(s);
    let n = cs.len();
    let a = skip_spaces_from(&cs, 0);
    let b = skip_spaces_rev_from(&cs, n);
    if a <= b {
        s.substring_char(a, b).to_owned()
    } else {
        assert(trimmed(s@) =~= Seq::<char>::empty());
        let r = String::new();
        assert(r@ =~= trimmed(s@));
        r
    }
}

/// The string with one pair of surrounding double quotes removed, if both
/// are present.
pub open spec fn unquoted(s: Seq<char>) -> Seq<char> {
    if s.len() >= 2 && s[0] == '"' && s[s.len() - 1] == '"' {
        s.subrange(1, s.len() - 1)
    } else {
        s
    }
}

pub fn unquote_str(s: &str) -> (r: String)
    ensures
        r@ == unquoted(s@),
{
    let cs = chars_of(s);
    let n = cs.len();
    if n >= 2 && cs[0] == '"' && cs[n - 1] == '"' {
        s.substring_char(1, n - 1).to_owned()
    } else {
        s.to_owned()
    }
}

} // verus!
