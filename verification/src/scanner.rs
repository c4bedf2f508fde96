//! The reference matcher: whether a file's content references a declared
//! dependency through one of the recognized syntactic forms, namely an
//! `import ... from` clause, a `require(...)` call, or a bare side-effect
//! `import` statement, in each case with the module specifier quoted and
//! naming the dependency or a sub-path below it.

use vstd::prelude::*;

use crate::names::refers_to;
use crate::text::{
    chars_of, find_char, has_token_at, index_of_char, is_quote, quote_char, skip_spaces,
    skip_spaces_from, skip_word, skip_word_from, token_at,
};

verus! {

/// The position of the closing quote matching an opening quote at `i`.
pub open spec fn quote_close(s: Seq<char>, i: int) -> int {
    find_char(s, s[i], i + 1)
}

/// Whether a quoted span opens at position `i`: a quote character whose
/// match appears later in `s`.
pub open spec fn quoted_at(s: Seq<char>, i: int) -> bool {
    0 <= i < s.len() && is_quote(s[i]) && quote_close(s, i) >= 0
}

/// The module specifier inside the quotes opening at `i`: the characters
/// between the opening quote and its first match.
pub open spec fn quoted_spec(s: Seq<char>, i: int) -> Seq<char> {
    s.subrange(i + 1, quote_close(s, i))
}

/// A `require(...)` call at position `i` whose quoted specifier refers to
/// `dep`: the keyword, an opening parenthesis, the quoted specifier and a
/// closing parenthesis, with spaces allowed between the tokens.
pub open spec fn require_ref_at(s: Seq<char>, i: int, dep: Seq<char>) -> bool {
    &&& token_at(s, i, "require"@)
    &&& {
        let p = skip_spaces(s, i + "require"@.len());
        &&& p < s.len() && s[p] == '('
        &&& {
            let q = skip_spaces(s, p + 1);
            &&& quoted_at(s, q)
            &&& refers_to(quoted_spec(s, q), dep)
            &&& {
                let t = skip_spaces(s, quote_close(s, q) + 1);
                t < s.len() && s[t] == ')'
            }
        }
    }
}

/// Where the import clause between `import` and `from` ends when it
/// starts at `p`: a braced list of named imports runs to the first closing
/// brace, a default import is a run of word characters (possibly empty);
/// `-1` when a braced list never closes.
pub open spec fn import_clause_end(s: Seq<char>, p: int) -> int {
    if 0 <= p < s.len() && s[p] == '{' {
        let e = find_char(s, '}', p + 1);
        if e >= 0 {
            e + 1
        } else {
            -1
        }
    } else {
        skip_word(s, p)
    }
}

/// An `import ... from '...'` statement at position `i` whose quoted
/// specifier refers to `dep`.
pub open spec fn import_from_ref_at(s: Seq<char>, i: int, dep: Seq<char>) -> bool {
    &&& token_at(s, i, "import"@)
    &&& {
        let b = import_clause_end(s, skip_spaces(s, i + "import"@.len()));
        &&& b >= 0
        &&& {
            let f = skip_spaces(s, b);
            &&& token_at(s, f, "from"@)
            &&& {
                let q = skip_spaces(s, f + "from"@.len());
                &&& quoted_at(s, q)
                &&& refers_to(quoted_spec(s, q), dep)
            }
        }
    }
}

/// A bare side-effect `import '...';` statement at position `i` whose
/// quoted specifier refers to `dep`.
pub open spec fn bare_import_ref_at(s: Seq<char>, i: int, dep: Seq<char>) -> bool {
    &&& token_at(s, i, "import"@)
    &&& {
        let q = skip_spaces(s, i + "import"@.len());
        &&& quoted_at(s, q)
        &&& refers_to(quoted_spec(s, q), dep)
        &&& {
            let t = skip_spaces(s, quote_close(s, q) + 1);
            t < s.len() && s[t] == ';'
        }
    }
}

/// A reference to `dep` starting at position `i`, in any recognized form.
pub open spec fn reference_at(s: Seq<char>, i: int, dep: Seq<char>) -> bool {
    import_from_ref_at(s, i, dep) || require_ref_at(s, i, dep) || bare_import_ref_at(s, i, dep)
}

/// Whether the content references the dependency anywhere. Matching is
/// anchored on the quoted specifier, so a bare occurrence of the name
/// inside other text is no reference.
pub open spec fn content_uses(s: Seq<char>, dep: Seq<char>) -> bool {
    exists|i: int| 0 <= i < s.len() && reference_at(s, i, dep)
}

/// Whether `s.subrange(a, b)` refers to `dep`, without materializing the
/// subrange.
fn range_refers_to(s: &Vec<char>, a: usize, b: usize, dep: &Vec<char>) -> (r: bool)
    requires
        a <= b <= s@.len(),
    ensures
        r == refers_to(s@.subrange(a as int, b as int), dep@),
{
    let ghost sub = s@.subrange(a as int, b as int);
    let len = b - a;
    let nd = dep.len();
    if len < nd {
        assert(!refers_to(sub, dep@));
        return false;
    }
    let mut k: usize = 0;
    while k < nd
        invariant
            k <= nd,
            nd == dep@.len(),
            a <= b <= s@.len(),
            nd <= b - a,
            sub == s@.subrange(a as int, b as int),
            forall|j: int| 0 <= j < k ==> sub[j] == dep@[j],
        decreases nd - k,
    {
        if s[a + k] != dep[k] {
            assert(sub[k as int] != dep@[k as int]);
            assert(sub == dep@ ==> sub[k as int] == dep@[k as int]);
            assert(sub.subrange(0, nd as int) == dep@ ==> sub.subrange(0, nd as int)[k as int]
                == dep@[k as int]);
            assert(!refers_to(sub, dep@));
            return false;
        }
        k = k + 1;
    }
    if len == nd {
        assert(sub =~= dep@);
        true
    } else {
        assert(sub.subrange(0, nd as int) =~= dep@);
        let r = s[a + nd] == '/';
        assert(sub[nd as int] == s@[a + nd]);
        r
    }
}

/// Finds the closing quote of a quoted specifier opening at `i`, if one
/// opens there.
pub(crate) fn quoted_span_at(s: &Vec<char>, i: usize) -> (r: Option<usize>)
    requires
        i <= s@.len(),
    ensures
        match r {
            Some(e) => quoted_at(s@, i as int) && e == quote_close(s@, i as int) && i < e
                < s@.len(),
            None => !quoted_at(s@, i as int),
        },
{
    if i == s.len() {
        return None;
    }
    if !quote_char(s[i]) {
        return None;
    }
    match index_of_char(s, s[i], i + 1) {
        Some(e) => {
            proof {
                crate::text::lemma_find_char_bounds(s@, s@[i as int], i + 1);
            }
            Some(e)
        },
        None => None,
    }
}

fn check_require_at(s: &Vec<char>, i: usize, dep: &Vec<char>) -> (r: bool)
    requires
        i <= s@.len(),
    ensures
        r == require_ref_at(s@, i as int, dep@),
{
    let n = s.len();
    let kw = chars_of("require");
    if !has_token_at(s, i, &kw) {
        return false;
    }
    assert(i + kw@.len() <= n);
    let p = skip_spaces_from(s, i + kw.len());
    if p == s.len() || s[p] != '(' {
        return false;
    }
    let q = skip_spaces_from(s, p + 1);
    let e = match quoted_span_at(s, q) {
        Some(e) => e,
        None => {
            return false;
        },
    };
    if !range_refers_to(s, q + 1, e, dep) {
        return false;
    }
    let t = skip_spaces_from(s, e + 1);
    t < s.len() && s[t] == ')'
}

fn check_import_from_at(s: &Vec<char>, i: usize, dep: &Vec<char>) -> (r: bool)
    requires
        i <= s@.len(),
    ensures
        r == import_from_ref_at(s@, i as int, dep@),
{
    let n = s.len();
    let kw = chars_of("import");
    if !has_token_at(s, i, &kw) {
        return false;
    }
    assert(i + kw@.len() <= n);
    let p = skip_spaces_from(s, i + kw.len());
    let b: usize;
    if p < s.len() && s[p] == '{' {
        match index_of_char(s, '}', p + 1) {
            Some(e) => {
                b = e + 1;
            },
            None => {
                assert(import_clause_end(s@, p as int) == -1);
                return false;
            },
        }
    } else {
        b = skip_word_from(s, p);
    }
    assert(b as int == import_clause_end(s@, p as int));
    let f = skip_spaces_from(s, b);
    let fromkw = chars_of("from");
    if !has_token_at(s, f, &fromkw) {
        return false;
    }
    let q = skip_spaces_from(s, f + fromkw.len());
    let e = match quoted_span_at(s, q) {
        Some(e) => e,
        None => {
            return false;
        },
    };
    range_refers_to(s, q + 1, e, dep)
}

fn check_bare_import_at(s: &Vec<char>, i: usize, dep: &Vec<char>) -> (r: bool)
    requires
        i <= s@.len(),
    ensures
        r == bare_import_ref_at(s@, i as int, dep@),
{
    let n = s.len();
    let kw = chars_of("import");
    if !has_token_at(s, i, &kw) {
        return false;
    }
    assert(i + kw@.len() <= n);
    let q = skip_spaces_from(s, i + kw.len());
    let e = match quoted_span_at(s, q) {
        Some(e) => e,
        None => {
            return false;
        },
    };
    if !range_refers_to(s, q + 1, e, dep) {
        return false;
    }
    let t = skip_spaces_from(s, e + 1);
    t < s.len() && s[t] == ';'
}

fn check_reference_at(s: &Vec<char>, i: usize, dep: &Vec<char>) -> (r: bool)
    requires
        i <= s@.len(),
    ensures
        r == reference_at(s@, i as int, dep@),
{
    check_import_from_at(s, i, dep) || check_require_at(s, i, dep) || check_bare_import_at(
        s,
        i,
        dep,
    )
}

/// Whether the content references the dependency through any recognized
/// import or require form.
pub fn content_uses_dependency(content: &str, dep: &str) -> (r: bool)
    ensures
        r == content_uses(content@, dep@),
{
    let cs = chars_of(content);
    let dc = chars_of(dep);
    let n = cs.len();
    let mut i: usize = 0;
    while i < n
        invariant
            i <= n,
            n == content@.len(),
            cs@ == content@,
            dc@ == dep@,
            forall|j: int| 0 <= j < i ==> !reference_at(content@, j, dep@),
        decreases n - i,
    {
        if check_reference_at(&cs, i, &dc) {
            return true;
        }
        i = i + 1;
    }
    false
}

/// A dependency referenced only through a sub-path specifier, as in a
/// `require` of a deeper module of the package, still counts as used for
/// the base package: the same position matches for the package name
/// itself.
pub proof fn lemma_subpath_require_is_use(s: Seq<char>, i: int, dep: Seq<char>, sub: Seq<char>)
    requires
        0 <= i < s.len(),
        require_ref_at(s, i, dep + seq!['/'] + sub),
    ensures
        require_ref_at(s, i, dep),
        content_uses(s, dep),
{
    let p = skip_spaces(s, i + "require"@.len());
    let q = skip_spaces(s, p + 1);
    crate::names::lemma_refers_through_subpath(quoted_spec(s, q), dep, sub);
    assert(reference_at(s, i, dep));
}

/// The declared dependencies that a file's content references, in
/// declaration order.
pub open spec fn used_names(content: Seq<char>, deps: Seq<Seq<char>>) -> Seq<Seq<char>> {
    deps.filter(|d: Seq<char>| content_uses(content, d))
}

/// The subset of the declared dependencies that the content references.
pub fn find_dependencies_in_content(content: &str, dependencies: &Vec<String>) -> (r: Vec<String>)
    ensures
        r.deep_view() == used_names(content@, dependencies.deep_view()),
{
    let ghost pred = |d: Seq<char>| content_uses(content@, d);
    let n = dependencies.len();
    let mut out: Vec<String> = Vec::new();
    let mut i: usize = 0;
    proof {
        reveal_with_fuel(Seq::filter, 1);
        assert(out.deep_view() =~= dependencies.deep_view().take(0).filter(pred));
    }
    while i < n
        invariant
            i <= n,
            n == dependencies@.len(),
            out.deep_view() == dependencies.deep_view().take(i as int).filter(pred),
            pred == (|d: Seq<char>| content_uses(content@, d)),
        decreases n - i,
    {
        let ghost t = dependencies.deep_view();
        proof {
            reveal_with_fuel(Seq::filter, 1);
            assert(t.take(i + 1).drop_last() =~= t.take(i as int));
            assert(t.take(i + 1).last() == t[i as int]);
        }
        if content_uses_dependency(content, dependencies[i].as_str()) {
            let ghost before = out.deep_view();
            out.push(dependencies[i].clone());
            proof {
                assert(out.deep_view() =~= before.push(t[i as int]));
            }
        }
        i = i + 1;
    }
    proof {
        assert(dependencies.deep_view().take(n as int) =~= dependencies.deep_view());
    }
    out
}

} // verus!
