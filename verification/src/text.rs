//! Character-level helpers shared by the parsers and the reference matcher:
//! indexed character access, searching, runs of spaces or word characters,
//! and token matching, each with an exact specification.

use vstd::prelude::*;

verus! {

/// The characters treated as whitespace between tokens of an import or
/// require statement.
pub open spec fn is_space(c: char) -> bool {
    c == ' ' || c == '\t' || c == '\r' || c == '\n'
}

/// Identifier characters, as they may appear in a default-import clause.
pub open spec fn is_word_char(c: char) -> bool {
    ('a' as u32 <= c as u32 && c as u32 <= 'z' as u32)
        || ('A' as u32 <= c as u32 && c as u32 <= 'Z' as u32)
        || ('0' as u32 <= c as u32 && c as u32 <= '9' as u32)
        || c == '_'
}

/// The two quote characters that may delimit a module specifier.
pub open spec fn is_quote(c: char) -> bool {
    c == '\'' || c == '"'
}

pub fn space_char(c: char) -> (b: bool)
    ensures
        b == is_space(c),
{
    c == ' ' || c == '\t' || c == '\r' || c == '\n'
}

pub fn word_char(c: char) -> (b: bool)
    ensures
        b == is_word_char(c),
{
    let u = c as u32;
    ('a' as u32 <= u && u <= 'z' as u32) || ('A' as u32 <= u && u <= 'Z' as u32) || ('0' as u32
        <= u && u <= '9' as u32) || c == '_'
}

pub fn quote_char(c: char) -> (b: bool)
    ensures
        b == is_quote(c),
{
    c == '\'' || c == '"'
}

/// Collects the characters of a string slice into a vector, so that the
/// scanning code can index them directly.
pub fn chars_of(s: &str) -> (r: Vec<char>)
    ensures
        r@ == s@,
{
    let n = s.unicode_len();
    let mut r: Vec<char> = Vec::new();
    let mut i: usize = 0;
    while i < n
        invariant
            i <= n,
            n == s@.len(),
            r@ == s@.subrange(0, i as int),
        decreases n - i,
    {
        r.push(s.get_char(i));
        i = i + 1;
        assert(r@ =~= s@.subrange(0, i as int));
    }
    assert(r@ =~= s@);
    r
}

/// Index of the first occurrence of `c` in `s` at or after position `i`,
/// or `-1` if there is none.
pub open spec fn find_char(s: Seq<char>, c: char, i: int) -> int
    decreases s.len() - i,
{
    if i < 0 {
        -1
    } else if i >= s.len() {
        -1
    } else if s[i] == c {
        i
    } else {
        find_char(s, c, i + 1)
    }
}

pub proof fn lemma_find_char_bounds(s: Seq<char>, c: char, i: int)
    requires
        0 <= i,
    ensures
        find_char(s, c, i) == -1 || (i <= find_char(s, c, i) < s.len() && s[find_char(s, c, i)]
            == c),
        find_char(s, c, i) == -1 ==> forall|j: int| i <= j < s.len() ==> s[j] != c,
        forall|j: int| i <= j < find_char(s, c, i) ==> s[j] != c,
    decreases s.len() - i,
{
    if i < s.len() && s[i] != c {
        lemma_find_char_bounds(s, c, i + 1);
    }
}

pub fn index_of_char(s: &Vec<char>, c: char, i: usize) -> (r: Option<usize>)
    requires
        i <= s@.len(),
    ensures
        match r {
            Some(k) => k < s@.len() && find_char(s@, c, i as int) == k as int,
            None => find_char(s@, c, i as int) == -1,
        },
{
    let n = s.len();
    let mut j: usize = i;
    while j < n
        invariant
            i <= j <= n,
            n == s@.len(),
            find_char(s@, c, i as int) == find_char(s@, c, j as int),
        decreases n - j,
    {
        if s[j] == c {
            return Some(j);
        }
        j = j + 1;
    }
    None
}

/// Position of the first character at or after `i` that is not a space,
/// clamped to the length of `s`.
pub open spec fn skip_spaces(s: Seq<char>, i: int) -> int
    decreases s.len() - i,
{
    if 0 <= i && i < s.len() && is_space(s[i]) {
        skip_spaces(s, i + 1)
    } else {
        i
    }
}

pub fn skip_spaces_from(s: &Vec<char>, i: usize) -> (r: usize)
    requires
        i <= s@.len(),
    ensures
        r == skip_spaces(s@, i as int),
        i <= r <= s@.len(),
{
    let n = s.len();
    let mut j: usize = i;
    while j < n && space_char(s[j])
        invariant
            i <= j <= n,
            n == s@.len(),
            skip_spaces(s@, i as int) == skip_spaces(s@, j as int),
        decreases n - j,
    {
        j = j + 1;
    }
    j
}

/// Position of the first character at or after `i` that is not a word
/// character, clamped to the length of `s`.
pub open spec fn skip_word(s: Seq<char>, i: int) -> int
    decreases s.len() - i,
{
    if 0 <= i && i < s.len() && is_word_char(s[i]) {
        skip_word(s, i + 1)
    } else {
        i
    }
}

pub fn skip_word_from(s: &Vec<char>, i: usize) -> (r: usize)
    requires
        i <= s@.len(),
    ensures
        r == skip_word(s@, i as int),
        i <= r <= s@.len(),
{
    let n = s.len();
    let mut j: usize = i;
    while j < n && word_char(s[j])
        invariant
            i <= j <= n,
            n == s@.len(),
            skip_word(s@, i as int) == skip_word(s@, j as int),
        decreases n - j,
    {
        j = j + 1;
    }
    j
}

/// Whether the characters of `tok` appear in `s` starting at position `i`.
pub open spec fn token_at(s: Seq<char>, i: int, tok: Seq<char>) -> bool {
    0 <= i && i + tok.len() <= s.len() && s.subrange(i, i + tok.len() as int) == tok
}

pub fn has_token_at(s: &Vec<char>, i: usize, tok: &Vec<char>) -> (b: bool)
    requires
        i <= s@.len(),
    ensures
        b == token_at(s@, i as int, tok@),
{
    let m = tok.len();
    let n = s.len();
    if n - i < m {
        return false;
    }
    let mut k: usize = 0;
    while k < m
        invariant
            k <= m,
            m == tok@.len(),
            n == s@.len(),
            i + m <= n,
            forall|j: int| 0 <= j < k ==> s@[i + j] == tok@[j],
        decreases m - k,
    {
        if s[i + k] != tok[k] {
            assert(s@.subrange(i as int, i + m as int)[k as int] != tok@[k as int]);
            return false;
        }
        k = k + 1;
    }
    assert(s@.subrange(i as int, i + m as int) =~= tok@);
    true
}

/// The parts of `s` from position `i` on, split on the separator `sep`.
/// Every separator separates two parts, so a trailing separator yields a
/// final empty part.
pub open spec fn split_on_from(s: Seq<char>, sep: char, i: int) -> Seq<Seq<char>>
    decreases s.len() - i,
    via split_on_from_dec
{
    if i < 0 || i > s.len() {
        Seq::empty()
    } else {
        let k = find_char(s, sep, i);
        if k < 0 {
            seq![s.subrange(i, s.len() as int)]
        } else {
            seq![s.subrange(i, k)] + split_on_from(s, sep, k + 1)
        }
    }
}

#[via_fn]
proof fn split_on_from_dec(s: Seq<char>, sep: char, i: int) {
    if 0 <= i <= s.len() {
        lemma_find_char_bounds(s, sep, i);
    }
}

/// The lines of `s`: its parts between newline characters.
pub open spec fn spec_lines(s: Seq<char>) -> Seq<Seq<char>> {
    split_on_from(s, '\n', 0)
}

pub fn split_on(s: &str, sep: char) -> (r: Vec<String>)
    ensures
        r.deep_view() == split_on_from(s@, sep, 0),
{
    let cs = chars_of(s);
    let n = cs.len();
    let mut out: Vec<String> = Vec::new();
    let mut pos: usize = 0;
    loop
        invariant_except_break
            pos <= n,
            n == s@.len(),
            cs@ == s@,
            split_on_from(s@, sep, 0) == out.deep_view() + split_on_from(s@, sep, pos as int),
        ensures
            out.deep_view() == split_on_from(s@, sep, 0),
        decreases n - pos,
    {
        let ghost before = out.deep_view();
        match index_of_char(&cs, sep, pos) {
            Some(k) => {
                proof {
                    lemma_find_char_bounds(s@, sep, pos as int);
                }
                out.push(s.substring_char(pos, k).to_owned());
                proof {
                    assert(out.deep_view() =~= before.push(s@.subrange(pos as int, k as int)));
                    assert(before + split_on_from(s@, sep, pos as int) =~= out.deep_view()
                        + split_on_from(s@, sep, k + 1));
                }
                pos = k + 1;
            },
            None => {
                out.push(s.substring_char(pos, n).to_owned());
                proof {
                    assert(out.deep_view() =~= before.push(
                        s@.subrange(pos as int, s@.len() as int),
                    ));
                    assert(before + split_on_from(s@, sep, pos as int) =~= out.deep_view());
                }
                break ;
            },
        }
    }
    out
}

pub fn split_lines(s: &str) -> (r: Vec<String>)
    ensures
        r.deep_view() == spec_lines(s@),
{
    split_on(s, '\n')
}

/// The view of an optional borrowed string.
pub open spec fn opt_content(c: Option<&String>) -> Option<Seq<char>> {
    match c {
        Some(s) => Some(s@),
        None => None,
    }
}

/// Equality of two strings, stated over their character sequences.
pub fn str_eq(a: &str, b: &str) -> (r: bool)
    ensures
        r == (a@ == b@),
{
    let na = a.unicode_len();
    let nb = b.unicode_len();
    if na != nb {
        assert(a@ != b@);
        return false;
    }
    let mut i: usize = 0;
    while i < na
        invariant
            i <= na,
            na == a@.len(),
            na == b@.len(),
            forall|j: int| 0 <= j < i ==> a@[j] == b@[j],
        decreases na - i,
    {
        if a.get_char(i) != b.get_char(i) {
            return false;
        }
        i = i + 1;
    }
    assert(a@ =~= b@);
    true
}

} // verus!
