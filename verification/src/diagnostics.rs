//! Parsing the type checker's diagnostic lines. A diagnostic for an
//! unused import names a TypeScript file and a position, as in
//! `src/file.ts(1,8): error ...`; from the named source line the unused
//! import's module specifier is then recovered.

use vstd::prelude::*;

use crate::names::refers_to;
use crate::scanner::{quoted_at, quoted_spec, quoted_span_at};
use crate::text::{chars_of, has_token_at, skip_spaces, skip_spaces_from, token_at};
use vstd::string::StrSliceExecFns;

verus! {

pub open spec fn is_digit(c: char) -> bool {
    '0' as u32 <= c as u32 && c as u32 <= '9' as u32
}

pub fn digit_char(c: char) -> (b: bool)
    ensures
        b == is_digit(c),
{
    let u = c as u32;
    '0' as u32 <= u && u <= '9' as u32
}

/// Position of the first character at or after `i` that is not a decimal
/// digit, clamped to the length of `s`.
pub open spec fn skip_digits(s: Seq<char>, i: int) -> int
    decreases s.len() - i,
{
    if 0 <= i && i < s.len() && is_digit(s[i]) {
        skip_digits(s, i + 1)
    } else {
        i
    }
}

pub proof fn lemma_skip_digits_bounds(s: Seq<char>, i: int)
    requires
        0 <= i <= s.len(),
    ensures
        i <= skip_digits(s, i) <= s.len(),
        forall|j: int| i <= j < skip_digits(s, i) ==> is_digit(s[j]),
    decreases s.len() - i,
{
    if i < s.len() && is_digit(s[i]) {
        lemma_skip_digits_bounds(s, i + 1);
    }
}

pub fn skip_digits_from(s: &Vec<char>, i: usize) -> (r: usize)
    requires
        i <= s@.len(),
    ensures
        r == skip_digits(s@, i as int),
        i <= r <= s@.len(),
{
    let n = s.len();
    let mut j: usize = i;
    while j < n && digit_char(s[j])
        invariant
            i <= j <= n,
            n == s@.len(),
            skip_digits(s@, i as int) == skip_digits(s@, j as int),
        decreases n - j,
    {
        j = j + 1;
    }
    j
}

/// The decimal value of the digits of `s` between `a` and `b`.
pub open spec fn digits_value(s: Seq<char>, a: int, b: int) -> int
    decreases b - a,
{
    if a >= b {
        0
    } else {
        10 * digits_value(s, a, b - 1) + (s[b - 1] as u32 - 48)
    }
}

pub proof fn lemma_digits_value_bounds(s: Seq<char>, a: int, b: int)
    requires
        forall|j: int| a <= j < b ==> 0 <= #[trigger] s[j] as u32 - 48 <= 9,
    ensures
        0 <= digits_value(s, a, b),
        b - a == 1 ==> digits_value(s, a, b) <= 9,
        b - a == 2 ==> digits_value(s, a, b) <= 99,
        b - a == 3 ==> digits_value(s, a, b) <= 999,
        b - a == 4 ==> digits_value(s, a, b) <= 9999,
        b - a == 5 ==> digits_value(s, a, b) <= 99999,
        b - a == 6 ==> digits_value(s, a, b) <= 999999,
        b - a == 7 ==> digits_value(s, a, b) <= 9999999,
        b - a == 8 ==> digits_value(s, a, b) <= 99999999,
        b - a == 9 ==> digits_value(s, a, b) <= 999999999,
    decreases b - a,
{
    if a < b {
        lemma_digits_value_bounds(s, a, b - 1);
    }
}

/// Reads the decimal value of a digit run of at most nine digits.
fn parse_digits(s: &Vec<char>, a: usize, b: usize) -> (r: usize)
    requires
        a <= b <= s@.len(),
        b - a <= 9,
        forall|j: int| a <= j < b ==> is_digit(s@[j]),
    ensures
        r as int == digits_value(s@, a as int, b as int),
{
    proof {
        assert(forall|j: int| a <= j < b ==> 0 <= #[trigger] s@[j] as u32 - 48 <= 9);
    }
    let mut acc: usize = 0;
    let mut i: usize = a;
    while i < b
        invariant
            a <= i <= b <= s@.len(),
            b - a <= 9,
            forall|j: int| a <= j < b ==> 0 <= #[trigger] s@[j] as u32 - 48 <= 9,
            acc as int == digits_value(s@, a as int, i as int),
            acc <= 999999999,
        decreases b - i,
    {
        proof {
            lemma_digits_value_bounds(s@, a as int, i as int);
            lemma_digits_value_bounds(s@, a as int, i + 1);
        }
        let d = (s[i] as u32 as usize) - 48;
        acc = acc * 10 + d;
        i = i + 1;
    }
    acc
}

/// Whether the prefix of `s` ending at `k` ends in a TypeScript source
/// file extension.
pub open spec fn ts_file_ends_at(s: Seq<char>, k: int) -> bool {
    token_at(s, k - ".ts"@.len(), ".ts"@) || token_at(s, k - ".tsx"@.len(), ".tsx"@) || token_at(
        s,
        k - ".cts"@.len(),
        ".cts"@,
    )
}

/// The positional part of a diagnostic at `k`: an opening parenthesis,
/// a line number of one to nine digits, a comma, a column number, and a
/// closing parenthesis.
pub open spec fn diag_position_at(s: Seq<char>, k: int) -> bool {
    &&& 0 <= k < s.len() && s[k] == '('
    &&& {
        let d1 = skip_digits(s, k + 1);
        &&& k + 1 < d1 <= k + 10
        &&& d1 < s.len() && s[d1] == ','
        &&& {
            let d2 = skip_digits(s, d1 + 1);
            &&& d1 + 1 < d2
            &&& d2 < s.len() && s[d2] == ')'
        }
    }
}

/// A split point of a diagnostic line: the file path ends here in a
/// TypeScript extension and the position in parentheses follows.
pub open spec fn diag_split_at(s: Seq<char>, k: int) -> bool {
    ts_file_ends_at(s, k) && diag_position_at(s, k)
}

/// The greatest split point at or below `k`, or `-1` if there is none.
pub open spec fn last_diag_split(s: Seq<char>, k: int) -> int
    decreases k + 1,
{
    if k < 0 {
        -1
    } else if diag_split_at(s, k) {
        k
    } else {
        last_diag_split(s, k - 1)
    }
}

fn ts_ext_ends_at(s: &Vec<char>, k: usize) -> (b: bool)
    requires
        k <= s@.len(),
    ensures
        b == ts_file_ends_at(s@, k as int),
{
    let t1 = chars_of(".ts");
    let t2 = chars_of(".tsx");
    let t3 = chars_of(".cts");
    let mut r = false;
    if k >= t1.len() {
        r = has_token_at(s, k - t1.len(), &t1);
    }
    if !r && k >= t2.len() {
        r = has_token_at(s, k - t2.len(), &t2);
    }
    if !r && k >= t3.len() {
        r = has_token_at(s, k - t3.len(), &t3);
    }
    r
}

fn check_diag_split_at(s: &Vec<char>, k: usize) -> (b: bool)
    requires
        k <= s@.len(),
    ensures
        b == diag_split_at(s@, k as int),
{
    if !ts_ext_ends_at(s, k) {
        return false;
    }
    if k == s.len() || s[k] != '(' {
        return false;
    }
    let d1 = skip_digits_from(s, k + 1);
    if !(k + 1 < d1 && d1 - (k + 1) <= 9) {
        return false;
    }
    if d1 == s.len() || s[d1] != ',' {
        return false;
    }
    let d2 = skip_digits_from(s, d1 + 1);
    if !(d1 + 1 < d2) {
        return false;
    }
    d2 < s.len() && s[d2] == ')'
}

/// What a diagnostic line yields: the file path before the rightmost
/// split point, and the line number inside the parentheses.
pub open spec fn diag_file_and_line(s: Seq<char>) -> Option<(Seq<char>, int)> {
    let k = last_diag_split(s, s.len() - 1);
    if k >= 0 {
        Some((s.subrange(0, k), digits_value(s, k + 1, skip_digits(s, k + 1))))
    } else {
        None
    }
}

/// The file path and one-based line number named by a type checker
/// diagnostic, split at the rightmost TypeScript-extension-and-position
/// point of the line.
pub fn extract_file_and_line(diagnostic: &str) -> (r: Option<(String, usize)>)
    ensures
        match (r, diag_file_and_line(diagnostic@)) {
            (Some(v), Some(d)) => v.0@ == d.0 && v.1 as int == d.1,
            (None, None) => true,
            _ => false,
        },
{
    let cs = chars_of(diagnostic);
    let n = cs.len();
    let mut k: usize = n;
    while k > 0
        invariant
            k <= n,
            n == diagnostic@.len(),
            cs@ == diagnostic@,
            last_diag_split(diagnostic@, n as int - 1) == last_diag_split(
                diagnostic@,
                k as int - 1,
            ),
        decreases k,
    {
        if check_diag_split_at(&cs, k - 1) {
            let split = k - 1;
            let d1 = skip_digits_from(&cs, split + 1);
            proof {
                lemma_skip_digits_bounds(diagnostic@, split + 1);
            }
            let line = parse_digits(&cs, split + 1, d1);
            let file = diagnostic.substring_char(0, split).to_owned();
            return Some((file, line));
        }
        k = k - 1;
    }
    None
}

/// The module specifier of an import statement: the first quoted span
/// after the leading `import` keyword.
pub open spec fn first_quoted(s: Seq<char>, i: int) -> int
    decreases s.len() - i,
{
    if i < 0 || i >= s.len() {
        -1
    } else if quoted_at(s, i) {
        i
    } else {
        first_quoted(s, i + 1)
    }
}

pub open spec fn import_specifier(s: Seq<char>) -> Option<Seq<char>> {
    let p = skip_spaces(s, 0);
    if token_at(s, p, "import"@) {
        let q = first_quoted(s, p + "import"@.len());
        if q >= 0 {
            Some(quoted_spec(s, q))
        } else {
            None
        }
    } else {
        None
    }
}

/// The quoted module specifier of a source line that is an import
/// statement, in any of its forms: the first quoted span after the
/// keyword.
pub fn import_line_specifier(line: &str) -> (r: Option<String>)
    ensures
        match (r, import_specifier(line@)) {
            (Some(a), Some(b)) => a@ == b,
            (None, None) => true,
            _ => false,
        },
{
    let cs = chars_of(line);
    let n = cs.len();
    let p = skip_spaces_from(&cs, 0);
    let kw = chars_of("import");
    if !has_token_at(&cs, p, &kw) {
        return None;
    }
    let mut i: usize = p + kw.len();
    while i < n
        invariant
            i <= n,
            n == line@.len(),
            cs@ == line@,
            p == skip_spaces(line@, 0),
            kw@ == "import"@,
            token_at(line@, p as int, "import"@),
            first_quoted(line@, p + kw@.len()) == first_quoted(line@, i as int),
        decreases n - i,
    {
        match quoted_span_at(&cs, i) {
            Some(e) => {
                proof {
                    assert(quoted_at(line@, i as int));
                    assert(first_quoted(line@, i as int) == i as int);
                    assert(first_quoted(line@, skip_spaces(line@, 0) + "import"@.len())
                        == i as int);
                    assert(import_specifier(line@) == Some(quoted_spec(line@, i as int)));
                    assert(quoted_spec(line@, i as int) == line@.subrange(
                        i as int + 1,
                        e as int,
                    ));
                }
                return Some(line.substring_char(i + 1, e).to_owned());
            },
            None => {},
        }
        i = i + 1;
    }
    assert(first_quoted(line@, n as int) == -1);
    None
}

/// The first declared dependency a module specifier refers to.
pub open spec fn matching_dependency(spec_name: Seq<char>, deps: Seq<Seq<char>>) -> Option<
    Seq<char>,
>
    decreases deps.len(),
{
    if deps.len() == 0 {
        None
    } else if refers_to(spec_name, deps[0]) {
        Some(deps[0])
    } else {
        matching_dependency(spec_name, deps.drop_first())
    }
}

pub fn dependency_for_specifier(spec_name: &str, deps: &Vec<String>) -> (r: Option<String>)
    ensures
        match (r, matching_dependency(spec_name@, deps.deep_view())) {
            (Some(a), Some(b)) => a@ == b,
            (None, None) => true,
            _ => false,
        },
{
    let sc = chars_of(spec_name);
    let n = deps.len();
    let ghost ds = deps.deep_view();
    let mut i: usize = 0;
    proof {
        assert(ds.skip(0) =~= ds);
    }
    while i < n
        invariant
            i <= n,
            n == deps@.len(),
            ds == deps.deep_view(),
            sc@ == spec_name@,
            matching_dependency(spec_name@, ds) == matching_dependency(
                spec_name@,
                ds.skip(i as int),
            ),
        decreases n - i,
    {
        proof {
            assert(ds.skip(i as int).drop_first() =~= ds.skip(i + 1));
            assert(ds.skip(i as int)[0] == ds[i as int]);
        }
        let dc = chars_of(deps[i].as_str());
        if crate::names::specifier_refers_to(&sc, &dc) {
            return Some(deps[i].clone());
        }
        i = i + 1;
    }
    None
}

/// The dependency whose import a diagnosed source line declares: the
/// line's module specifier resolved against the declared dependencies.
pub fn unused_import_dependency(line: &str, deps: &Vec<String>) -> (r: Option<String>)
    ensures
        match import_specifier(line@) {
            None => r is None,
            Some(sp) => match (r, matching_dependency(sp, deps.deep_view())) {
                (Some(a), Some(b)) => a@ == b,
                (None, None) => true,
                _ => false,
            },
        },
{
    match import_line_specifier(line) {
        None => None,
        Some(sp) => dependency_for_specifier(sp.as_str(), deps),
    }
}

} // verus!
