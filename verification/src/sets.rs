//! Sets of dependency names, represented as vectors of strings and
//! specified over sequences of character sequences, together with the
//! subtraction that yields the unused set.

use vstd::prelude::*;

use crate::text::str_eq;
use vstd::seq_lib::lemma_seq_contains_after_push;

verus! {

/// Membership of a name in a list of names.
pub fn names_contain(v: &Vec<String>, x: &str) -> (b: bool)
    ensures
        b == v.deep_view().contains(x@),
{
    let n = v.len();
    let mut i: usize = 0;
    while i < n
        invariant
            i <= n,
            n == v@.len(),
            forall|j: int| 0 <= j < i ==> v.deep_view()[j] != x@,
        decreases n - i,
    {
        if str_eq(v[i].as_str(), x) {
            assert(v.deep_view()[i as int] == x@);
            return true;
        }
        i = i + 1;
    }
    assert(forall|j: int| 0 <= j < v.deep_view().len() ==> v.deep_view()[j] != x@);
    false
}

/// The same list of names with later repetitions of a name removed.
pub open spec fn dedup_names(s: Seq<Seq<char>>) -> Seq<Seq<char>>
    decreases s.len(),
{
    if s.len() == 0 {
        Seq::empty()
    } else {
        let prefix = dedup_names(s.drop_last());
        if prefix.contains(s.last()) {
            prefix
        } else {
            prefix.push(s.last())
        }
    }
}

/// Deduplication keeps membership unchanged.
pub proof fn lemma_dedup_names_membership(s: Seq<Seq<char>>)
    ensures
        forall|x: Seq<char>| dedup_names(s).contains(x) <==> s.contains(x),
    decreases s.len(),
{
    broadcast use lemma_seq_contains_after_push;

    if s.len() == 0 {
    } else {
        lemma_dedup_names_membership(s.drop_last());
        assert forall|x: Seq<char>| s.contains(x) implies dedup_names(s).contains(x) by {
            let i = choose|i: int| 0 <= i < s.len() && s[i] == x;
            if i < s.len() - 1 {
                assert(s.drop_last().contains(x)) by {
                    assert(s.drop_last()[i] == x);
                }
            } else {
                assert(s.last() == x);
            }
        }
        assert forall|x: Seq<char>| dedup_names(s).contains(x) implies s.contains(x) by {
            if s.drop_last().contains(x) {
                let i = choose|i: int| 0 <= i < s.drop_last().len() && s.drop_last()[i] == x;
                assert(s[i] == x);
            } else if x == s.last() {
                assert(s[s.len() - 1] == x);
            }
        }
    }
}

pub fn dedup(v: &Vec<String>) -> (r: Vec<String>)
    ensures
        r.deep_view() == dedup_names(v.deep_view()),
{
    let n = v.len();
    let mut out: Vec<String> = Vec::new();
    let mut i: usize = 0;
    assert(out.deep_view() =~= dedup_names(v.deep_view().take(0)));
    while i < n
        invariant
            i <= n,
            n == v@.len(),
            out.deep_view() == dedup_names(v.deep_view().take(i as int)),
        decreases n - i,
    {
        let ghost t = v.deep_view();
        proof {
            assert(t.take(i + 1).drop_last() =~= t.take(i as int));
            assert(t.take(i + 1).last() == t[i as int]);
        }
        if !names_contain(&out, v[i].as_str()) {
            let ghost before = out.deep_view();
            out.push(v[i].clone());
            proof {
                assert(out.deep_view() =~= before.push(t[i as int]));
            }
        }
        i = i + 1;
    }
    proof {
        assert(v.deep_view().take(n as int) =~= v.deep_view());
    }
    out
}

/// No name occurs twice.
pub open spec fn unique_names(s: Seq<Seq<char>>) -> bool {
    forall|i: int, j: int| 0 <= i < j < s.len() ==> s[i] != s[j]
}

pub proof fn lemma_dedup_names_unique(s: Seq<Seq<char>>)
    ensures
        unique_names(dedup_names(s)),
    decreases s.len(),
{
    if s.len() > 0 {
        lemma_dedup_names_unique(s.drop_last());
        let prefix = dedup_names(s.drop_last());
        if !prefix.contains(s.last()) {
            let out = prefix.push(s.last());
            assert forall|i: int, j: int| 0 <= i < j < out.len() implies out[i] != out[j] by {
                if j == out.len() - 1 {
                    assert(out[i] == prefix[i]);
                    if prefix[i] == s.last() {
                        assert(prefix.contains(s.last()));
                    }
                }
            }
        }
    }
}

pub proof fn lemma_dedup_names_identity(s: Seq<Seq<char>>)
    requires
        unique_names(s),
    ensures
        dedup_names(s) == s,
    decreases s.len(),
{
    if s.len() == 0 {
        assert(dedup_names(s) =~= s);
    } else {
        assert(unique_names(s.drop_last())) by {
            assert(forall|i: int, j: int|
                0 <= i < j < s.drop_last().len() ==> s.drop_last()[i] == s[i] && s.drop_last()[j]
                    == s[j]);
        }
        lemma_dedup_names_identity(s.drop_last());
        if s.drop_last().contains(s.last()) {
            let i = choose|i: int|
                0 <= i < s.drop_last().len() && s.drop_last()[i] == s.last();
            assert(s[i] == s[s.len() - 1]);
            assert(false);
        }
        assert(dedup_names(s) =~= s);
    }
}

/// Appends to `dst` the names of `src` it does not already hold, in order.
pub fn merge_names(dst: &mut Vec<String>, src: &Vec<String>)
    requires
        unique_names(old(dst).deep_view()),
    ensures
        final(dst).deep_view() == dedup_names(old(dst).deep_view() + src.deep_view()),
        unique_names(final(dst).deep_view()),
{
    let n = src.len();
    let ghost base = dst.deep_view();
    let ghost t = src.deep_view();
    let mut i: usize = 0;
    proof {
        lemma_dedup_names_identity(base);
        assert(base + t.take(0) =~= base);
    }
    while i < n
        invariant
            i <= n,
            n == src@.len(),
            t == src.deep_view(),
            dst.deep_view() == dedup_names(base + t.take(i as int)),
        decreases n - i,
    {
        proof {
            assert((base + t.take(i + 1)).drop_last() =~= base + t.take(i as int));
            assert((base + t.take(i + 1)).last() == t[i as int]);
        }
        if !names_contain(dst, src[i].as_str()) {
            let ghost before = dst.deep_view();
            dst.push(src[i].clone());
            proof {
                assert(dst.deep_view() =~= before.push(t[i as int]));
            }
        }
        i = i + 1;
    }
    proof {
        assert(base + t.take(n as int) =~= base + t);
        lemma_dedup_names_unique(base + t);
    }
}

/// The names declared but neither used nor required nor ignored, in the
/// order of their first declaration.
pub open spec fn unused_names(
    declared: Seq<Seq<char>>,
    used: Seq<Seq<char>>,
    required: Seq<Seq<char>>,
    ignored: Seq<Seq<char>>,
) -> Seq<Seq<char>> {
    dedup_names(declared).filter(
        |d: Seq<char>| !used.contains(d) && !required.contains(d) && !ignored.contains(d),
    )
}

/// The unused dependencies among the declared ones: those with no source
/// reference, no lockfile entry and no ignore-list entry.
pub fn compute_unused(
    declared: &Vec<String>,
    used: &Vec<String>,
    required: &Vec<String>,
    ignored: &Vec<String>,
) -> (r: Vec<String>)
    ensures
        r.deep_view() == unused_names(
            declared.deep_view(),
            used.deep_view(),
            required.deep_view(),
            ignored.deep_view(),
        ),
{
    let ghost pred = |d: Seq<char>|
        !used.deep_view().contains(d) && !required.deep_view().contains(d)
            && !ignored.deep_view().contains(d);
    let base = dedup(declared);
    let n = base.len();
    let mut out: Vec<String> = Vec::new();
    let mut i: usize = 0;
    proof {
        reveal_with_fuel(Seq::filter, 1);
        assert(out.deep_view() =~= base.deep_view().take(0).filter(pred));
    }
    while i < n
        invariant
            i <= n,
            n == base@.len(),
            out.deep_view() == base.deep_view().take(i as int).filter(pred),
            pred == (|d: Seq<char>|
                !used.deep_view().contains(d) && !required.deep_view().contains(d)
                    && !ignored.deep_view().contains(d)),
        decreases n - i,
    {
        let ghost t = base.deep_view();
        proof {
            reveal_with_fuel(Seq::filter, 1);
            assert(t.take(i + 1).drop_last() =~= t.take(i as int));
            assert(t.take(i + 1).last() == t[i as int]);
        }
        let keep = !names_contain(used, base[i].as_str()) && !names_contain(
            required,
            base[i].as_str(),
        ) && !names_contain(ignored, base[i].as_str());
        if keep {
            let ghost before = out.deep_view();
            out.push(base[i].clone());
            proof {
                assert(out.deep_view() =~= before.push(t[i as int]));
            }
        }
        i = i + 1;
    }
    proof {
        assert(base.deep_view().take(n as int) =~= base.deep_view());
    }
    out
}

/// Every element of a filtered list of names comes from the list and
/// satisfies the predicate, and conversely.
pub proof fn lemma_filter_names_membership(s: Seq<Seq<char>>, pred: spec_fn(Seq<char>) -> bool)
    ensures
        forall|x: Seq<char>| s.filter(pred).contains(x) <==> s.contains(x) && pred(x),
    decreases s.len(),
{
    broadcast use lemma_seq_contains_after_push;

    reveal_with_fuel(Seq::filter, 1);
    if s.len() == 0 {
    } else {
        lemma_filter_names_membership(s.drop_last(), pred);
        assert(s.drop_last().push(s.last()) =~= s);
        assert forall|x: Seq<char>| s.contains(x) implies s.drop_last().contains(x) || x == s.last()
        by {
            assert(s.drop_last().push(s.last()).contains(x));
        }
        assert forall|x: Seq<char>| s.drop_last().contains(x) implies s.contains(x) by {
            assert(s.drop_last().push(s.last()).contains(x));
        }
        assert(s.contains(s.last())) by {
            assert(s.drop_last().push(s.last()).contains(s.last()));
        }
    }
}

/// The unused set is exactly the declared set minus the used, required and
/// ignored sets, and so it meets none of those three sets.
pub proof fn lemma_unused_partition(
    declared: Seq<Seq<char>>,
    used: Seq<Seq<char>>,
    required: Seq<Seq<char>>,
    ignored: Seq<Seq<char>>,
)
    ensures
        unused_names(declared, used, required, ignored).to_set() =~= declared.to_set().difference(
            used.to_set(),
        ).difference(required.to_set()).difference(ignored.to_set()),
        unused_names(declared, used, required, ignored).to_set().intersect(
            used.to_set().union(required.to_set()).union(ignored.to_set()),
        ) =~= Set::<Seq<char>>::empty(),
{
    let pred = |d: Seq<char>| !used.contains(d) && !required.contains(d) && !ignored.contains(d);
    lemma_dedup_names_membership(declared);
    lemma_filter_names_membership(dedup_names(declared), pred);
}

} // verus!
