//! First-match lookup over a sequence of rows, the way the stores answer
//! queries: the earliest row satisfying a predicate, if any.

use vstd::prelude::*;

verus! {

/// The first element of `s` satisfying `p`, or `None` when no element does.
pub open spec fn first_match<T>(s: Seq<T>, p: spec_fn(T) -> bool) -> Option<T>
    decreases s.len(),
{
    if s.len() == 0 {
        None
    } else if p(s[0]) {
        Some(s[0])
    } else {
        first_match(s.drop_first(), p)
    }
}

/// `first_match` finds nothing exactly when no element satisfies the
/// predicate.
pub proof fn lemma_first_match_none<T>(s: Seq<T>, p: spec_fn(T) -> bool)
    ensures
        (first_match(s, p) is None) <==> (forall|i: int| 0 <= i < s.len() ==> !p(#[trigger] s[i])),
    decreases s.len(),
{
    if s.len() > 0 {
        lemma_first_match_none(s.drop_first(), p);
        if first_match(s, p) is None {
            assert forall|i: int| 0 <= i < s.len() implies !p(#[trigger] s[i]) by {
                if i > 0 {
                    assert(s.drop_first()[i - 1] == s[i]);
                }
            }
        } else {
            if !p(s[0]) {
                let j = choose|j: int| 0 <= j < s.drop_first().len() && p(s.drop_first()[j]);
                if first_match(s.drop_first(), p) is Some {
                    assert(s[j + 1] == s.drop_first()[j]);
                }
            }
        }
    }
}

/// What a found row satisfies: the predicate itself, membership, and that no
/// earlier row matches.
pub proof fn lemma_first_match_some<T>(s: Seq<T>, p: spec_fn(T) -> bool, t: T)
    requires
        first_match(s, p) == Some(t),
    ensures
        p(t),
        s.contains(t),
    decreases s.len(),
{
    if s.len() > 0 {
        if p(s[0]) {
            assert(s[0] == t);
        } else {
            lemma_first_match_some(s.drop_first(), p, t);
            let j = choose|j: int| 0 <= j < s.drop_first().len() && s.drop_first()[j] == t;
            assert(s[j + 1] == t);
        }
    }
}

/// Skipping a non-matching head row does not change the answer; the step a
/// scanning loop takes.
pub proof fn lemma_first_match_skip<T>(s: Seq<T>, p: spec_fn(T) -> bool, i: int)
    requires
        0 <= i < s.len(),
        !p(s[i]),
    ensures
        first_match(s.skip(i), p) == first_match(s.skip(i + 1), p),
{
    assert(s.skip(i)[0] == s[i]);
    assert(s.skip(i).drop_first() =~= s.skip(i + 1));
}

/// A matching row at the scan position is the answer for the rest of the
/// sequence.
pub proof fn lemma_first_match_here<T>(s: Seq<T>, p: spec_fn(T) -> bool, i: int)
    requires
        0 <= i < s.len(),
        p(s[i]),
    ensures
        first_match(s.skip(i), p) == Some(s[i]),
{
    assert(s.skip(i)[0] == s[i]);
}

/// Every element of a filtered sequence comes from the sequence itself.
pub proof fn lemma_filter_elem<T>(s: Seq<T>, p: spec_fn(T) -> bool, i: int)
    requires
        0 <= i < s.filter(p).len(),
    ensures
        s.contains(s.filter(p)[i]),
    decreases s.len(),
{
    reveal(Seq::filter);
    if s.len() > 0 {
        let rest = s.drop_last().filter(p);
        if i < rest.len() {
            lemma_filter_elem(s.drop_last(), p, i);
            let j = choose|j: int| 0 <= j < s.drop_last().len() && s.drop_last()[j] == rest[i];
            assert(s[j] == rest[i]);
        } else {
            assert(s[s.len() - 1] == s.filter(p)[i]);
        }
    }
}

/// Filtering keeps a key column free of duplicates.
pub proof fn lemma_filter_distinct_by_key<T>(s: Seq<T>, p: spec_fn(T) -> bool, key: spec_fn(T) -> i64)
    requires
        forall|i: int, j: int| 0 <= i < j < s.len() ==> key(s[i]) != key(s[j]),
    ensures
        forall|i: int, j: int|
            0 <= i < j < s.filter(p).len() ==> key(#[trigger] s.filter(p)[i]) != key(
                #[trigger] s.filter(p)[j],
            ),
    decreases s.len(),
{
    reveal(Seq::filter);
    if s.len() > 0 {
        let prior = s.drop_last();
        assert(forall|i: int| 0 <= i < prior.len() ==> prior[i] == s[i]);
        lemma_filter_distinct_by_key(prior, p, key);
        let f = s.filter(p);
        let fd = prior.filter(p);
        if p(s.last()) {
            assert forall|i: int, j: int| 0 <= i < j < f.len() implies key(#[trigger] f[i]) != key(
                #[trigger] f[j],
            ) by {
                if j < fd.len() {
                } else {
                    assert(f[j] == s.last());
                    lemma_filter_elem(prior, p, i);
                    let k = choose|k: int| 0 <= k < prior.len() && prior[k] == fd[i];
                    assert(s[k] == f[i]);
                    assert(key(s[k]) != key(s[s.len() - 1]));
                }
            }
        }
    }
}

} // verus!
