//! Facts about filtered sequences.

use vstd::prelude::*;

verus! {

/// Filtering one element more of a sequence keeps what was kept before and
/// adds that element if it passes.
pub proof fn lemma_filter_step<A>(s: Seq<A>, p: spec_fn(A) -> bool, i: int)
    requires
        0 <= i < s.len(),
    ensures
        s.take(i + 1).filter(p) == if p(s[i]) {
            s.take(i).filter(p).push(s[i])
        } else {
            s.take(i).filter(p)
        },
{
    assert(s.take(i + 1) =~= s.take(i).push(s[i]));
    s.take(i).lemma_filter_push(s[i], p);
}

/// A filter that every element passes changes nothing.
pub proof fn lemma_filter_all<A>(s: Seq<A>, p: spec_fn(A) -> bool)
    requires
        forall|k: int| 0 <= k < s.len() ==> p(#[trigger] s[k]),
    ensures
        s.filter(p) == s,
    decreases s.len(),
{
    reveal(Seq::filter);
    if s.len() > 0 {
        lemma_filter_all(s.drop_last(), p);
    }
}

/// A filter that no element passes keeps nothing.
pub proof fn lemma_filter_none<A>(s: Seq<A>, p: spec_fn(A) -> bool)
    requires
        forall|k: int| 0 <= k < s.len() ==> !p(#[trigger] s[k]),
    ensures
        s.filter(p) == Seq::<A>::empty(),
    decreases s.len(),
{
    reveal(Seq::filter);
    if s.len() > 0 {
        lemma_filter_none(s.drop_last(), p);
    }
}

/// A filter that every element passes but the one at `i` removes just that
/// element.
pub proof fn lemma_filter_drops_one<A>(s: Seq<A>, p: spec_fn(A) -> bool, i: int)
    requires
        0 <= i < s.len(),
        !p(s[i]),
        forall|k: int| 0 <= k < s.len() && k != i ==> p(#[trigger] s[k]),
    ensures
        s.filter(p) == s.remove(i),
    decreases s.len(),
{
    reveal(Seq::filter);
    let rest = s.drop_last();
    if i == s.len() - 1 {
        lemma_filter_all(rest, p);
    } else {
        assert(forall|k: int| 0 <= k < rest.len() ==> rest[k] == s[k]);
        lemma_filter_drops_one(rest, p, i);
    }
}

/// `x` stands in `s` somewhere before `y`.
pub open spec fn stands_before<A>(s: Seq<A>, x: A, y: A) -> bool {
    exists|a: int, b: int| 0 <= a < b < s.len() && #[trigger] s[a] == x && #[trigger] s[b] == y
}

/// What a filter keeps came from the sequence that was filtered: every
/// kept element passes the test and stood in that sequence, and the kept
/// elements stand in the order in which they stood before.
pub proof fn lemma_filter_keeps_order<A>(s: Seq<A>, p: spec_fn(A) -> bool)
    ensures
        forall|i: int|
            0 <= i < s.filter(p).len() ==> p(#[trigger] s.filter(p)[i]) && s.contains(
                s.filter(p)[i],
            ),
        forall|i: int, j: int|
            0 <= i < j < s.filter(p).len() ==> stands_before(
                s,
                #[trigger] s.filter(p)[i],
                #[trigger] s.filter(p)[j],
            ),
    decreases s.len(),
{
    reveal(Seq::filter);
    if s.len() > 0 {
        let rest = s.drop_last();
        lemma_filter_keeps_order(rest, p);
        let kept = s.filter(p);
        assert forall|i: int| 0 <= i < kept.len() implies p(#[trigger] kept[i]) && s.contains(
            kept[i],
        ) by {
            if i < rest.filter(p).len() {
                let k = choose|k: int| 0 <= k < rest.len() && rest[k] == rest.filter(p)[i];
                assert(s[k] == kept[i]);
            } else {
                assert(s[s.len() - 1] == kept[i]);
            }
        }
        assert forall|i: int, j: int| 0 <= i < j < kept.len() implies stands_before(
            s,
            #[trigger] kept[i],
            #[trigger] kept[j],
        ) by {
            if j < rest.filter(p).len() {
                let (a, b) = choose|a: int, b: int|
                    0 <= a < b < rest.len() && #[trigger] rest[a] == kept[i] && #[trigger] rest[b]
                        == kept[j];
                assert(s[a] == kept[i] && s[b] == kept[j]);
            } else {
                let a = choose|a: int| 0 <= a < rest.len() && rest[a] == kept[i];
                assert(s[a] == kept[i] && s[s.len() - 1] == kept[j]);
            }
        }
    }
}

/// A filter keeps every element that passes the test.
pub proof fn lemma_filter_keeps_passing<A>(s: Seq<A>, p: spec_fn(A) -> bool)
    ensures
        forall|k: int| 0 <= k < s.len() && p(s[k]) ==> s.filter(p).contains(#[trigger] s[k]),
{
    assert forall|k: int| 0 <= k < s.len() && p(s[k]) implies s.filter(p).contains(
        #[trigger] s[k],
    ) by {
        s.lemma_filter_contains(p, k);
    }
}

} // verus!
