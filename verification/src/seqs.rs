//! Small sequence lemmas shared by the managers' retain passes.

use vstd::prelude::*;

verus! {

/// Filtering a sequence extended by one element keeps the element
/// exactly when the predicate holds of it.
pub proof fn lemma_filter_push<A>(s: Seq<A>, x: A, pred: spec_fn(A) -> bool)
    ensures
        s.push(x).filter(pred) == (if pred(x) {
            s.filter(pred).push(x)
        } else {
            s.filter(pred)
        }),
{
    reveal(Seq::filter);
    assert(s.push(x).drop_last() =~= s);
    assert(s.push(x).last() == x);
}

/// A property holding of every element of a sequence still holds of
/// every element after filtering.
pub proof fn lemma_filter_preserves_all<A>(
    s: Seq<A>,
    pred: spec_fn(A) -> bool,
    prop: spec_fn(A) -> bool,
)
    requires
        forall|i: int| 0 <= i < s.len() ==> prop(#[trigger] s[i]),
    ensures
        forall|i: int|
            0 <= i < s.filter(pred).len() ==> prop(#[trigger] s.filter(pred)[i]),
    decreases s.len(),
{
    reveal(Seq::filter);
    if s.len() > 0 {
        let sub = s.drop_last();
        assert(forall|i: int| 0 <= i < sub.len() ==> prop(#[trigger] sub[i]));
        lemma_filter_preserves_all(sub, pred, prop);
        let subf = sub.filter(pred);
        if pred(s.last()) {
            assert(s.filter(pred) == subf.push(s.last()));
            assert forall|i: int| 0 <= i < s.filter(pred).len() implies prop(
                #[trigger] s.filter(pred)[i],
            ) by {
                if i < subf.len() {
                    assert(prop(subf[i]));
                } else {
                    assert(s.filter(pred)[i] == s.last());
                    assert(prop(s.last()));
                }
            }
        } else {
            assert(s.filter(pred) == subf);
        }
    }
}

/// Two equally long sequences on which a predicate agrees pointwise
/// have filtered sequences of the same length.
pub proof fn lemma_filter_len_pointwise<A>(s1: Seq<A>, s2: Seq<A>, pred: spec_fn(A) -> bool)
    requires
        s1.len() == s2.len(),
        forall|i: int| 0 <= i < s1.len() ==> pred(#[trigger] s1[i]) == pred(s2[i]),
    ensures
        s1.filter(pred).len() == s2.filter(pred).len(),
    decreases s1.len(),
{
    reveal(Seq::filter);
    if s1.len() > 0 {
        assert(forall|i: int|
            0 <= i < s1.len() - 1 ==> pred(#[trigger] s1.drop_last()[i]) == pred(
                s2.drop_last()[i],
            ));
        lemma_filter_len_pointwise(s1.drop_last(), s2.drop_last(), pred);
        assert(pred(s1.last()) == pred(s2.last()));
    }
}

/// A filter by a predicate that holds nowhere keeps nothing.
pub proof fn lemma_filter_none<A>(s: Seq<A>, pred: spec_fn(A) -> bool)
    requires
        forall|i: int| 0 <= i < s.len() ==> !pred(#[trigger] s[i]),
    ensures
        s.filter(pred).len() == 0,
    decreases s.len(),
{
    reveal(Seq::filter);
    if s.len() > 0 {
        assert(forall|i: int| 0 <= i < s.len() - 1 ==> !pred(#[trigger] s.drop_last()[i]));
        lemma_filter_none(s.drop_last(), pred);
        assert(!pred(s.last()));
    }
}

/// A filter by a predicate that holds at exactly one index keeps
/// exactly one element.
pub proof fn lemma_filter_single<A>(s: Seq<A>, pred: spec_fn(A) -> bool, i: int)
    requires
        0 <= i < s.len(),
        pred(s[i]),
        forall|j: int| 0 <= j < s.len() && j != i ==> !pred(#[trigger] s[j]),
    ensures
        s.filter(pred).len() == 1,
    decreases s.len(),
{
    reveal(Seq::filter);
    if i == s.len() - 1 {
        assert(forall|j: int| 0 <= j < s.len() - 1 ==> !pred(#[trigger] s.drop_last()[j]));
        lemma_filter_none(s.drop_last(), pred);
        assert(pred(s.last()));
    } else {
        assert(forall|j: int|
            0 <= j < s.len() - 1 && j != i ==> !pred(#[trigger] s.drop_last()[j]));
        lemma_filter_single(s.drop_last(), pred, i);
        assert(!pred(s.last()));
    }
}

/// Mapping over a sequence extended by one element appends the image
/// of that element.
pub proof fn lemma_map_push<A, B>(s: Seq<A>, x: A, f: spec_fn(A) -> B)
    ensures
        s.push(x).map_values(f) == s.map_values(f).push(f(x)),
{
    assert(s.push(x).map_values(f) =~= s.map_values(f).push(f(x)));
}

} // verus!
