//! Intrinsic combining capability: the value type itself supplies the
//! identity element and the associative combine, so each value type carries at
//! most one combining strategy.
use vstd::prelude::*;
use vstd::wrapping::i32_specs;

verus! {

/// An intrinsic combining capability: the implementing type is its own
/// witness for an identity element (`mzero`) and a binary combine
/// (`mappend`), described at the spec level over the deep views of the
/// values.
///
/// Every implementation must prove the monoid laws: the identity element is
/// neutral on both sides of the combine, and the combine is associative.
pub trait Monoidal: DeepView + Sized {
    /// The identity element, as a view-level value.
    spec fn spec_mzero() -> Self::V;

    /// The combine operation, as a view-level function.
    spec fn spec_mappend(a: Self::V, b: Self::V) -> Self::V;

    /// Law: the identity element is neutral on the left and on the right.
    proof fn lemma_identity(x: Self::V)
        ensures
            Self::spec_mappend(Self::spec_mzero(), x) == x,
            Self::spec_mappend(x, Self::spec_mzero()) == x,
    ;

    /// Law: the combine operation is associative.
    proof fn lemma_associative(a: Self::V, b: Self::V, c: Self::V)
        ensures
            Self::spec_mappend(Self::spec_mappend(a, b), c) == Self::spec_mappend(
                a,
                Self::spec_mappend(b, c),
            ),
    ;

    /// Produces the identity element.
    fn mzero() -> (r: Self)
        ensures
            r.deep_view() == Self::spec_mzero(),
    ;

    /// Combines two values, `self` first.
    fn mappend(&self, b: &Self) -> (r: Self)
        ensures
            r.deep_view() == Self::spec_mappend(self.deep_view(), b.deep_view()),
    ;
}

/// The left-to-right fold of a sequence of view-level values under the
/// capability carried by `A`: the empty sequence folds to the identity
/// element, and otherwise each element in turn is combined into the
/// accumulator.
pub open spec fn spec_reduce<A: Monoidal>(s: Seq<A::V>) -> A::V
    decreases s.len(),
{
    if s.len() == 0 {
        A::spec_mzero()
    } else {
        A::spec_mappend(spec_reduce::<A>(s.drop_last()), s.last())
    }
}

/// Folds the values left to right under the capability carried by their type,
/// starting from the identity element. The sequence is consumed once; an
/// empty sequence is a valid input and yields the identity element.
pub fn reduce<A: Monoidal>(vs: Vec<A>) -> (r: A)
    ensures
        r.deep_view() == spec_reduce::<A>(vs.deep_view()),
{
    let mut result = A::mzero();
    let mut i: usize = 0;
    while i < vs.len()
        invariant
            i <= vs.len(),
            result.deep_view() == spec_reduce::<A>(vs.deep_view().take(i as int)),
        decreases vs.len() - i,
    {
        result = result.mappend(&vs[i]);
        i = i + 1;
        proof {
            let dv = vs.deep_view();
            assert(dv.take(i as int).drop_last() =~= dv.take(i as int - 1));
            assert(dv.take(i as int).last() == dv[i as int - 1]);
        }
    }
    proof {
        assert(vs.deep_view().take(vs.len() as int) =~= vs.deep_view());
    }
    result
}

/// Law: reducing the empty sequence yields the identity element.
pub proof fn lemma_reduce_empty<A: Monoidal>()
    ensures
        spec_reduce::<A>(Seq::empty()) == A::spec_mzero(),
{
}

/// Law: reducing a one-element sequence yields that element unchanged.
pub proof fn lemma_reduce_singleton<A: Monoidal>(x: A::V)
    ensures
        spec_reduce::<A>(seq![x]) == x,
{
    assert(seq![x].drop_last() =~= Seq::<A::V>::empty());
    assert(spec_reduce::<A>(Seq::<A::V>::empty()) == A::spec_mzero());
    assert(spec_reduce::<A>(seq![x]) == A::spec_mappend(A::spec_mzero(), x));
    A::lemma_identity(x);
}

/// Law: reducing a two-element sequence combines the elements in sequence
/// order, left operand first. For a combine that is not commutative, swapping
/// the two elements can therefore change the result.
pub proof fn lemma_reduce_pair<A: Monoidal>(a: A::V, b: A::V)
    ensures
        spec_reduce::<A>(seq![a, b]) == A::spec_mappend(a, b),
{
    assert(seq![a, b].drop_last() =~= seq![a]);
    lemma_reduce_singleton::<A>(a);
}

/// `i32` carries addition, wrapping on overflow, as its intrinsic combining
/// capability; the identity element is `0`.
impl Monoidal for i32 {
    open spec fn spec_mzero() -> i32 {
        0i32
    }

    open spec fn spec_mappend(a: i32, b: i32) -> i32 {
        i32_specs::wrapping_add(a, b)
    }

    proof fn lemma_identity(x: i32) {
    }

    proof fn lemma_associative(a: i32, b: i32, c: i32) {
    }

    fn mzero() -> i32 {
        0
    }

    fn mappend(&self, b: &i32) -> i32 {
        self.wrapping_add(*b)
    }
}

} // verus!
