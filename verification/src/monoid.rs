//! Extrinsic combining capability: a separate witness type supplies the
//! identity element and the associative combine for a value type, so several
//! strategies over the same value type can coexist (for example addition and
//! multiplication over `i32`).
use vstd::prelude::*;
use vstd::arithmetic::div_mod::lemma_mod_bound;
use vstd::arithmetic::div_mod::lemma_mod_multiples_vanish;
use vstd::arithmetic::div_mod::lemma_mul_mod_noop_left;
use vstd::arithmetic::div_mod::lemma_mul_mod_noop_right;
use vstd::arithmetic::div_mod::lemma_small_mod;
use vstd::wrapping::i32_specs;

verus! {

/// An extrinsic combining capability for the value type `A`: an identity
/// element (`mzero`) and a binary combine (`mappend`), described at the spec
/// level over the deep views of the values.
///
/// Every implementation must prove the monoid laws: the identity element is
/// neutral on both sides of the combine, and the combine is associative.
/// Commutativity is not required, so the order of the operands matters in
/// general.
pub trait Monoid<A: DeepView> {
    /// The identity element, as a view-level value.
    spec fn spec_mzero() -> A::V;

    /// The combine operation, as a view-level function.
    spec fn spec_mappend(a: A::V, b: A::V) -> A::V;

    /// Law: the identity element is neutral on the left and on the right.
    proof fn lemma_identity(x: A::V)
        ensures
            Self::spec_mappend(Self::spec_mzero(), x) == x,
            Self::spec_mappend(x, Self::spec_mzero()) == x,
    ;

    /// Law: the combine operation is associative.
    proof fn lemma_associative(a: A::V, b: A::V, c: A::V)
        ensures
            Self::spec_mappend(Self::spec_mappend(a, b), c) == Self::spec_mappend(
                a,
                Self::spec_mappend(b, c),
            ),
    ;

    /// Produces the identity element.
    fn mzero() -> (r: A)
        ensures
            r.deep_view() == Self::spec_mzero(),
    ;

    /// Combines two values, left operand first.
    fn mappend(a: &A, b: &A) -> (r: A)
        ensures
            r.deep_view() == Self::spec_mappend(a.deep_view(), b.deep_view()),
    ;
}

/// The left-to-right fold of a sequence of view-level values under the
/// capability `M`: the empty sequence folds to the identity element, and
/// otherwise each element in turn is combined into the accumulator.
pub open spec fn spec_reduce<A: DeepView, M: Monoid<A>>(s: Seq<A::V>) -> A::V
    decreases s.len(),
{
    if s.len() == 0 {
        M::spec_mzero()
    } else {
        M::spec_mappend(spec_reduce::<A, M>(s.drop_last()), s.last())
    }
}

/// Folds the values left to right under the capability `M`, starting from the
/// identity element. The sequence is consumed once; an empty sequence is a
/// valid input and yields the identity element.
pub fn reduce<A: DeepView, M: Monoid<A>>(vs: Vec<A>) -> (r: A)
    ensures
        r.deep_view() == spec_reduce::<A, M>(vs.deep_view()),
{
    let mut result = M::mzero();
    let mut i: usize = 0;
    while i < vs.len()
        invariant
            i <= vs.len(),
            result.deep_view() == spec_reduce::<A, M>(vs.deep_view().take(i as int)),
        decreases vs.len() - i,
    {
        result = M::mappend(&result, &vs[i]);
        i = i + 1;
        proof {
            let dv = vs.deep_view();
            assert(dv.take(i as int).drop_last() =~= dv.take(i as int - 1));
            assert(dv.take(i as int).last() == dv[i as int - 1]);
        }
    }
    proof {
        assert(vs.deep_view().take(vs.len() as int) =~= vs.deep_view());
    }
    result
}

/// Law: reducing the empty sequence yields the identity element.
pub proof fn lemma_reduce_empty<A: DeepView, M: Monoid<A>>()
    ensures
        spec_reduce::<A, M>(Seq::empty()) == M::spec_mzero(),
{
}

/// Law: reducing a one-element sequence yields that element unchanged.
pub proof fn lemma_reduce_singleton<A: DeepView, M: Monoid<A>>(x: A::V)
    ensures
        spec_reduce::<A, M>(seq![x]) == x,
{
    assert(seq![x].drop_last() =~= Seq::<A::V>::empty());
    assert(spec_reduce::<A, M>(Seq::<A::V>::empty()) == M::spec_mzero());
    assert(spec_reduce::<A, M>(seq![x]) == M::spec_mappend(M::spec_mzero(), x));
    M::lemma_identity(x);
}

/// Law: reducing a two-element sequence combines the elements in sequence
/// order, left operand first. For a combine that is not commutative, swapping
/// the two elements can therefore change the result.
pub proof fn lemma_reduce_pair<A: DeepView, M: Monoid<A>>(a: A::V, b: A::V)
    ensures
        spec_reduce::<A, M>(seq![a, b]) == M::spec_mappend(a, b),
{
    assert(seq![a, b].drop_last() =~= seq![a]);
    lemma_reduce_singleton::<A, M>(a);
}

/// A value already inside the `i32` range is cropped to itself.
proof fn lemma_signed_crop_in_range(x: int)
    requires
        i32::MIN <= x <= i32::MAX,
    ensures
        i32_specs::signed_crop(x) == x,
{
    let m: int = 0x1_0000_0000;
    if x >= 0 {
        lemma_small_mod(x as nat, m as nat);
    } else {
        lemma_mod_multiples_vanish(1, x, m);
        lemma_small_mod((x + m) as nat, m as nat);
    }
}

/// Cropping keeps the residue class: the crop of `x` is congruent to `x`.
proof fn lemma_signed_crop_mod(x: int)
    ensures
        (i32_specs::signed_crop(x) as int) % 0x1_0000_0000 == x % 0x1_0000_0000,
{
    let m: int = 0x1_0000_0000;
    lemma_mod_bound(x, m);
    lemma_small_mod((x % m) as nat, m as nat);
    if x % m > i32::MAX as int {
        lemma_mod_multiples_vanish(1, x % m - m, m);
    }
}

/// Two values in the same residue class crop to the same `i32`.
proof fn lemma_signed_crop_congruent(x: int, y: int)
    requires
        x % 0x1_0000_0000 == y % 0x1_0000_0000,
    ensures
        i32_specs::signed_crop(x) == i32_specs::signed_crop(y),
{
}

/// Wrapping multiplication on `i32` is associative.
proof fn lemma_wrapping_mul_associative(a: i32, b: i32, c: i32)
    ensures
        i32_specs::wrapping_mul(i32_specs::wrapping_mul(a, b), c) == i32_specs::wrapping_mul(
            a,
            i32_specs::wrapping_mul(b, c),
        ),
{
    let m: int = 0x1_0000_0000;
    let ab = i32_specs::signed_crop(a * b);
    let bc = i32_specs::signed_crop(b * c);
    lemma_signed_crop_mod(a * b);
    lemma_mul_mod_noop_left(ab as int, c as int, m);
    lemma_mul_mod_noop_left(a * b, c as int, m);
    lemma_signed_crop_mod(b * c);
    lemma_mul_mod_noop_right(a as int, bc as int, m);
    lemma_mul_mod_noop_right(a as int, b * c, m);
    assert((a * b) * c == a * (b * c)) by (nonlinear_arith);
    lemma_signed_crop_congruent(ab as int * c as int, a as int * bc as int);
}

/// Addition over `i32`, wrapping on overflow; the identity element is `0`.
pub struct I32Add;

impl Monoid<i32> for I32Add {
    open spec fn spec_mzero() -> i32 {
        0i32
    }

    open spec fn spec_mappend(a: i32, b: i32) -> i32 {
        i32_specs::wrapping_add(a, b)
    }

    proof fn lemma_identity(x: i32) {
    }

    proof fn lemma_associative(a: i32, b: i32, c: i32) {
    }

    fn mzero() -> i32 {
        0
    }

    fn mappend(a: &i32, b: &i32) -> i32 {
        a.wrapping_add(*b)
    }
}

/// Multiplication over `i32`, wrapping on overflow; the identity element is
/// `1`, the only value that leaves every factor unchanged.
pub struct I32Mult;

impl Monoid<i32> for I32Mult {
    open spec fn spec_mzero() -> i32 {
        1i32
    }

    open spec fn spec_mappend(a: i32, b: i32) -> i32 {
        i32_specs::wrapping_mul(a, b)
    }

    proof fn lemma_identity(x: i32) {
        lemma_signed_crop_in_range(x as int);
    }

    proof fn lemma_associative(a: i32, b: i32, c: i32) {
        lemma_wrapping_mul_associative(a, b, c);
    }

    fn mzero() -> i32 {
        1
    }

    fn mappend(a: &i32, b: &i32) -> i32 {
        a.wrapping_mul(*b)
    }
}

/// Concatenation of byte strings; the identity element is the empty string.
/// The combine is associative but not commutative, so a fold under it shows
/// the left-to-right order of the input.
pub struct BytesConcat;

impl Monoid<Vec<u8>> for BytesConcat {
    open spec fn spec_mzero() -> Seq<u8> {
        Seq::empty()
    }

    open spec fn spec_mappend(a: Seq<u8>, b: Seq<u8>) -> Seq<u8> {
        a + b
    }

    proof fn lemma_identity(x: Seq<u8>) {
        assert(Seq::<u8>::empty() + x =~= x);
        assert(x + Seq::<u8>::empty() =~= x);
    }

    proof fn lemma_associative(a: Seq<u8>, b: Seq<u8>, c: Seq<u8>) {
        assert((a + b) + c =~= a + (b + c));
    }

    fn mzero() -> Vec<u8> {
        let r: Vec<u8> = Vec::new();
        proof {
            assert(r.deep_view() =~= Seq::<u8>::empty());
        }
        r
    }

    fn mappend(a: &Vec<u8>, b: &Vec<u8>) -> Vec<u8> {
        let mut r: Vec<u8> = Vec::new();
        let mut i: usize = 0;
        while i < a.len()
            invariant
                i <= a.len(),
                r@ == a@.take(i as int),
            decreases a.len() - i,
        {
            r.push(a[i]);
            i = i + 1;
            proof {
                assert(r@ =~= a@.take(i as int));
            }
        }
        let mut j: usize = 0;
        while j < b.len()
            invariant
                r@ == a@ + b@.take(j as int),
                j <= b.len(),
            decreases b.len() - j,
        {
            r.push(b[j]);
            j = j + 1;
            proof {
                assert(r@ =~= a@ + b@.take(j as int));
            }
        }
        proof {
            assert(a@.take(a@.len() as int) =~= a@);
            assert(a@ + b@.take(0) =~= a@);
            assert(b@.take(b@.len() as int) =~= b@);
            assert(r.deep_view() =~= r@);
            assert(a.deep_view() =~= a@);
            assert(b.deep_view() =~= b@);
        }
        r
    }
}

/// Builds the two-element sequence `[1, 2]` and reduces it under the
/// multiplication capability; the result is `1 * 1 * 2 == 2`.
pub fn test() -> (r: i32)
    ensures
        r == 2i32,
{
    let mut vec: Vec<i32> = Vec::new();
    vec.push(1);
    vec.push(2);

    let ghost gs: Seq<i32> = vec.deep_view();
    let r = reduce::<i32, I32Mult>(vec);
    proof {
        assert(gs =~= seq![1i32, 2i32]);
        assert(seq![1i32, 2i32].drop_last() =~= seq![1i32]);
        lemma_reduce_singleton::<i32, I32Mult>(1i32);
        I32Mult::lemma_identity(2i32);
        assert(spec_reduce::<i32, I32Mult>(gs) == 2i32);
    }
    r
}

} // verus!
