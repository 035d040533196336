//! Small standalone demonstrations: a sum type and two trivial functions.
use vstd::prelude::*;

verus! {

/// A sum of two alternatives, consumed by ordinary pattern matching.
pub enum Either<A, B> {
    Left(A),
    Right(B),
}

/// Exclusive-or of the two boolean constants; always `true`.
pub fn test() -> (r: bool)
    ensures
        r == true,
{
    true ^ false
}

/// Hands its argument back unchanged.
pub fn identity<A>(a: &A) -> (r: &A)
    ensures
        r == a,
{
    a
}

} // verus!
