//! Generic algebraic reduction: folding a finite sequence of values into one
//! value under a combining capability (an identity element together with an
//! associative binary combine operation).
//!
//! The capability can be expressed in two ways:
//! - intrinsically, attached to the value type itself ([`monoidal::Monoidal`]),
//!   so each value type carries at most one combining strategy; or
//! - extrinsically, as a separate witness type ([`monoid::Monoid`]), so several
//!   strategies over the same value type can coexist.
//!
//! Both forms expose the same left-to-right fold, [`monoidal::reduce`] and
//! [`monoid::reduce`], whose result is pinned down by the spec-level fold of
//! the sequence of element views.

pub mod monoid;
pub mod monoidal;
pub mod samples;
