//! Randomized test-value generation, scaled by a size factor.
//!
//! The [`Arbitrary`] trait produces a pseudo-random instance of a type.
//! The sizes of generated collections are bounded in terms of the
//! caller-supplied size parameter, and generation for a composite type is
//! defined compositionally from generation for its parts.

use vstd::prelude::*;

pub mod source;
pub mod sizing;
pub mod primitive;
pub mod compose;
pub mod collect;
pub mod text;

verus! {

/// The Arbitrary trait can generate a randomly chosen value (with
/// restrictions). You can pass a size factor to allow specifying test size
/// (sizes of vectors and numbers).
pub trait Arbitrary: Sized {
    /// What every value generated at this size factor satisfies: each
    /// implementation bounds the parts of the value that the size policy
    /// governs. A type whose generation is unconstrained declares `true`.
    spec fn fits(self, size: nat) -> bool;

    /// Return an arbitrary value of this type. The value is randomly
    /// chosen and its size is scaled by the size parameter.
    fn arbitrary(size: usize) -> (r: Self)
        ensures
            r.fits(size as nat),
    ;
}

/// Create an arbitrary value of type T.
#[inline]
pub fn arbitrary<T: Arbitrary>(sz: usize) -> (r: T)
    ensures
        r.fits(sz as nat),
{
    T::arbitrary(sz)
}

} // verus!

