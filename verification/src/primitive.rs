//! Generators for fixed-size scalar types, and the reuse wrapper.
//!
//! A scalar generator ignores the size parameter entirely and draws one
//! value uniformly from the type's full representable range.

use vstd::prelude::*;

use crate::Arbitrary;

verus! {

/// A wrapper type to reuse the plain random-draw capability for the
/// Arbitrary impl: the inner value is generated with the size factor
/// ignored, so only the uniform draws of the leaf generators remain.
#[derive(PartialEq, Eq, Structural, Clone, Copy, Debug, Hash)]
pub struct Random<T>(pub T);

impl<T: Arbitrary> Arbitrary for Random<T> {
    open spec fn fits(self, size: nat) -> bool {
        true
    }

    fn arbitrary(sz: usize) -> (r: Random<T>) {
        Random(T::arbitrary(0))
    }
}

impl Arbitrary for u8 {
    open spec fn fits(self, size: nat) -> bool {
        true
    }

    fn arbitrary(sz: usize) -> (r: u8) {
        rand::random()
    }
}

impl Arbitrary for i8 {
    open spec fn fits(self, size: nat) -> bool {
        true
    }

    fn arbitrary(sz: usize) -> (r: i8) {
        rand::random()
    }
}

impl Arbitrary for usize {
    open spec fn fits(self, size: nat) -> bool {
        true
    }

    fn arbitrary(sz: usize) -> (r: usize) {
        rand::random()
    }
}

impl Arbitrary for isize {
    open spec fn fits(self, size: nat) -> bool {
        true
    }

    fn arbitrary(sz: usize) -> (r: isize) {
        rand::random()
    }
}

impl Arbitrary for bool {
    open spec fn fits(self, size: nat) -> bool {
        true
    }

    fn arbitrary(sz: usize) -> (r: bool) {
        rand::random()
    }
}

impl Arbitrary for char {
    open spec fn fits(self, size: nat) -> bool {
        true
    }

    fn arbitrary(sz: usize) -> (r: char) {
        rand::random()
    }
}

impl Arbitrary for () {
    open spec fn fits(self, size: nat) -> bool {
        true
    }

    fn arbitrary(sz: usize) -> (r: ()) {
        rand::random()
    }
}

} // verus!
