//! Generators for composite shapes: tuples, optional values, result values
//! and owned boxes. Each part is generated independently with the same size
//! factor, and the parts are assembled in order.

use vstd::prelude::*;

use crate::Arbitrary;

verus! {

impl<T: Arbitrary> Arbitrary for Option<T> {
    /// A present value satisfies the inner type's guarantee; presence itself
    /// is a fair coin flip.
    open spec fn fits(self, size: nat) -> bool {
        match self {
            Some(x) => x.fits(size),
            None => true,
        }
    }

    fn arbitrary(sz: usize) -> (r: Option<T>) {
        if rand::random() {
            Some(T::arbitrary(sz))
        } else {
            None
        }
    }
}

impl<T: Arbitrary, U: Arbitrary> Arbitrary for Result<T, U> {
    /// Either payload satisfies its type's guarantee; the variant is a fair
    /// coin flip.
    open spec fn fits(self, size: nat) -> bool {
        match self {
            Ok(t) => t.fits(size),
            Err(u) => u.fits(size),
        }
    }

    fn arbitrary(sz: usize) -> (r: Result<T, U>) {
        if rand::random() {
            Ok(T::arbitrary(sz))
        } else {
            Err(U::arbitrary(sz))
        }
    }
}

impl<T: Arbitrary> Arbitrary for Box<T> {
    open spec fn fits(self, size: nat) -> bool {
        (*self).fits(size)
    }

    #[inline]
    fn arbitrary(sz: usize) -> (r: Box<T>) {
        Box::new(T::arbitrary(sz))
    }
}

impl<A: Arbitrary, B: Arbitrary> Arbitrary for (A, B) {
    open spec fn fits(self, size: nat) -> bool {
        self.0.fits(size) && self.1.fits(size)
    }

    fn arbitrary(sz: usize) -> (r: (A, B)) {
        (A::arbitrary(sz), B::arbitrary(sz))
    }
}

impl<A: Arbitrary, B: Arbitrary, C: Arbitrary> Arbitrary for (A, B, C) {
    open spec fn fits(self, size: nat) -> bool {
        self.0.fits(size) && self.1.fits(size) && self.2.fits(size)
    }

    fn arbitrary(sz: usize) -> (r: (A, B, C)) {
        (A::arbitrary(sz), B::arbitrary(sz), C::arbitrary(sz))
    }
}

impl<A: Arbitrary, B: Arbitrary, C: Arbitrary, D: Arbitrary> Arbitrary for (A, B, C, D) {
    open spec fn fits(self, size: nat) -> bool {
        self.0.fits(size) && self.1.fits(size) && self.2.fits(size) && self.3.fits(size)
    }

    fn arbitrary(sz: usize) -> (r: (A, B, C, D)) {
        (A::arbitrary(sz), B::arbitrary(sz), C::arbitrary(sz), D::arbitrary(sz))
    }
}

impl<A: Arbitrary, B: Arbitrary, C: Arbitrary, D: Arbitrary, E: Arbitrary> Arbitrary for (
    A,
    B,
    C,
    D,
    E,
) {
    open spec fn fits(self, size: nat) -> bool {
        self.0.fits(size) && self.1.fits(size) && self.2.fits(size) && self.3.fits(size)
            && self.4.fits(size)
    }

    fn arbitrary(sz: usize) -> (r: (A, B, C, D, E)) {
        (A::arbitrary(sz), B::arbitrary(sz), C::arbitrary(sz), D::arbitrary(sz), E::arbitrary(sz))
    }
}

impl<A: Arbitrary, B: Arbitrary, C: Arbitrary, D: Arbitrary, E: Arbitrary, F: Arbitrary> Arbitrary for (
    A,
    B,
    C,
    D,
    E,
    F,
) {
    open spec fn fits(self, size: nat) -> bool {
        self.0.fits(size) && self.1.fits(size) && self.2.fits(size) && self.3.fits(size)
            && self.4.fits(size) && self.5.fits(size)
    }

    fn arbitrary(sz: usize) -> (r: (A, B, C, D, E, F)) {
        (
            A::arbitrary(sz),
            B::arbitrary(sz),
            C::arbitrary(sz),
            D::arbitrary(sz),
            E::arbitrary(sz),
            F::arbitrary(sz),
        )
    }
}

} // verus!
