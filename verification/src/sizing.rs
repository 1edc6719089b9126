//! The size policy: a bounded random count drawn per variable-length
//! generation, keeping containers proportionate to the requested size.

use vstd::prelude::*;

use crate::source;
use crate::Arbitrary;

verus! {

/// A small number >= 0.
#[derive(PartialEq, Eq, Structural, Clone, Copy, Debug, Hash)]
pub struct SmallN(pub usize);

/// Draw a bounded count: an exponential sample scaled by `size`, clamped to
/// at most `16 * size`. Most draws land near zero while larger counts stay
/// possible, and the clamp bounds the work of any single generation call.
pub fn small_n(size: usize) -> (n: usize)
    ensures
        n <= 16 * size,
        size == 0 ==> n == 0,
{
    let drawn = source::exp_scaled(size);
    let cap = match size.checked_mul(16) {
        Some(c) => c,
        None => usize::MAX,
    };
    if drawn < cap {
        drawn
    } else {
        cap
    }
}

impl Arbitrary for SmallN {
    /// A generated count never exceeds `16 * size`, and a zero size factor
    /// always yields zero.
    open spec fn fits(self, size: nat) -> bool {
        &&& self.0 <= 16 * size
        &&& size == 0 ==> self.0 == 0
    }

    fn arbitrary(sz: usize) -> (r: SmallN) {
        SmallN(small_n(sz))
    }
}

/// A zero size factor always yields the zero count: every SmallN generated
/// at size zero equals SmallN(0).
pub proof fn lemma_small_n_at_zero(r: SmallN)
    requires
        r.fits(0),
    ensures
        r == SmallN(0usize),
{
}

} // verus!
