//! Randomness, behind trusted wrappers.
//!
//! Every draw the simulation makes (card offers, particle jitter, object
//! respawn positions, boost re-rolls) goes through the two wrappers here.
//! Nothing is assumed of a draw beyond its range.

use vstd::prelude::*;

verus! {

/// Relies on fastrand::i64: a value in the given range, uniformly
/// distributed. The range is inclusive and non-empty, so the call
/// cannot panic.
#[verifier::external_body]
pub(crate) fn random_fx(lo: i64, hi: i64) -> (r: i64)
    requires
        lo <= hi,
    ensures
        lo <= r <= hi,
{
    fastrand::i64(lo..=hi)
}

/// Relies on fastrand::usize: an index below `n`, uniformly distributed.
/// The range is non-empty since `n > 0`, so the call cannot panic.
#[verifier::external_body]
pub(crate) fn random_index(n: usize) -> (r: usize)
    requires
        n > 0,
    ensures
        r < n,
{
    fastrand::usize(0..n)
}

/// A configured closed range drawn from uniformly; used to randomize the
/// per-object parallax factors.
#[derive(Clone, Copy, PartialEq, Eq, Structural, Debug)]
pub struct RandomRange {
    pub min: i64,
    pub max: i64,
}

impl RandomRange {
    /// The range is non-empty.
    pub open spec fn wf(self) -> bool {
        self.min <= self.max
    }

    /// A fresh draw from the range.
    pub fn value(&self) -> (r: i64)
        requires
            self.wf(),
        ensures
            self.min <= r <= self.max,
    {
        random_fx(self.min, self.max)
    }
}

} // verus!
