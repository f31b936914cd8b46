//! Trail intensity of a cell, tracked exactly.
//!
//! A live cell shows at full intensity.  After it dies, its intensity is
//! multiplied by 9/10 once per frame, so after `n` frames it stands at
//! (9/10) to the power `n` of full intensity.  Instead of an inexact
//! fraction, the crate records that exponent: `Level(0)` is full intensity,
//! `Level(n)` is the intensity after `n` decay steps.  The decay never
//! reaches exactly zero; `Zero` is produced only by clearing the board (and
//! at startup).

use vstd::prelude::*;

verus! {

/// Largest decay exponent that still counts as visible: (9/10) to the 28th
/// power is above the visibility threshold of 1/20, while the 29th power is
/// below it.
pub const VISIBLE_STEPS: u32 = 28;

/// Trail intensity of one cell.
#[derive(Clone, Copy, Debug, PartialEq, Eq, Structural)]
pub enum Fade {
    /// Exactly no intensity.  Decay never produces this; only a clear does.
    Zero,
    /// Intensity (9/10) to the power of the recorded exponent: `Level(0)` is
    /// full intensity, and each decay step raises the exponent by one.
    Level(u32),
}

impl Fade {
    /// One decay step: the exponent grows by one (saturating at the largest
    /// representable exponent); exactly-zero intensity stays exactly zero.
    pub open spec fn spec_decay(self) -> Fade {
        match self {
            Fade::Zero => Fade::Zero,
            Fade::Level(n) => if n < u32::MAX {
                Fade::Level((n + 1) as u32)
            } else {
                Fade::Level(n)
            },
        }
    }

    /// Multiply the intensity by 9/10, as happens to every dead cell once
    /// per frame.
    pub fn decay(self) -> (r: Fade)
        ensures
            r == self.spec_decay(),
    {
        match self {
            Fade::Zero => Fade::Zero,
            Fade::Level(n) => if n < u32::MAX {
                Fade::Level(n + 1)
            } else {
                Fade::Level(n)
            },
        }
    }

    /// Above the visibility threshold: the intensity exceeds 1/20 of full.
    pub open spec fn spec_is_visible(self) -> bool {
        match self {
            Fade::Zero => false,
            Fade::Level(n) => n <= VISIBLE_STEPS,
        }
    }

    /// Whether the drawing layer should show this cell at all.
    pub fn is_visible(self) -> (r: bool)
        ensures
            r == self.spec_is_visible(),
    {
        match self {
            Fade::Zero => false,
            Fade::Level(n) => n <= VISIBLE_STEPS,
        }
    }
}

/// Decay approaches zero but never reaches it: a fading trail keeps a
/// positive intensity forever.
pub proof fn lemma_decay_never_zero(f: Fade)
    requires
        f is Level,
    ensures
        f.spec_decay() is Level,
{
}

/// Decay strictly lowers the intensity: each frame moves the trail exactly
/// one step down, from the `n`-th to the `n + 1`-th power of 9/10.
pub proof fn lemma_decay_strict(n: u32)
    requires
        n < u32::MAX,
    ensures
        Fade::Level(n).spec_decay() == Fade::Level((n + 1) as u32),
{
}

} // verus!
