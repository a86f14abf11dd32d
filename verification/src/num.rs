//! Saturating counter arithmetic and the exact vote-ratio type.
//!
//! The original application keeps the story "hotness" score and the comment
//! "confidence" score in floating point.  Here hotness is a fixed-point value
//! (units of one ten-millionth), and confidence is an exact rational, so that
//! the vote formulas can be stated and proved exactly.

use vstd::prelude::*;

verus! {

/// Hotness is stored in fixed-point units of 1e-7.
pub const HOTNESS_UNIT: i64 = 10_000_000;

/// Seed hotness written when a story is submitted (-19216.2884921).
pub const HOTNESS_SUBMIT_SEED: i64 = -192_162_884_921;

/// Hotness rewritten at the end of a non-priming submit (-19216.5479744),
/// mimicking a double write in the original application.
pub const HOTNESS_SUBMIT_REWRITE: i64 = -192_165_479_744;

/// Numerator of the confidence seed a fresh comment is created with
/// (0.1828847834138887).
pub const CONFIDENCE_SEED_NUM: u64 = 1_828_847_834_138_887;

/// Denominator of the confidence seed.
pub const CONFIDENCE_SEED_DEN: u64 = 10_000_000_000_000_000;

/// An exact non-negative rational, used for comment confidence.
#[derive(Clone, Copy, Debug, PartialEq, Eq, Structural)]
pub struct Ratio {
    pub num: u64,
    pub den: u64,
}

impl Ratio {
    /// Well-formed: the denominator is positive.
    pub open spec fn wf(self) -> bool {
        self.den > 0
    }

    /// The confidence value a fresh comment is seeded with.
    pub open spec fn spec_seed() -> Ratio {
        Ratio { num: CONFIDENCE_SEED_NUM, den: CONFIDENCE_SEED_DEN }
    }

    /// The confidence value a fresh comment is seeded with.
    pub fn seed() -> (r: Ratio)
        ensures
            r == Ratio::spec_seed(),
            r.wf(),
    {
        Ratio { num: CONFIDENCE_SEED_NUM, den: CONFIDENCE_SEED_DEN }
    }

}

/// Saturating increment of an unsigned counter.
pub open spec fn spec_inc_u64(x: u64) -> u64 {
    if x < u64::MAX {
        (x + 1) as u64
    } else {
        u64::MAX
    }
}

/// Saturating increment of an unsigned counter.
pub fn inc_u64(x: u64) -> (r: u64)
    ensures
        r == spec_inc_u64(x),
{
    if x < u64::MAX {
        x + 1
    } else {
        u64::MAX
    }
}

/// Saturating addition of two unsigned counters.
pub open spec fn spec_sat_add_u64(a: u64, b: u64) -> u64 {
    if a + b <= u64::MAX {
        (a + b) as u64
    } else {
        u64::MAX
    }
}

/// Saturating addition of two unsigned counters.
pub fn sat_add_u64(a: u64, b: u64) -> (r: u64)
    ensures
        r == spec_sat_add_u64(a, b),
{
    if a <= u64::MAX - b {
        a + b
    } else {
        u64::MAX
    }
}

/// Saturating increment of a signed counter (karma going up).
pub open spec fn spec_inc_i64(x: i64) -> i64 {
    if x < i64::MAX {
        (x + 1) as i64
    } else {
        i64::MAX
    }
}

/// Saturating increment of a signed counter (karma going up).
pub fn inc_i64(x: i64) -> (r: i64)
    ensures
        r == spec_inc_i64(x),
{
    if x < i64::MAX {
        x + 1
    } else {
        i64::MAX
    }
}

/// Saturating decrement of a signed counter (karma going down).
pub open spec fn spec_dec_i64(x: i64) -> i64 {
    if x > i64::MIN {
        (x - 1) as i64
    } else {
        i64::MIN
    }
}

/// Saturating decrement of a signed counter (karma going down).
pub fn dec_i64(x: i64) -> (r: i64)
    ensures
        r == spec_dec_i64(x),
{
    if x > i64::MIN {
        x - 1
    } else {
        i64::MIN
    }
}

/// Saturating subtraction of one hotness unit (an up-vote lowers the score,
/// which sorts the story earlier on the ascending frontpage).
pub open spec fn spec_hot_down(x: i64) -> i64 {
    if x >= i64::MIN + HOTNESS_UNIT {
        (x - HOTNESS_UNIT) as i64
    } else {
        i64::MIN
    }
}

/// Saturating subtraction of one hotness unit.
pub fn hot_down(x: i64) -> (r: i64)
    ensures
        r == spec_hot_down(x),
{
    if x >= i64::MIN + HOTNESS_UNIT {
        x - HOTNESS_UNIT
    } else {
        i64::MIN
    }
}

/// Saturating addition of one hotness unit (a down-vote raises the score).
pub open spec fn spec_hot_up(x: i64) -> i64 {
    if x <= i64::MAX - HOTNESS_UNIT {
        (x + HOTNESS_UNIT) as i64
    } else {
        i64::MAX
    }
}

/// Saturating addition of one hotness unit.
pub fn hot_up(x: i64) -> (r: i64)
    ensures
        r == spec_hot_up(x),
{
    if x <= i64::MAX - HOTNESS_UNIT {
        x + HOTNESS_UNIT
    } else {
        i64::MAX
    }
}

} // verus!
