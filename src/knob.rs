//! Quantization of a raw knob sample into a brightness level.
use vstd::prelude::*;

use crate::LEVELS;

verus! {

/// Largest raw sample kept; lower and higher samples are clamped into `0..=RAW_MAX`.
pub const RAW_MAX: i16 = 0x7FFF;

/// Divisor that maps the practical raw swing onto roughly `0.0..3.2`.
pub const RAW_SCALE: u32 = 10_000;

/// Offset of the affine map: the lowest two level widths all give level 0.
pub const LEVEL_OFFSET: u32 = 2;

/// `x` clamped into `lo..=hi`.
pub open spec fn clamp(x: int, lo: int, hi: int) -> int {
    if x < lo {
        lo
    } else if x > hi {
        hi
    } else {
        x
    }
}

/// The level of a raw sample: with `x = clamp(raw, 0, RAW_MAX) / RAW_SCALE`,
/// the floor of `(LEVELS + 2) * x - 2`, clamped into `0..=LEVELS - 1`.
pub open spec fn knob_level(raw: int) -> int {
    let r = clamp(raw, 0, RAW_MAX as int);
    let scaled = ((LEVELS + LEVEL_OFFSET) * r - LEVEL_OFFSET * RAW_SCALE) / (RAW_SCALE as int);
    clamp(scaled, 0, LEVELS - 1)
}

/// Maps a raw sample of the knob's converter to a level in `0..LEVELS`.
pub fn level_from_raw(raw: i16) -> (r: u32)
    ensures
        r == knob_level(raw as int),
        r < LEVELS,
{
    let clamped: u32 = if raw < 0 {
        0
    } else {
        raw as u32
    };
    let stretched: u32 = (LEVELS + LEVEL_OFFSET) * clamped;
    let offset: u32 = LEVEL_OFFSET * RAW_SCALE;
    if stretched < offset {
        proof {
            let n = stretched as int - offset as int;
            vstd::arithmetic::div_mod::lemma_div_is_ordered(n, 0, RAW_SCALE as int);
            vstd::arithmetic::div_mod::lemma_div_by_multiple(0, RAW_SCALE as int);
        }
        0
    } else {
        let level: u32 = (stretched - offset) / RAW_SCALE;
        if level > LEVELS - 1 {
            LEVELS - 1
        } else {
            level
        }
    }
}

/// A higher raw sample never gives a lower level, and every level lies in
/// `0..LEVELS`.
pub proof fn lemma_knob_level_monotonic(r1: int, r2: int)
    requires
        r1 <= r2,
    ensures
        0 <= knob_level(r1) <= knob_level(r2) < LEVELS,
{
    let c1 = clamp(r1, 0, RAW_MAX as int);
    let c2 = clamp(r2, 0, RAW_MAX as int);
    assert((LEVELS + LEVEL_OFFSET) * c1 <= (LEVELS + LEVEL_OFFSET) * c2) by (nonlinear_arith)
        requires c1 <= c2;
    vstd::arithmetic::div_mod::lemma_div_is_ordered(
        (LEVELS + LEVEL_OFFSET) * c1 - LEVEL_OFFSET * RAW_SCALE,
        (LEVELS + LEVEL_OFFSET) * c2 - LEVEL_OFFSET * RAW_SCALE,
        RAW_SCALE as int,
    );
}

} // verus!
