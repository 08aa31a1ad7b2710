//! The bit-set of gameplay modifiers. It decodes from the integer the
//! external API sends; bits outside the known modifier set are silently
//! truncated, never rejected.

use vstd::prelude::*;

verus! {

pub const NONE: i64 = 0;

pub const NO_FAIL: i64 = 1;

pub const EASY: i64 = 1 << 1;

pub const NO_VIDEO: i64 = 1 << 2;

pub const HIDDEN: i64 = 1 << 3;

pub const HARD_ROCK: i64 = 1 << 4;

pub const SUDDEN_DEATH: i64 = 1 << 5;

pub const DOUBLE_TIME: i64 = 1 << 6;

pub const RELAX: i64 = 1 << 7;

pub const HALF_TIME: i64 = 1 << 8;

/// Only set along with `DOUBLE_TIME`.
pub const NIGHTCORE: i64 = 1 << 9;

pub const FLASHLIGHT: i64 = 1 << 10;

pub const AUTOPLAY: i64 = 1 << 11;

pub const SPUN_OUT: i64 = 1 << 12;

/// Could be "Autopilot".
pub const RELAX2: i64 = 1 << 13;

pub const PERFECT: i64 = 1 << 14;

pub const KEY4: i64 = 1 << 15;

pub const KEY5: i64 = 1 << 16;

pub const KEY6: i64 = 1 << 17;

pub const KEY7: i64 = 1 << 18;

pub const KEY8: i64 = 1 << 19;

pub const KEY_MOD: i64 = 1015808;

pub const FADE_IN: i64 = 1 << 20;

pub const RANDOM: i64 = 1 << 21;

pub const LAST_MOD: i64 = 1 << 22;

pub const FREE_MOD_ALLOWED: i64 = 2069691;

pub const KEY9: i64 = 1 << 24;

pub const KEY10: i64 = 1 << 25;

pub const KEY1: i64 = 1 << 26;

pub const KEY2: i64 = 1 << 27;

pub const KEY3: i64 = 1 << 28;

/// The union of every known modifier bit: bits 0 through 22 and 24 through
/// 28. Bit 23 names no modifier.
pub const ALL_MODS: i64 = 0x1F7FFFFF;

/// A bit-set of gameplay modifiers.
#[derive(Clone, Copy, Debug, PartialEq, Eq, Structural)]
pub struct Mods {
    pub bits: i64,
}

impl Mods {
    /// A well-formed set holds known modifier bits only.
    pub open spec fn wf(self) -> bool {
        self.bits == self.bits & ALL_MODS
    }

    /// Keeps the known modifier bits of `bits` and drops the rest.
    pub fn from_bits_truncate(bits: i64) -> (r: Mods)
        ensures
            r.bits == bits & ALL_MODS,
            r.wf(),
    {
        let masked: i64 = bits & ALL_MODS;
        proof {
            lemma_truncate_wf(bits);
        }
        Mods { bits: masked }
    }

    /// The raw bits of the set.
    pub fn bits(&self) -> (r: i64)
        ensures
            r == self.bits,
    {
        self.bits
    }

    /// Whether every bit of `flags` is set.
    pub fn contains(&self, flags: i64) -> (r: bool)
        ensures
            r == (self.bits & flags == flags),
    {
        self.bits & flags == flags
    }
}

/// Truncating is idempotent: the masked bits are themselves well formed, and
/// the mask keeps the result within the known range.
pub proof fn lemma_truncate_wf(bits: i64)
    ensures
        (bits & ALL_MODS) & ALL_MODS == bits & ALL_MODS,
        0 <= bits & ALL_MODS <= ALL_MODS,
{
    assert((bits & 0x1F7FFFFFi64) & 0x1F7FFFFFi64 == bits & 0x1F7FFFFFi64) by (bit_vector);
    assert(0 <= bits & 0x1F7FFFFFi64 <= 0x1F7FFFFFi64) by (bit_vector);
}

} // verus!
