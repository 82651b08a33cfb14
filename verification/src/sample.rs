//! The fixed-point sample domain and its rounding arithmetic.

use vstd::prelude::*;

verus! {

/// The sample that stands for 1.0: `65535 * 65536`, so that every 16-bit code
/// `v` is the exact sample `v * 65536`.
pub const ONE: i64 = 4294901760;

/// The sample step between two neighbouring 16-bit codes.
pub const CODE_STEP: i64 = 65536;

/// The largest 16-bit code.
pub const MAX_CODE: u16 = 65535;

/// Channel counts of a pipeline stay below this bound.
pub const MAX_CHANNELS: u32 = 16;

/// Capacity of a scratch buffer, and the bound on a stage's channel counts.
pub const MAX_STAGE_CHANNELS: usize = 128;

/// Bound on the magnitude of an accumulator handed to the rounding division.
pub open spec fn acc_bound() -> int {
    0x4000_0000_0000_0000_0000_0000_0000
}

/// `a / d` rounded to the nearest integer, halves away from zero (`d > 0`).
pub open spec fn round_div(a: int, d: int) -> int {
    if a >= 0 {
        (2 * a + d) / (2 * d)
    } else {
        -((2 * (-a) + d) / (2 * d))
    }
}

/// `v` clamped to the range of `i64`.
pub open spec fn saturate(v: int) -> int {
    if v > i64::MAX {
        i64::MAX as int
    } else if v < i64::MIN {
        i64::MIN as int
    } else {
        v
    }
}

/// One output of an affine kernel: the accumulator over a common
/// denominator, rounded and saturated.
pub open spec fn quantize(acc: int, denom: int) -> int {
    saturate(round_div(acc, denom))
}

/// Rounds `acc / denom` to the nearest sample and saturates it.
pub fn quantize_acc(acc: i128, denom: u32) -> (r: i64)
    requires
        denom > 0,
        -acc_bound() <= acc <= acc_bound(),
    ensures
        r == quantize(acc as int, denom as int),
{
    let d: u128 = denom as u128;
    if acc >= 0 {
        let m: u128 = acc as u128;
        let q: u128 = (2 * m + d) / (2 * d);
        if q > 0x7fff_ffff_ffff_ffff {
            i64::MAX
        } else {
            q as i64
        }
    } else {
        let m: u128 = (-acc) as u128;
        let q: u128 = (2 * m + d) / (2 * d);
        if q > 0x8000_0000_0000_0000 {
            i64::MIN
        } else if q == 0x8000_0000_0000_0000 {
            i64::MIN
        } else {
            -(q as i64)
        }
    }
}

/// The sample of a 16-bit code: the code over 65535, exactly.
pub open spec fn decode_code(v: u16) -> int {
    v as int * 65536
}

/// The 16-bit code nearest to a sample, saturated at both ends.
pub open spec fn encode_sample(s: int) -> int {
    let q = round_div(s, 65536);
    if q < 0 {
        0
    } else if q > 65535 {
        65535
    } else {
        q
    }
}

/// Decodes a 16-bit code to its sample.
pub fn code_to_sample(v: u16) -> (s: i64)
    ensures
        s == decode_code(v),
{
    (v as i64) * CODE_STEP
}

/// Quantizes a sample to 16 bits, rounding to nearest and saturating at 0
/// and 65535.
pub fn sample_to_code(s: i64) -> (v: u16)
    ensures
        v == encode_sample(s as int),
{
    if s <= 0 {
        0
    } else {
        let q: i64 = (s / 2 + 16384) / 32768;
        assert(q == (2 * (s as int) + 65536) / 131072);
        if q > 65535 {
            MAX_CODE
        } else {
            q as u16
        }
    }
}

} // verus!
