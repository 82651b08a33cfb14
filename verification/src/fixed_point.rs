//! Decoders for the fixed-point encodings of profile fields.

use vstd::prelude::*;
use crate::sample::ONE;

verus! {

/// The sample of a signed 15.16 fixed-point number: `fix32 / 65536` in real
/// terms, which is `fix32 * 65535` samples, exactly.
pub open spec fn s15fixed16_sample(fix32: i32) -> int {
    fix32 * 65535
}

/// The sample of an unsigned 8.8 fixed-point number: `i / 256` in real
/// terms, which is `i * 16776960` samples, exactly.
pub open spec fn u8fixed8_sample(i: u16) -> int {
    i * 16776960
}

/// Decodes a signed fixed-point number with 16 fractional bits: sign times
/// whole part plus fractional part over 65536.
pub fn s15fixed16_to_double(fix32: i32) -> (r: i64)
    ensures
        r == s15fixed16_sample(fix32),
        r * 65536 == fix32 * ONE,
{
    let wide: i64 = fix32 as i64;
    let negative: bool = wide < 0;
    let magnitude: u64 = if negative {
        (-wide) as u64
    } else {
        wide as u64
    };
    let whole: u64 = magnitude >> 16;
    let frac_part: u64 = magnitude & 0xffff;
    assert(magnitude == whole * 65536 + frac_part && whole <= 0x8000 && frac_part <= 0xffff)
        by (bit_vector)
        requires
            magnitude <= 0x8000_0000,
            whole == magnitude >> 16,
            frac_part == magnitude & 0xffff,
    ;
    let floater: i64 = (whole * 4294901760 + frac_part * 65535) as i64;
    if negative {
        -floater
    } else {
        floater
    }
}

/// Decodes an unsigned fixed-point number with 8 fractional bits: the high
/// byte plus the low byte over 256.
pub fn u8fixed8_to_double(i: u16) -> (r: i64)
    ensures
        r == u8fixed8_sample(i),
        r * 256 == i * ONE,
{
    let lsb: u16 = i & 0xFF;
    let msb: u16 = i >> 8;
    assert(i == msb * 256 + lsb && msb <= 0xff && lsb <= 0xff) by (bit_vector)
        requires
            lsb == i & 0xFF,
            msb == i >> 8,
    ;
    (msb as i64) * 4294901760 + (lsb as i64) * 16776960
}

} // verus!
