use color_pipeline::fixed_point::{s15fixed16_to_double, u8fixed8_to_double};
use color_pipeline::sample::{
    code_to_sample, quantize_acc, sample_to_code, MAX_CHANNELS, MAX_STAGE_CHANNELS, ONE,
};
use color_pipeline::stage::affine;
use color_pipeline::stage_type::StageType;

#[test]
fn one_is_the_full_scale_code() {
    assert_eq!(ONE, 65535 * 65536);
    assert_eq!(MAX_CHANNELS, 16);
    assert_eq!(MAX_STAGE_CHANNELS, 128);
}

#[test]
fn code_boundaries_decode_exactly() {
    assert_eq!(code_to_sample(0), 0);
    assert_eq!(code_to_sample(65535), ONE);
    assert_eq!(code_to_sample(1), 65536);
    assert_eq!(code_to_sample(65535) as f64 / ONE as f64, 1.0);
}

#[test]
fn every_code_round_trips() {
    let mut v: u32 = 0;
    while v <= 65535 {
        let code = v as u16;
        assert_eq!(sample_to_code(code_to_sample(code)), code);
        v += 1;
    }
}

#[test]
fn quantization_rounds_to_nearest() {
    assert_eq!(sample_to_code(32767), 0);
    assert_eq!(sample_to_code(32768), 1);
    assert_eq!(sample_to_code(65536 + 32767), 1);
    assert_eq!(sample_to_code(65536 + 32768), 2);
    assert_eq!(sample_to_code(ONE / 2), 32768);
}

#[test]
fn quantization_saturates_at_both_ends() {
    assert_eq!(sample_to_code(-1), 0);
    assert_eq!(sample_to_code(i64::MIN), 0);
    assert_eq!(sample_to_code(ONE + 1), 65535);
    assert_eq!(sample_to_code(ONE + 65536), 65535);
    assert_eq!(sample_to_code(i64::MAX), 65535);
}

#[test]
fn rounding_division_is_half_away_from_zero() {
    assert_eq!(quantize_acc(7, 2), 4);
    assert_eq!(quantize_acc(-7, 2), -4);
    assert_eq!(quantize_acc(5, 3), 2);
    assert_eq!(quantize_acc(-5, 3), -2);
    assert_eq!(quantize_acc(4, 3), 1);
    assert_eq!(quantize_acc(0, 9), 0);
    assert_eq!(quantize_acc(10, 1), 10);
}

#[test]
fn rounding_division_saturates() {
    let big: i128 = 1i128 << 100;
    assert_eq!(quantize_acc(big, 1), i64::MAX);
    assert_eq!(quantize_acc(-big, 1), i64::MIN);
    assert_eq!(quantize_acc(-(1i128 << 63), 1), i64::MIN);
    assert_eq!(quantize_acc((1i128 << 63) - 1, 1), i64::MAX);
}

#[test]
fn affine_scales_and_shifts() {
    assert_eq!(affine(ONE, 1, 0, 100), 42949018);
    assert_eq!(affine(100 * ONE, 1, 0, 100), ONE);
    assert_eq!(affine(0, 1, 128, 255), 128 * (ONE / 255));
    assert_eq!(affine(ONE, 255, -128, 1), 127 * ONE);
    assert_eq!(affine(32768, 65535, 0, 32768), 65535);
    assert_eq!(affine(i64::MAX, 2, 0, 1), i64::MAX);
}

#[test]
fn s15fixed16_decodes_sign_whole_and_fraction() {
    assert_eq!(s15fixed16_to_double(0), 0);
    assert_eq!(s15fixed16_to_double(0x0001_0000), ONE);
    assert_eq!(s15fixed16_to_double(-0x0001_0000), -ONE);
    assert_eq!(s15fixed16_to_double(0x0000_8000), ONE / 2);
    assert_eq!(s15fixed16_to_double(-0x0001_8000), -(ONE + ONE / 2));
    assert_eq!(s15fixed16_to_double(1), 65535);
    assert_eq!(s15fixed16_to_double(i32::MAX), i32::MAX as i64 * 65535);
    assert_eq!(s15fixed16_to_double(i32::MIN), -32768 * ONE);
    let value = s15fixed16_to_double(0x0002_4000) as f64 / ONE as f64;
    assert_eq!(value, 2.25);
}

#[test]
fn u8fixed8_decodes_both_bytes() {
    assert_eq!(u8fixed8_to_double(0), 0);
    assert_eq!(u8fixed8_to_double(0x0100), ONE);
    assert_eq!(u8fixed8_to_double(0x0180), ONE + ONE / 2);
    assert_eq!(u8fixed8_to_double(0x0001), ONE / 256);
    assert_eq!(u8fixed8_to_double(0xFFFF), 255 * ONE + 255 * (ONE / 256));
    let value = u8fixed8_to_double(0x0240) as f64 / ONE as f64;
    assert_eq!(value, 2.25);
}

#[test]
fn signatures_are_four_characters() {
    assert_eq!(StageType::CurveSet.signature(), u32::from_be_bytes(*b"cvst"));
    assert_eq!(StageType::Matrix.signature(), u32::from_be_bytes(*b"matf"));
    assert_eq!(StageType::CLut.signature(), u32::from_be_bytes(*b"clut"));
    assert_eq!(StageType::BAcs.signature(), u32::from_be_bytes(*b"bACS"));
    assert_eq!(StageType::EAcs.signature(), u32::from_be_bytes(*b"eACS"));
    assert_eq!(StageType::XYZ2Lab.signature(), u32::from_be_bytes(*b"l2x "));
    assert_eq!(StageType::Lab2XYZ.signature(), u32::from_be_bytes(*b"x2l "));
    assert_eq!(StageType::NamedColor.signature(), u32::from_be_bytes(*b"ncl "));
    assert_eq!(StageType::LabV2toV4.signature(), u32::from_be_bytes(*b"2 4 "));
    assert_eq!(StageType::LabV4toV2.signature(), u32::from_be_bytes(*b"4 2 "));
    assert_eq!(StageType::Identity.signature(), u32::from_be_bytes(*b"idn "));
    assert_eq!(StageType::Lab2FloatPCS.signature(), u32::from_be_bytes(*b"d2l "));
    assert_eq!(StageType::FloatPCS2Lab.signature(), u32::from_be_bytes(*b"l2d "));
    assert_eq!(StageType::XYZ2FloatPCS.signature(), u32::from_be_bytes(*b"d2x "));
    assert_eq!(StageType::FloatPCS2XYZ.signature(), u32::from_be_bytes(*b"x2d "));
    assert_eq!(StageType::ClipNegatives.signature(), u32::from_be_bytes(*b"clp "));
}
