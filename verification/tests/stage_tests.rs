use color_pipeline::sample::ONE;
use color_pipeline::stage::{
    clipper, evaluate_curves_with, evaluate_matrix, lab_to_xyz_decode, lab_to_xyz_encode, xyz_to_lab_decode,
    xyz_to_lab_encode, CurveHandle, Stage, StageData,
};
use color_pipeline::stage_type::StageType;

fn fixed(x: f64) -> i64 {
    (x * ONE as f64).round() as i64
}

fn unit(s: i64) -> f64 {
    s as f64 / ONE as f64
}

fn marked(n: usize) -> Vec<i64> {
    vec![-7; n]
}

#[test]
fn matrix_factory_keeps_shape_and_payload() {
    let m = vec![1, 2, 3, 4, 5, 6];
    let o = vec![7, 8];
    let s = Stage::new_matrix(2, 3, &m, Some(&o), 10);
    assert_eq!(s.ty, StageType::Matrix);
    assert_eq!(s.implements, StageType::Matrix);
    assert_eq!(s.input_channels, 3);
    assert_eq!(s.output_channels, 2);
    match &s.data {
        StageData::Matrix { coeffs, offset, denom } => {
            assert_eq!(coeffs, &m);
            assert_eq!(offset.as_ref(), Some(&o));
            assert_eq!(*denom, 10);
        }
        _ => panic!("a matrix stage holds a matrix"),
    }
}

#[test]
fn matrix_kernel_sums_rows_and_adds_offsets() {
    // rows (1 2 3) and (4 5 6) over 10, offsets 0.7 and 0.8
    let s = Stage::new_matrix(2, 3, &vec![1, 2, 3, 4, 5, 6], Some(&vec![7, 8]), 10);
    let input = vec![ONE, 2 * ONE, 3 * ONE, 99];
    let mut output = marked(4);
    evaluate_matrix(&input, &mut output, &s);
    // (1 + 4 + 9) / 10 + 0.7 = 2.1 ; (4 + 10 + 18) / 10 + 0.8 = 4.0
    assert_eq!(output, vec![fixed(2.1), 4 * ONE, -7, -7]);
    assert_eq!(output[0], 21 * (ONE / 10));
}

#[test]
fn matrix_kernel_rounds_once_per_output() {
    let s = Stage::new_matrix(1, 2, &vec![1, 1], None, 3);
    let mut output = marked(1);
    assert!(s.eval(&vec![1, 1], &mut output));
    assert_eq!(output, vec![1]);
    assert!(s.eval(&vec![2, 2], &mut output));
    assert_eq!(output, vec![1]);
    assert!(s.eval(&vec![-2, -3], &mut output));
    assert_eq!(output, vec![-2]);
}

#[test]
fn matrix_is_linear_up_to_rounding() {
    let s = Stage::new_matrix(2, 2, &vec![3, -5, 7, 11], None, 13);
    let x = vec![fixed(0.2), fixed(0.7)];
    let y = vec![fixed(0.45), fixed(0.1)];
    let sum = vec![x[0] + y[0], x[1] + y[1]];
    let scaled = vec![5 * x[0], 5 * x[1]];
    let (mut fx, mut fy, mut fs, mut fa) = (marked(2), marked(2), marked(2), marked(2));
    assert!(s.eval(&x, &mut fx));
    assert!(s.eval(&y, &mut fy));
    assert!(s.eval(&sum, &mut fs));
    assert!(s.eval(&scaled, &mut fa));
    for i in 0..2 {
        assert!((fs[i] - (fx[i] + fy[i])).abs() <= 1);
        assert!(2 * (fa[i] - 5 * fx[i]).abs() <= 6);
    }
}

#[test]
fn clipper_replaces_negatives_only() {
    let s = Stage::new_clip_negatives(4);
    assert_eq!(s.ty, StageType::ClipNegatives);
    let input = vec![-ONE, 0, ONE / 3, 5 * ONE, -1];
    let mut output = marked(5);
    clipper(&input, &mut output, &s);
    assert_eq!(output, vec![0, 0, ONE / 3, 5 * ONE, -7]);
}

#[test]
fn identity_copies_its_channels() {
    let s = Stage::new_identity(3);
    assert_eq!(s.ty, StageType::Identity);
    let input = vec![1, -2, 3, 4];
    let mut output = marked(4);
    assert!(s.eval(&input, &mut output));
    assert_eq!(output, vec![1, -2, 3, -7]);
}

#[test]
fn identity_curves_behave_as_identity() {
    let s = Stage::new_identity_curves(2);
    assert_eq!(s.ty, StageType::CurveSet);
    assert_eq!(s.implements, StageType::Identity);
    assert!(s.is_builtin());
    let mut output = marked(3);
    assert!(s.eval(&vec![11, 22, 33], &mut output));
    assert_eq!(output, vec![11, 22, -7]);
}

#[test]
fn tone_curves_default_to_unit_gamma() {
    let s = Stage::new_tone_curves(3, None);
    assert_eq!(s.implements, StageType::CurveSet);
    assert_eq!(s.input_channels, 3);
    assert_eq!(s.output_channels, 3);
    match &s.data {
        StageData::Curves(c) => assert_eq!(c, &vec![CurveHandle::UnitGamma; 3]),
        _ => panic!("a curve stage holds curves"),
    }
}

#[test]
fn external_curves_need_their_sampler() {
    let curves = vec![CurveHandle::UnitGamma, CurveHandle::External(9)];
    let s = Stage::new_tone_curves(2, Some(&curves));
    assert!(!s.is_builtin());
    let mut output = marked(2);
    assert!(!s.eval(&vec![1, 2], &mut output));
    assert_eq!(output, marked(2));
    match &s.data {
        StageData::Curves(c) => assert_eq!(c, &curves),
        _ => panic!("a curve stage holds curves"),
    }
}

#[test]
fn colorimetric_stages_need_their_conversion() {
    let a = Stage::new_xyz_to_lab();
    let b = Stage::new_lab_to_xyz();
    assert_eq!((a.ty, a.input_channels, a.output_channels), (StageType::XYZ2Lab, 3, 3));
    assert_eq!((b.ty, b.input_channels, b.output_channels), (StageType::Lab2XYZ, 3, 3));
    let mut output = marked(3);
    assert!(!a.eval(&vec![1, 2, 3], &mut output));
    assert!(!b.eval(&vec![1, 2, 3], &mut output));
    assert_eq!(output, marked(3));
}

#[test]
fn semantic_kinds_of_the_matrix_aliases() {
    let stages = vec![
        (Stage::new_labv2_to_v4(), StageType::LabV2toV4),
        (Stage::new_labv4_to_v2(), StageType::LabV4toV2),
        (Stage::new_normalize_from_lab_float(), StageType::Lab2FloatPCS),
        (Stage::new_normalize_to_lab_float(), StageType::FloatPCS2Lab),
        (Stage::new_normalize_from_xyz_float(), StageType::XYZ2FloatPCS),
        (Stage::new_normalize_to_xyz_float(), StageType::FloatPCS2XYZ),
    ];
    for (s, alias) in stages {
        assert_eq!(s.ty, StageType::Matrix);
        assert_eq!(s.implements, alias);
        assert_eq!((s.input_channels, s.output_channels), (3, 3));
    }
}

#[test]
fn lab_v2_to_v4_scales_by_65535_over_65280() {
    let s = Stage::new_labv2_to_v4();
    let mut output = marked(3);
    assert!(s.eval(&vec![65280 * 65536, 0, 65280], &mut output));
    assert_eq!(output, vec![ONE, 0, 65535]);
    let back = Stage::new_labv4_to_v2();
    let mut again = marked(3);
    assert!(back.eval(&output, &mut again));
    assert_eq!(again, vec![65280 * 65536, 0, 65280]);
}

#[test]
fn lab_version_round_trip_is_within_one_sample() {
    let up = Stage::new_labv2_to_v4();
    let down = Stage::new_labv4_to_v2();
    for x in [0, 1, 2, 12345, ONE / 3, ONE / 2, ONE - 1, ONE] {
        let input = vec![x, x, x];
        let (mut mid, mut out) = (marked(3), marked(3));
        assert!(up.eval(&input, &mut mid));
        assert!(down.eval(&mid, &mut out));
        assert!((out[0] - x).abs() <= 1);
        assert!(down.eval(&input, &mut mid));
        assert!(up.eval(&mid, &mut out));
        assert!((out[2] - x).abs() <= 1);
    }
}

#[test]
fn normalize_lab_to_float_pcs() {
    let s = Stage::new_normalize_from_lab_float();
    let mut output = marked(3);
    assert!(s.eval(&vec![50 * ONE, 0, 0], &mut output));
    assert_eq!(output, vec![ONE / 2, 128 * (ONE / 255), 128 * (ONE / 255)]);
    assert_eq!(unit(output[0]), 0.5);
    assert!((unit(output[1]) - 0.501960784).abs() < 1e-9);
    assert!((unit(output[2]) - 0.501960784).abs() < 1e-9);
}

#[test]
fn normalize_float_pcs_to_lab_and_back() {
    let to = Stage::new_normalize_to_lab_float();
    let from = Stage::new_normalize_from_lab_float();
    let mut lab = marked(3);
    assert!(to.eval(&vec![ONE, 0, ONE], &mut lab));
    assert_eq!(lab, vec![100 * ONE, -128 * ONE, 127 * ONE]);
    for x in [0, 1, ONE / 7, ONE / 2, ONE] {
        let (mut mid, mut out) = (marked(3), marked(3));
        assert!(to.eval(&vec![x, x, x], &mut mid));
        assert!(from.eval(&mid, &mut out));
        assert_eq!(out, vec![x, x, x]);
    }
}

#[test]
fn normalize_xyz_scales_by_32768_over_65535() {
    let from = Stage::new_normalize_from_xyz_float();
    let to = Stage::new_normalize_to_xyz_float();
    let mut out = marked(3);
    assert!(from.eval(&vec![ONE, 65535, 0], &mut out));
    assert_eq!(out, vec![32768 * 65536, 32768, 0]);
    let mut back = marked(3);
    assert!(to.eval(&out, &mut back));
    assert_eq!(back, vec![ONE, 65535, 0]);
    for x in [0, 1, ONE / 3, ONE / 2, ONE] {
        let (mut mid, mut res) = (marked(3), marked(3));
        assert!(from.eval(&vec![x, x, x], &mut mid));
        assert!(to.eval(&mid, &mut res));
        assert!((res[1] - x).abs() <= 1);
    }
}

#[test]
fn colorimetric_halves_encode_and_decode() {
    let xyz = xyz_to_lab_decode(&vec![ONE, 32768, 0]);
    assert_eq!(xyz, (2 * 65535 * 65535, 65535, 0));
    let mut out = marked(4);
    xyz_to_lab_encode((50 * ONE, 0, -128 * ONE), &mut out);
    assert_eq!(out, vec![ONE / 2, 128 * (ONE / 255), 0, -7]);
    let lab = lab_to_xyz_decode(&vec![ONE / 2, ONE, 0]);
    assert_eq!(lab, (50 * ONE, 127 * ONE, -128 * ONE));
    let mut enc = marked(4);
    lab_to_xyz_encode((2 * 65535 * 65535, 65535, 0), &mut enc);
    assert_eq!(enc, vec![ONE, 32768, 0, -7]);
}

#[test]
fn with_kind_sets_both_kinds() {
    let s = Stage::with_kind(StageType::NamedColor, 1, 3, StageData::NamedColorList(42));
    assert_eq!(s.ty, StageType::NamedColor);
    assert_eq!(s.implements, StageType::NamedColor);
    assert_eq!((s.input_channels, s.output_channels), (1, 3));
    assert!(!s.is_builtin());
}

#[test]
fn duplicate_is_a_deep_copy() {
    let s = Stage::new_normalize_from_lab_float();
    let d = s.duplicate();
    assert_eq!(d.ty, s.ty);
    assert_eq!(d.implements, s.implements);
    assert_eq!((d.input_channels, d.output_channels), (3, 3));
    match (&s.data, &d.data) {
        (
            StageData::Matrix { coeffs: a, offset: ao, denom: ad },
            StageData::Matrix { coeffs: b, offset: bo, denom: bd },
        ) => {
            assert_eq!(a, b);
            assert_eq!(ao, bo);
            assert_eq!(ad, bd);
            assert_eq!(b, &vec![51, 0, 0, 0, 20, 0, 0, 0, 20]);
            assert_eq!(bo, &Some(vec![0, 2560, 2560]));
            assert_eq!(*bd, 5100);
        }
        _ => panic!("both hold a matrix"),
    }
}

#[test]
fn well_formed_stages_are_recognized() {
    assert!(Stage::new_labv2_to_v4().well_formed());
    assert!(Stage::new_xyz_to_lab().well_formed());
    assert!(Stage::new_identity_curves(128).well_formed());
    assert!(Stage::with_kind(StageType::CLut, 3, 4, StageData::Empty).well_formed());
    assert!(!Stage::with_kind(StageType::Matrix, 3, 3, StageData::Empty).well_formed());
    assert!(!Stage::with_kind(StageType::Identity, 129, 129, StageData::Empty).well_formed());
    assert!(!Stage::with_kind(StageType::Identity, 2, 3, StageData::Empty).well_formed());
    assert!(!Stage::with_kind(StageType::XYZ2Lab, 4, 3, StageData::Empty).well_formed());
    let short = StageData::Matrix { coeffs: vec![1, 2, 3], offset: None, denom: 1 };
    assert!(!Stage::with_kind(StageType::Matrix, 2, 2, short).well_formed());
    let zero = StageData::Matrix { coeffs: vec![1], offset: None, denom: 0 };
    assert!(!Stage::with_kind(StageType::Matrix, 1, 1, zero).well_formed());
    let offs = StageData::Matrix { coeffs: vec![1], offset: Some(vec![1, 2]), denom: 1 };
    assert!(!Stage::with_kind(StageType::Matrix, 1, 1, offs).well_formed());
    let curves = StageData::Curves(vec![CurveHandle::UnitGamma]);
    assert!(!Stage::with_kind(StageType::CurveSet, 2, 2, curves).well_formed());
}

#[test]
fn sampled_curves_fill_the_external_channels() {
    let curves = vec![CurveHandle::UnitGamma, CurveHandle::External(9), CurveHandle::UnitGamma];
    let s = Stage::new_tone_curves(3, Some(&curves));
    let mut output = marked(4);
    evaluate_curves_with(&vec![1, 2, 3, 4], &vec![10, 20, 30], &mut output, &s);
    assert_eq!(output, vec![1, 20, 3, -7]);
}
