//! Laws of the engine, stated over the models that the contracts use.

use vstd::prelude::*;
use vstd::arithmetic::div_mod::{lemma_fundamental_div_mod, lemma_mod_bound};
use crate::pipeline::{
    decoded,
    lemma_pause_skip,
    loaded,
    run_spec,
    start_buffers,
    Buffers,
    PipelineModel,
};
use crate::sample::{decode_code, encode_sample, quantize, round_div, MAX_STAGE_CHANNELS, ONE};
use crate::stage::{
    affine_spec,
    clip_negative,
    diagonal3,
    lab_v2_to_v4_model,
    lab_v4_to_v2_model,
    normalize_from_lab_model,
    normalize_from_xyz_model,
    normalize_to_lab_model,
    normalize_to_xyz_model,
    diagonal_stage,
    dot,
    StageDataModel,
    StageModel,
};
use crate::stage_type::StageType;

verus! {

/// Rounding moves a quotient by at most half a unit:
/// `|d * round_div(a, d) - a| <= d / 2`.
pub proof fn lemma_round_div_error(a: int, d: int)
    requires
        d > 0,
    ensures
        -d <= 2 * (d * round_div(a, d) - a) <= d,
{
    let m = if a >= 0 {
        a
    } else {
        -a
    };
    let q = (2 * m + d) / (2 * d);
    lemma_fundamental_div_mod(2 * m + d, 2 * d);
    lemma_mod_bound(2 * m + d, 2 * d);
    assert((2 * d) * q == 2 * (d * q)) by (nonlinear_arith);
    if a < 0 {
        assert(d * (-q) == -(d * q)) by (nonlinear_arith);
    }
}

/// A 16-bit code survives decoding and quantization unchanged, and the two
/// ends of the code range are the samples 0 and one.
pub proof fn law_code_round_trip(v: u16)
    ensures
        encode_sample(decode_code(v)) == v,
        decode_code(0) == 0,
        decode_code(65535) == ONE,
{
}

/// Arity invariant: the cached counts of a well-formed pipeline with
/// stages are the input count of its first stage and the output count of
/// its last, and both fit a scratch buffer.
pub proof fn law_arity_invariant(p: PipelineModel)
    requires
        p.wf(),
        p.stages.len() > 0,
    ensures
        p.input_channels == p.stages[0].input_channels,
        p.output_channels == p.stages[p.stages.len() - 1].output_channels,
        p.input_channels <= MAX_STAGE_CHANNELS,
        p.output_channels <= MAX_STAGE_CHANNELS,
{
    assert(p.stages[0].wf());
    assert(p.stages[p.stages.len() - 1].wf());
}

/// A run in two parts is the run as a whole: the stages `from..mid` and
/// then `mid..to` leave the buffers as the stages `from..to` do.
pub proof fn law_run_composes(stages: Seq<StageModel>, from: int, mid: int, to: int, b: Buffers)
    requires
        from <= mid <= to,
    ensures
        run_spec(stages, mid, to, run_spec(stages, from, mid, b)) == run_spec(stages, from, to, b),
    decreases to - mid,
{
    if mid < to {
        law_run_composes(stages, from, mid, to - 1, b);
    }
}

/// A curve set of unit-gamma curves needs no sampler: with any sampled
/// values it gives what the builtin kernel gives.
pub proof fn law_unit_gamma_needs_no_sampler(
    s: StageModel,
    x: Seq<i64>,
    sampled: Seq<i64>,
    prev: Seq<i64>,
)
    requires
        s.wf(),
        s.ty == StageType::CurveSet,
        s.is_builtin(),
    ensures
        s.apply_sampled(x, sampled, prev) == s.apply(x, prev),
{
    assert(s.apply_sampled(x, sampled, prev) =~= s.apply(x, prev));
}

/// The clipper gives every channel the larger of its input and zero.
pub proof fn law_clipper_is_max(s: StageModel, x: Seq<i64>, prev: Seq<i64>, i: int)
    requires
        s.wf(),
        s.ty == StageType::ClipNegatives,
        0 <= i < s.input_channels,
        i < prev.len(),
    ensures
        s.apply(x, prev)[i] == (if x[i] >= 0 {
            x[i]
        } else {
            0
        }),
        s.apply(x, prev)[i] >= 0,
        s.apply(x, prev)[i] >= x[i],
{
    assert(s.channel(x, i) == clip_negative(x[i] as int));
}

/// The matrix accumulator is additive: on the channel-wise sum of two
/// inputs it is the sum of the two accumulators.
pub proof fn law_dot_additive(
    coeffs: Seq<i32>,
    base: int,
    x: Seq<i64>,
    y: Seq<i64>,
    z: Seq<i64>,
    n: int,
)
    requires
        forall|j: int| 0 <= j < n ==> z[j] == x[j] + y[j],
    ensures
        dot(coeffs, base, z, n) == dot(coeffs, base, x, n) + dot(coeffs, base, y, n),
    decreases n,
{
    if n > 0 {
        law_dot_additive(coeffs, base, x, y, z, n - 1);
        let c = coeffs[base + n - 1] as int;
        let a = x[n - 1] as int;
        let b = y[n - 1] as int;
        assert((a + b) * c == a * c + b * c) by (nonlinear_arith);
    }
}

/// The matrix accumulator is homogeneous: on an input scaled by `a` it is
/// `a` times the accumulator.
pub proof fn law_dot_homogeneous(coeffs: Seq<i32>, base: int, a: int, x: Seq<i64>, z: Seq<i64>, n: int)
    requires
        forall|j: int| 0 <= j < n ==> z[j] == a * x[j],
    ensures
        dot(coeffs, base, z, n) == a * dot(coeffs, base, x, n),
    decreases n,
{
    if n > 0 {
        law_dot_homogeneous(coeffs, base, a, x, z, n - 1);
        let c = coeffs[base + n - 1] as int;
        let v = x[n - 1] as int;
        let rest = dot(coeffs, base, x, n - 1);
        assert((a * v) * c == a * (v * c)) by (nonlinear_arith);
        assert(a * (rest + v * c) == a * rest + a * (v * c)) by (nonlinear_arith);
    } else {
        assert(a * 0 == 0);
    }
}

/// A matrix stage without offset whose outputs on `x`, `y` and `z` stay
/// inside the sample range.
pub open spec fn linear_on(s: StageModel, x: Seq<i64>, i: int) -> bool {
    match s.data {
        StageDataModel::Matrix { coeffs, offset, denom } => {
            &&& offset is None
            &&& i64::MIN <= round_div(s.matrix_acc(x, i), denom as int) <= i64::MAX
        },
        _ => false,
    }
}

/// Matrix linearity, sums: a matrix stage without offset maps the sum of
/// two inputs to the sum of their outputs, up to one sample of rounding,
/// wherever no output saturates.
pub proof fn law_matrix_additive(s: StageModel, x: Seq<i64>, y: Seq<i64>, z: Seq<i64>, i: int)
    requires
        s.wf(),
        s.ty == StageType::Matrix,
        0 <= i < s.output_channels,
        forall|j: int| 0 <= j < s.input_channels ==> z[j] == x[j] + y[j],
        linear_on(s, x, i),
        linear_on(s, y, i),
        linear_on(s, z, i),
    ensures
        s.matrix_acc(z, i) == s.matrix_acc(x, i) + s.matrix_acc(y, i),
        -1 <= s.channel(z, i) - (s.channel(x, i) + s.channel(y, i)) <= 1,
{
    match s.data {
        StageDataModel::Matrix { coeffs, offset, denom } => {
            let n = s.input_channels as int;
            let d = denom as int;
            law_dot_additive(coeffs, i * n, x, y, z, n);
            let ax = s.matrix_acc(x, i);
            let ay = s.matrix_acc(y, i);
            let az = s.matrix_acc(z, i);
            lemma_round_div_error(ax, d);
            lemma_round_div_error(ay, d);
            lemma_round_div_error(az, d);
            let rx = round_div(ax, d);
            let ry = round_div(ay, d);
            let rz = round_div(az, d);
            assert(s.channel(x, i) == rx);
            assert(s.channel(y, i) == ry);
            assert(s.channel(z, i) == rz);
            let t = rz - (rx + ry);
            assert(d * t == d * rz - d * rx - d * ry) by (nonlinear_arith)
                requires
                    t == rz - (rx + ry),
            ;
            assert(-1 <= t <= 1) by (nonlinear_arith)
                requires
                    d > 0,
                    -3 * d <= 2 * (d * t) <= 3 * d,
            ;
        },
        _ => {},
    }
}

/// Matrix linearity, multiples: a matrix stage without offset maps `a`
/// times an input to `a` times its output, up to `(|a| + 1) / 2` samples
/// of rounding, wherever no output saturates.
pub proof fn law_matrix_homogeneous(s: StageModel, a: int, x: Seq<i64>, z: Seq<i64>, i: int)
    requires
        s.wf(),
        s.ty == StageType::Matrix,
        0 <= i < s.output_channels,
        forall|j: int| 0 <= j < s.input_channels ==> z[j] == a * x[j],
        linear_on(s, x, i),
        linear_on(s, z, i),
    ensures
        s.matrix_acc(z, i) == a * s.matrix_acc(x, i),
        a >= 0 ==> -(a + 1) <= 2 * (s.channel(z, i) - a * s.channel(x, i)) <= a + 1,
        a < 0 ==> -(1 - a) <= 2 * (s.channel(z, i) - a * s.channel(x, i)) <= 1 - a,
{
    match s.data {
        StageDataModel::Matrix { coeffs, offset, denom } => {
            let n = s.input_channels as int;
            let d = denom as int;
            law_dot_homogeneous(coeffs, i * n, a, x, z, n);
            let ax = s.matrix_acc(x, i);
            let az = s.matrix_acc(z, i);
            lemma_round_div_error(ax, d);
            lemma_round_div_error(az, d);
            let rx = round_div(ax, d);
            let rz = round_div(az, d);
            assert(s.channel(x, i) == rx);
            assert(s.channel(z, i) == rz);
            let t = rz - a * rx;
            let ex = d * rx - ax;
            let ez = d * rz - az;
            assert(d * t == ez - a * ex) by (nonlinear_arith)
                requires
                    t == rz - a * rx,
                    ex == d * rx - ax,
                    ez == d * rz - az,
                    az == a * ax,
            ;
            if a >= 0 {
                assert(-(a + 1) <= 2 * t <= a + 1) by (nonlinear_arith)
                    requires
                        d > 0,
                        a >= 0,
                        -d <= 2 * ex <= d,
                        -d <= 2 * ez <= d,
                        d * t == ez - a * ex,
                ;
            } else {
                assert(-(1 - a) <= 2 * t <= 1 - a) by (nonlinear_arith)
                    requires
                        d > 0,
                        a < 0,
                        -d <= 2 * ex <= d,
                        -d <= 2 * ez <= d,
                        d * t == ez - a * ex,
                ;
            }
        },
        _ => {},
    }
}

/// A chain of identity stages that all carry at least `n` channels leaves
/// the leading `n` entries of the current buffer as they were.
pub proof fn lemma_identity_chain(stages: Seq<StageModel>, to: int, b: Buffers, n: int)
    requires
        0 <= to <= stages.len(),
        forall|k: int| 0 <= k < to ==> (#[trigger] stages[k]).is_identity(),
        forall|k: int| 0 <= k < to ==> (#[trigger] stages[k]).output_channels >= n,
        b.cur.len() == b.next.len(),
        n <= b.cur.len(),
    ensures
        run_spec(stages, 0, to, b).cur.len() == b.cur.len(),
        run_spec(stages, 0, to, b).next.len() == b.cur.len(),
        forall|i: int| 0 <= i < n ==> run_spec(stages, 0, to, b).cur[i] == b.cur[i],
    decreases to,
{
    if to > 0 {
        lemma_identity_chain(stages, to - 1, b, n);
        let s = stages[to - 1];
        let before = run_spec(stages, 0, to - 1, b);
        assert(s.is_identity());
        assert(s.output_channels >= n);
        assert forall|i: int| 0 <= i < n implies s.apply(before.cur, before.next)[i]
            == before.cur[i] by {
            assert(s.channel(before.cur, i) == before.cur[i]);
        }
    }
}

/// Identity law, samples: an empty pipeline, or one of identity stages
/// that all carry the pipeline's channel count, is evaluated without a
/// collaborator and hands every input channel to the output unchanged.
pub proof fn law_identity_float(p: PipelineModel, x: Seq<i64>, prev: Seq<i64>)
    requires
        p.wf(),
        forall|k: int| 0 <= k < p.stages.len() ==> (#[trigger] p.stages[k]).is_identity(),
        forall|k: int|
            0 <= k < p.stages.len() ==> (#[trigger] p.stages[k]).output_channels
                == p.output_channels,
    ensures
        p.self_contained(),
        forall|i: int|
            0 <= i < p.output_channels && i < x.len() && i < prev.len() ==> p.eval_float_spec(
                x,
                prev,
            )[i] == x[i],
{
    let len = p.stages.len() as int;
    assert forall|k: int| 0 <= k < len implies (#[trigger] p.stages[k]).is_builtin() by {
        assert(p.stages[k].is_identity());
    }
    lemma_pause_skip(p.stages, 0, len);
    if len > 0 {
        assert(p.stages[len - 1].wf());
    }
    lemma_identity_chain(p.stages, len, start_buffers(x), p.output_channels as int);
    assert forall|i: int|
        0 <= i < p.output_channels && i < x.len() && i < prev.len() implies p.eval_float_spec(
        x,
        prev,
    )[i] == x[i] by {
        assert(p.result(x)[i] == loaded(x)[i]);
    }
}

/// Identity law, 16-bit codes: such a pipeline hands every input code to
/// the output exactly.
pub proof fn law_identity_16(p: PipelineModel, x: Seq<u16>, prev: Seq<u16>)
    requires
        p.wf(),
        forall|k: int| 0 <= k < p.stages.len() ==> (#[trigger] p.stages[k]).is_identity(),
        forall|k: int|
            0 <= k < p.stages.len() ==> (#[trigger] p.stages[k]).output_channels
                == p.output_channels,
    ensures
        p.self_contained(),
        forall|i: int|
            0 <= i < p.output_channels && i < x.len() && i < prev.len() ==> p.eval_16_spec(
                x,
                prev,
            )[i] == x[i],
{
    let len = p.stages.len() as int;
    assert forall|k: int| 0 <= k < len implies (#[trigger] p.stages[k]).is_builtin() by {
        assert(p.stages[k].is_identity());
    }
    lemma_pause_skip(p.stages, 0, len);
    if len > 0 {
        assert(p.stages[len - 1].wf());
    }
    lemma_identity_chain(p.stages, len, start_buffers(decoded(x)), p.output_channels as int);
    assert forall|i: int|
        0 <= i < p.output_channels && i < x.len() && i < prev.len() implies p.eval_16_spec(
        x,
        prev,
    )[i] == x[i] by {
        assert(p.result(decoded(x))[i] == loaded(decoded(x))[i]);
        law_code_round_trip(x[i]);
    }
}

/// A diagonal 3x3 matrix stage is one affine map per channel.
pub proof fn lemma_diagonal_channel(
    implements: StageType,
    d0: i32,
    d1: i32,
    d2: i32,
    offset: Option<Seq<i32>>,
    denom: u32,
    x: Seq<i64>,
    i: int,
)
    requires
        0 <= i < 3,
        x.len() >= 3,
        denom > 0,
        offset matches Some(o) ==> o.len() == 3,
    ensures
        diagonal_stage(implements, d0, d1, d2, offset, denom).channel(x, i) == affine_spec(
            x[i] as int,
            (if i == 0 {
                d0
            } else if i == 1 {
                d1
            } else {
                d2
            }) as int,
            match offset {
                Some(o) => o[i] as int,
                None => 0,
            },
            denom as int,
        ),
{
    reveal_with_fuel(dot, 4);
    let s = diagonal_stage(implements, d0, d1, d2, offset, denom);
    let m = diagonal3(d0, d1, d2);
    assert(m[0] == d0 && m[1] == 0 && m[2] == 0);
    assert(m[3] == 0 && m[4] == d1 && m[5] == 0);
    assert(m[6] == 0 && m[7] == 0 && m[8] == d2);
    assert(i * s.input_channels == 3 * i);
    assert forall|j: int, k: int| 0 <= j < 3 && 0 <= k < 9 && m[k] == 0 implies #[trigger] (x[j]
        * m[k]) == 0 by {
        assert(x[j] * 0 == 0);
    }
    if i == 0 {
        assert(dot(m, 0, x, 3) == x[0] * d0);
    } else if i == 1 {
        assert(dot(m, 3, x, 3) == x[1] * d1);
    } else {
        assert(dot(m, 6, x, 3) == x[2] * d2);
    }
}

/// Round-trip law, Lab version 2 and version 4: the rescale by
/// `65535 / 65280` followed by the rescale by `65280 / 65535`, or the two
/// in the other order, gives back every sample between zero and one to
/// within one sample.
pub proof fn law_lab_v2_v4_round_trip(x: int)
    requires
        0 <= x <= ONE,
    ensures
        -1 <= affine_spec(affine_spec(x, 65535, 0, 65280), 65280, 0, 65535) - x <= 1,
        -1 <= affine_spec(affine_spec(x, 65280, 0, 65535), 65535, 0, 65280) - x <= 1,
{
    lemma_round_div_error(x * 65535, 65280);
    lemma_round_div_error(round_div(x * 65535, 65280) * 65280, 65535);
    lemma_round_div_error(x * 65280, 65535);
    lemma_round_div_error(round_div(x * 65280, 65535) * 65535, 65280);
}

/// Round-trip law, XYZ: the scale by `32768 / 65535` followed by the scale
/// by `65535 / 32768`, or the two in the other order, gives back every
/// sample between zero and two to within one sample.
pub proof fn law_xyz_normalize_round_trip(x: int)
    requires
        0 <= x <= 2 * ONE,
    ensures
        -1 <= affine_spec(affine_spec(x, 32768, 0, 65535), 65535, 0, 32768) - x <= 1,
        -1 <= affine_spec(affine_spec(x, 65535, 0, 32768), 32768, 0, 65535) - x <= 1,
{
    lemma_round_div_error(x * 32768, 65535);
    lemma_round_div_error(round_div(x * 32768, 65535) * 65535, 32768);
    lemma_round_div_error(x * 65535, 32768);
    lemma_round_div_error(round_div(x * 65535, 32768) * 32768, 65535);
}

/// Round-trip law, Lab lightness: from the 0..1 range to Lab and back is
/// exact; from Lab to the 0..1 range and back is within 50 samples, for
/// lightness between 0 and 100.
pub proof fn law_lab_lightness_round_trip(x: int, l: int)
    requires
        0 <= x <= ONE,
        0 <= l <= 100 * ONE,
    ensures
        affine_spec(affine_spec(x, 100, 0, 1), 51, 0, 5100) == x,
        -50 <= affine_spec(affine_spec(l, 51, 0, 5100), 100, 0, 1) - l <= 50,
{
    lemma_round_div_error(x * 100, 1);
    lemma_round_div_error(x * 100 * 51, 5100);
    lemma_round_div_error(l * 51, 5100);
    lemma_round_div_error(round_div(l * 51, 5100) * 100, 1);
}

/// Round-trip law, Lab chroma: from the 0..1 range to Lab and back is
/// exact; from Lab to the 0..1 range and back is within 128 samples, for
/// chroma between -128 and 127.
pub proof fn law_lab_chroma_round_trip(x: int, c: int)
    requires
        0 <= x <= ONE,
        -128 * ONE <= c <= 127 * ONE,
    ensures
        affine_spec(affine_spec(x, 255, -128, 1), 20, 2560, 5100) == x,
        -128 <= affine_spec(affine_spec(c, 20, 2560, 5100), 255, -128, 1) - c <= 128,
{
    let up = x * 255 + (-128) * ONE;
    lemma_round_div_error(up, 1);
    lemma_round_div_error(up * 20 + 2560 * ONE, 5100);
    let down = c * 20 + 2560 * ONE;
    lemma_round_div_error(down, 5100);
    lemma_round_div_error(round_div(down, 5100) * 255 + (-128) * ONE, 1);
}


/// Round-trip law for the Lab version stages: one after the other, in
/// either order, gives back every channel between zero and one to within
/// one sample.
pub proof fn law_lab_version_stages_round_trip(x: Seq<i64>, mid: Seq<i64>, out: Seq<i64>, i: int)
    requires
        x.len() >= 3,
        mid.len() >= 3,
        out.len() >= 3,
        0 <= i < 3,
        0 <= x[i] <= ONE,
    ensures
        -1 <= lab_v4_to_v2_model().apply(lab_v2_to_v4_model().apply(x, mid), out)[i] - x[i] <= 1,
        -1 <= lab_v2_to_v4_model().apply(lab_v4_to_v2_model().apply(x, mid), out)[i] - x[i] <= 1,
{
    let up = lab_v2_to_v4_model().apply(x, mid);
    let down = lab_v4_to_v2_model().apply(x, mid);
    lemma_diagonal_channel(StageType::LabV2toV4, 65535, 65535, 65535, None, 65280, x, i);
    lemma_diagonal_channel(StageType::LabV4toV2, 65280, 65280, 65280, None, 65535, up, i);
    lemma_diagonal_channel(StageType::LabV4toV2, 65280, 65280, 65280, None, 65535, x, i);
    lemma_diagonal_channel(StageType::LabV2toV4, 65535, 65535, 65535, None, 65280, down, i);
    law_lab_v2_v4_round_trip(x[i] as int);
}

/// Round-trip law for the XYZ normalization stages: one after the other,
/// in either order, gives back every channel between zero and one to
/// within one sample.
pub proof fn law_xyz_stages_round_trip(x: Seq<i64>, mid: Seq<i64>, out: Seq<i64>, i: int)
    requires
        x.len() >= 3,
        mid.len() >= 3,
        out.len() >= 3,
        0 <= i < 3,
        0 <= x[i] <= ONE,
    ensures
        -1 <= normalize_to_xyz_model().apply(normalize_from_xyz_model().apply(x, mid), out)[i] - x[i] <= 1,
        -1 <= normalize_from_xyz_model().apply(normalize_to_xyz_model().apply(x, mid), out)[i] - x[i] <= 1,
{
    let down = normalize_from_xyz_model().apply(x, mid);
    let up = normalize_to_xyz_model().apply(x, mid);
    lemma_diagonal_channel(StageType::XYZ2FloatPCS, 32768, 32768, 32768, None, 65535, x, i);
    lemma_diagonal_channel(StageType::FloatPCS2XYZ, 65535, 65535, 65535, None, 32768, down, i);
    lemma_diagonal_channel(StageType::FloatPCS2XYZ, 65535, 65535, 65535, None, 32768, x, i);
    lemma_diagonal_channel(StageType::XYZ2FloatPCS, 32768, 32768, 32768, None, 65535, up, i);
    law_xyz_normalize_round_trip(x[i] as int);
}

/// Round-trip law for the Lab normalization stages: from the 0..1 range to
/// Lab and back gives every channel between zero and one back exactly.
pub proof fn law_lab_stages_round_trip(x: Seq<i64>, mid: Seq<i64>, out: Seq<i64>, i: int)
    requires
        x.len() >= 3,
        mid.len() >= 3,
        out.len() >= 3,
        0 <= i < 3,
        0 <= x[i] <= ONE,
    ensures
        normalize_from_lab_model().apply(normalize_to_lab_model().apply(x, mid), out)[i] == x[i],
{
    let lab = normalize_to_lab_model().apply(x, mid);
    let to_off = seq![0i32, -128i32, -128i32];
    let from_off = seq![0i32, 2560i32, 2560i32];
    lemma_diagonal_channel(StageType::FloatPCS2Lab, 100, 255, 255, Some(to_off), 1, x, i);
    lemma_diagonal_channel(StageType::Lab2FloatPCS, 51, 20, 20, Some(from_off), 5100, lab, i);
    law_lab_lightness_round_trip(x[i] as int, 0);
    law_lab_chroma_round_trip(x[i] as int, 0);
}

} // verus!
