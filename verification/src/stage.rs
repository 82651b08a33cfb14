//! Stages: one transform step each, with its payload and its kernel.

use vstd::prelude::*;
use crate::sample::{quantize, quantize_acc, MAX_STAGE_CHANNELS, ONE};
use crate::stage_type::StageType;

verus! {

/// A handle on a tone curve. The unit-gamma curve maps every sample to
/// itself; any other curve is sampled by its owner.
#[derive(Debug, Clone, Copy, PartialEq, Eq, Structural)]
pub enum CurveHandle {
    UnitGamma,
    External(u64),
}

/// The payload of a stage.
#[derive(Debug)]
pub enum StageData {
    /// No payload.
    Empty,
    /// Row-major coefficients and an optional offset vector, all over the
    /// common denominator `denom`.
    Matrix { coeffs: Vec<i32>, offset: Option<Vec<i32>>, denom: u32 },
    /// One curve handle per channel.
    Curves(Vec<CurveHandle>),
    /// A handle on a named-color table.
    NamedColorList(u64),
}

/// The mathematical value of a payload.
pub enum StageDataModel {
    Empty,
    Matrix { coeffs: Seq<i32>, offset: Option<Seq<i32>>, denom: u32 },
    Curves(Seq<CurveHandle>),
    NamedColorList(u64),
}

impl View for StageData {
    type V = StageDataModel;

    open spec fn view(&self) -> StageDataModel {
        match self {
            StageData::Empty => StageDataModel::Empty,
            StageData::Matrix { coeffs, offset, denom } => StageDataModel::Matrix {
                coeffs: coeffs@,
                offset: match offset {
                    Some(o) => Some(o@),
                    None => None,
                },
                denom: *denom,
            },
            StageData::Curves(c) => StageDataModel::Curves(c@),
            StageData::NamedColorList(h) => StageDataModel::NamedColorList(*h),
        }
    }
}

/// One transform step.
#[derive(Debug)]
pub struct Stage {
    /// The kind that selects the kernel.
    pub ty: StageType,
    /// The kind shown to introspection; the kernel never reads it.
    pub implements: StageType,
    pub input_channels: u32,
    pub output_channels: u32,
    pub data: StageData,
}

/// The mathematical value of a stage.
pub struct StageModel {
    pub ty: StageType,
    pub implements: StageType,
    pub input_channels: u32,
    pub output_channels: u32,
    pub data: StageDataModel,
}

impl View for Stage {
    type V = StageModel;

    open spec fn view(&self) -> StageModel {
        StageModel {
            ty: self.ty,
            implements: self.implements,
            input_channels: self.input_channels,
            output_channels: self.output_channels,
            data: self.data@,
        }
    }
}

/// Bound on the magnitude of one product of a sample and a coefficient.
pub open spec fn term_bound() -> int {
    0x4000_0000_0000_0000_0000_0000
}

/// The sum of `x[j] * coeffs[base + j]` over `j < n`.
pub open spec fn dot(coeffs: Seq<i32>, base: int, x: Seq<i64>, n: int) -> int
    decreases n,
{
    if n <= 0 {
        0
    } else {
        dot(coeffs, base, x, n - 1) + x[n - 1] * coeffs[base + n - 1]
    }
}

/// Every curve of the set is the unit-gamma curve.
pub open spec fn all_unit_gamma(curves: Seq<CurveHandle>) -> bool {
    forall|i: int| 0 <= i < curves.len() ==> curves[i] == CurveHandle::UnitGamma
}

/// The output of one curve: the input under the unit-gamma curve, else
/// the value that the curve's sampler gave.
pub open spec fn pick_sample(curve: CurveHandle, x: i64, sampled: i64) -> i64 {
    match curve {
        CurveHandle::UnitGamma => x,
        CurveHandle::External(_) => sampled,
    }
}

/// `x` with negative values replaced by zero.
pub open spec fn clip_negative(x: int) -> int {
    if x < 0 {
        0
    } else {
        x
    }
}

impl StageModel {
    /// The payload is the one that the kind's kernel reads, with the sizes
    /// that the channel counts ask for, and both counts fit a scratch buffer.
    pub open spec fn wf(self) -> bool {
        &&& self.input_channels <= MAX_STAGE_CHANNELS
        &&& self.output_channels <= MAX_STAGE_CHANNELS
        &&& match self.ty {
            StageType::Matrix => match self.data {
                StageDataModel::Matrix { coeffs, offset, denom } => {
                    &&& denom > 0
                    &&& coeffs.len() == self.output_channels * self.input_channels
                    &&& (offset matches Some(o) ==> o.len() == self.output_channels)
                },
                _ => false,
            },
            StageType::CurveSet => match self.data {
                StageDataModel::Curves(c) => {
                    &&& c.len() == self.input_channels
                    &&& self.output_channels == self.input_channels
                },
                _ => false,
            },
            StageType::XYZ2Lab | StageType::Lab2XYZ => {
                &&& self.data is Empty
                &&& self.input_channels == 3
                &&& self.output_channels == 3
            },
            StageType::Identity | StageType::ClipNegatives => {
                &&& self.data is Empty
                &&& self.output_channels == self.input_channels
            },
            StageType::NamedColor => self.data is NamedColorList,
            _ => true,
        }
    }

    /// The stage is evaluated by a kernel of this crate; any other stage
    /// needs a collaborator (a curve sampler, a colorimetric conversion, a
    /// table lookup).
    pub open spec fn is_builtin(self) -> bool {
        match self.ty {
            StageType::Matrix | StageType::Identity | StageType::ClipNegatives => true,
            StageType::CurveSet => match self.data {
                StageDataModel::Curves(c) => all_unit_gamma(c),
                _ => false,
            },
            _ => false,
        }
    }

    /// The stage maps every input to itself.
    pub open spec fn is_identity(self) -> bool {
        match self.ty {
            StageType::Identity => true,
            StageType::CurveSet => match self.data {
                StageDataModel::Curves(c) => all_unit_gamma(c),
                _ => false,
            },
            _ => false,
        }
    }

    /// The accumulator of output channel `i` of a matrix stage, over the
    /// stage's common denominator.
    pub open spec fn matrix_acc(self, x: Seq<i64>, i: int) -> int {
        match self.data {
            StageDataModel::Matrix { coeffs, offset, denom } => dot(
                coeffs,
                i * self.input_channels,
                x,
                self.input_channels as int,
            ) + match offset {
                Some(o) => o[i] * ONE,
                None => 0,
            },
            _ => 0,
        }
    }

    /// The value of output channel `i` of a builtin stage on input `x`.
    pub open spec fn channel(self, x: Seq<i64>, i: int) -> int {
        match self.ty {
            StageType::Matrix => match self.data {
                StageDataModel::Matrix { coeffs, offset, denom } => quantize(
                    self.matrix_acc(x, i),
                    denom as int,
                ),
                _ => 0,
            },
            StageType::ClipNegatives => clip_negative(x[i] as int),
            _ => x[i] as int,
        }
    }

    /// The output buffer after a curve-set stage has run on `x`, where
    /// `sampled` holds what the samplers of its curves gave.
    pub open spec fn apply_sampled(self, x: Seq<i64>, sampled: Seq<i64>, prev: Seq<i64>) -> Seq<
        i64,
    > {
        match self.data {
            StageDataModel::Curves(curves) => Seq::new(
                prev.len(),
                |i: int|
                    if i < self.output_channels {
                        pick_sample(curves[i], x[i], sampled[i])
                    } else {
                        prev[i]
                    },
            ),
            _ => prev,
        }
    }

    /// The output buffer after the stage has run on `x`: the leading
    /// `output_channels` entries are written, the others keep what `prev`
    /// held. A stage that needs a collaborator writes nothing.
    pub open spec fn apply(self, x: Seq<i64>, prev: Seq<i64>) -> Seq<i64> {
        if self.is_builtin() {
            Seq::new(
                prev.len(),
                |i: int|
                    if i < self.output_channels {
                        self.channel(x, i) as i64
                    } else {
                        prev[i]
                    },
            )
        } else {
            prev
        }
    }
}

/// Computes one row of a matrix product in a wide accumulator.
fn matrix_row(coeffs: &Vec<i32>, cols: usize, i: usize, input: &Vec<i64>) -> (acc: i128)
    requires
        cols <= MAX_STAGE_CHANNELS,
        (i + 1) * cols <= coeffs.len(),
        cols <= input.len(),
    ensures
        acc == dot(coeffs@, i * cols, input@, cols as int),
        -(cols * term_bound()) <= acc <= cols * term_bound(),
{
    assert(i * cols + cols == (i + 1) * cols) by (nonlinear_arith);
    let base: usize = i * cols;
    let mut acc: i128 = 0;
    let mut j: usize = 0;
    while j < cols
        invariant
            j <= cols,
            cols <= MAX_STAGE_CHANNELS,
            cols <= input.len(),
            base == i * cols,
            base + cols <= coeffs.len(),
            acc == dot(coeffs@, base as int, input@, j as int),
            -(j * term_bound()) <= acc <= j * term_bound(),
        decreases cols - j,
    {
        let a: i128 = input[j] as i128;
        let b: i128 = coeffs[base + j] as i128;
        assert(-term_bound() <= a * b <= term_bound()) by (nonlinear_arith)
            requires
                -0x8000_0000_0000_0000 <= a <= 0x8000_0000_0000_0000,
                -0x8000_0000 <= b <= 0x8000_0000,
        ;
        acc = acc + a * b;
        j = j + 1;
    }
    acc
}

/// Matrix kernel: `output[i] = (sum_j input[j] * M[i, j]) + offset[i]`, each
/// sum kept in a wide accumulator and rounded once.
pub fn evaluate_matrix(input: &Vec<i64>, output: &mut Vec<i64>, stage: &Stage)
    requires
        stage@.wf(),
        stage.ty == StageType::Matrix,
        input.len() >= stage.input_channels,
        old(output).len() >= stage.output_channels,
    ensures
        final(output)@ == stage@.apply(input@, old(output)@),
{
    match &stage.data {
        StageData::Matrix { coeffs, offset, denom } => {
            let rows: usize = stage.output_channels as usize;
            let cols: usize = stage.input_channels as usize;
            let mut i: usize = 0;
            while i < rows
                invariant
                    i <= rows,
                    rows == stage.output_channels,
                    cols == stage.input_channels,
                    stage@.wf(),
                    stage.ty == StageType::Matrix,
                    stage@.data == (StageDataModel::Matrix {
                        coeffs: coeffs@,
                        offset: match offset {
                            Some(o) => Some(o@),
                            None => None,
                        },
                        denom: *denom,
                    }),
                    input.len() >= cols,
                    output.len() == old(output).len(),
                    output.len() >= rows,
                    forall|k: int| 0 <= k < i ==> output[k] == stage@.channel(input@, k),
                    forall|k: int| i <= k < output.len() ==> output[k] == old(output)[k],
                decreases rows - i,
            {
                assert((i + 1) * cols <= rows * cols) by (nonlinear_arith)
                    requires
                        i < rows,
                ;
                let mut acc: i128 = matrix_row(coeffs, cols, i, input);
                assert(cols * term_bound() <= 128 * term_bound()) by (nonlinear_arith)
                    requires
                        cols <= 128,
                ;
                match offset {
                    Some(o) => {
                        let off: i128 = o[i] as i128;
                        acc = acc + off * (ONE as i128);
                    },
                    None => {},
                }
                let v: i64 = quantize_acc(acc, *denom);
                output.set(i, v);
                i = i + 1;
            }
            assert(final(output)@ =~= stage@.apply(input@, old(output)@));
        },
        _ => {},
    }
}

/// Copies the leading `n` entries of `src` to `dest`.
pub fn copy_slice(src: &Vec<i64>, dest: &mut Vec<i64>, n: usize)
    requires
        n <= src.len(),
        n <= old(dest).len(),
    ensures
        final(dest)@.len() == old(dest)@.len(),
        forall|k: int| 0 <= k < n ==> final(dest)@[k] == src@[k],
        forall|k: int| n <= k < old(dest)@.len() ==> final(dest)@[k] == old(dest)@[k],
{
    let mut i: usize = 0;
    while i < n
        invariant
            i <= n,
            n <= src.len(),
            dest.len() == old(dest).len(),
            n <= dest.len(),
            forall|k: int| 0 <= k < i ==> dest[k] == src[k],
            forall|k: int| i <= k < dest.len() ==> dest[k] == old(dest)[k],
        decreases n - i,
    {
        dest.set(i, src[i]);
        i = i + 1;
    }
}

/// Curve-set kernel for unit-gamma curves: every channel passes through.
pub fn evaluate_curves(input: &Vec<i64>, output: &mut Vec<i64>, stage: &Stage)
    requires
        stage@.wf(),
        stage.ty == StageType::CurveSet,
        stage@.is_builtin(),
        input.len() >= stage.input_channels,
        old(output).len() >= stage.output_channels,
    ensures
        final(output)@ == stage@.apply(input@, old(output)@),
{
    copy_slice(input, output, stage.input_channels as usize);
    assert(final(output)@ =~= stage@.apply(input@, old(output)@));
}

/// Curve-set kernel with the collaborator's work done: a channel under the
/// unit-gamma curve passes through, any other channel takes the value
/// that its curve's sampler gave, handed over in `sampled`.
pub fn evaluate_curves_with(
    input: &Vec<i64>,
    sampled: &Vec<i64>,
    output: &mut Vec<i64>,
    stage: &Stage,
)
    requires
        stage@.wf(),
        stage.ty == StageType::CurveSet,
        input.len() >= stage.input_channels,
        sampled.len() >= stage.input_channels,
        old(output).len() >= stage.output_channels,
    ensures
        final(output)@ == stage@.apply_sampled(input@, sampled@, old(output)@),
{
    match &stage.data {
        StageData::Curves(curves) => {
            let n: usize = curves.len();
            let mut i: usize = 0;
            while i < n
                invariant
                    i <= n,
                    n == curves.len(),
                    n == stage.input_channels,
                    n <= input.len(),
                    n <= sampled.len(),
                    output.len() == old(output).len(),
                    n <= output.len(),
                    forall|k: int|
                        0 <= k < i ==> output[k] == pick_sample(curves[k], input[k], sampled[k]),
                    forall|k: int| i <= k < output.len() ==> output[k] == old(output)[k],
                decreases n - i,
            {
                match curves[i] {
                    CurveHandle::UnitGamma => output.set(i, input[i]),
                    CurveHandle::External(_) => output.set(i, sampled[i]),
                }
                i = i + 1;
            }
            assert(final(output)@ =~= stage@.apply_sampled(input@, sampled@, old(output)@));
        },
        _ => {},
    }
}

/// Identity kernel: every channel passes through.
pub fn evaluate_identity(input: &Vec<i64>, output: &mut Vec<i64>, stage: &Stage)
    requires
        stage@.wf(),
        stage.ty == StageType::Identity,
        input.len() >= stage.input_channels,
        old(output).len() >= stage.output_channels,
    ensures
        final(output)@ == stage@.apply(input@, old(output)@),
{
    copy_slice(input, output, stage.input_channels as usize);
    assert(final(output)@ =~= stage@.apply(input@, old(output)@));
}

/// Clips values smaller than zero; no upper bound is applied.
pub fn clipper(input: &Vec<i64>, output: &mut Vec<i64>, stage: &Stage)
    requires
        stage@.wf(),
        stage.ty == StageType::ClipNegatives,
        input.len() >= stage.input_channels,
        old(output).len() >= stage.output_channels,
    ensures
        final(output)@ == stage@.apply(input@, old(output)@),
{
    let n: usize = stage.input_channels as usize;
    let mut i: usize = 0;
    while i < n
        invariant
            i <= n,
            n == stage.input_channels,
            n == stage.output_channels,
            stage.ty == StageType::ClipNegatives,
            n <= input.len(),
            output.len() == old(output).len(),
            n <= output.len(),
            forall|k: int| 0 <= k < i ==> output[k] == clip_negative(input[k] as int),
            forall|k: int| i <= k < output.len() ==> output[k] == old(output)[k],
        decreases n - i,
    {
        let x: i64 = input[i];
        if x < 0 {
            output.set(i, 0);
        } else {
            output.set(i, x);
        }
        i = i + 1;
    }
    assert(final(output)@ =~= stage@.apply(input@, old(output)@));
}


/// The value that an affine map gives to one sample:
/// `(x * num + off) / denom` in real terms, rounded once and saturated.
pub open spec fn affine_spec(x: int, num: int, off: int, denom: int) -> int {
    quantize(x * num + off * ONE, denom)
}

/// Applies an affine map with rational coefficients to one sample.
pub fn affine(x: i64, num: i32, off: i32, denom: u32) -> (r: i64)
    requires
        denom > 0,
    ensures
        r == affine_spec(x as int, num as int, off as int, denom as int),
{
    let a: i128 = x as i128;
    let b: i128 = num as i128;
    assert(-term_bound() <= a * b <= term_bound()) by (nonlinear_arith)
        requires
            -0x8000_0000_0000_0000 <= a <= 0x8000_0000_0000_0000,
            -0x8000_0000 <= b <= 0x8000_0000,
    ;
    let shift: i128 = (off as i128) * 4294901760;
    let acc: i128 = a * b + shift;
    quantize_acc(acc, denom)
}

/// First half of the XYZ to Lab stage: decodes the three encoded channels
/// to XYZ by the largest encodable value, `65535 / 32768`. The colorimetric
/// conversion itself is done by the caller.
pub fn xyz_to_lab_decode(input: &Vec<i64>) -> (xyz: (i64, i64, i64))
    requires
        input.len() >= 3,
    ensures
        xyz.0 == affine_spec(input[0] as int, 65535, 0, 32768),
        xyz.1 == affine_spec(input[1] as int, 65535, 0, 32768),
        xyz.2 == affine_spec(input[2] as int, 65535, 0, 32768),
{
    (
        affine(input[0], 65535, 0, 32768),
        affine(input[1], 65535, 0, 32768),
        affine(input[2], 65535, 0, 32768),
    )
}

/// Second half of the XYZ to Lab stage: encodes a Lab value as
/// `L / 100`, `(a + 128) / 255`, `(b + 128) / 255` into the three leading
/// channels of `output`.
pub fn xyz_to_lab_encode(lab: (i64, i64, i64), output: &mut Vec<i64>)
    requires
        old(output).len() >= 3,
    ensures
        final(output)@ == old(output)@.update(0, affine_spec(lab.0 as int, 1, 0, 100) as i64).update(
            1,
            affine_spec(lab.1 as int, 1, 128, 255) as i64,
        ).update(2, affine_spec(lab.2 as int, 1, 128, 255) as i64),
{
    let l: i64 = affine(lab.0, 1, 0, 100);
    let a: i64 = affine(lab.1, 1, 128, 255);
    let b: i64 = affine(lab.2, 1, 128, 255);
    output.set(0, l);
    output.set(1, a);
    output.set(2, b);
}

/// First half of the Lab to XYZ stage: decodes the three encoded channels
/// to `L = 100 x`, `a = 255 y - 128`, `b = 255 z - 128`.
pub fn lab_to_xyz_decode(input: &Vec<i64>) -> (lab: (i64, i64, i64))
    requires
        input.len() >= 3,
    ensures
        lab.0 == affine_spec(input[0] as int, 100, 0, 1),
        lab.1 == affine_spec(input[1] as int, 255, -128, 1),
        lab.2 == affine_spec(input[2] as int, 255, -128, 1),
{
    (
        affine(input[0], 100, 0, 1),
        affine(input[1], 255, -128, 1),
        affine(input[2], 255, -128, 1),
    )
}

/// Second half of the Lab to XYZ stage: encodes an XYZ value by dividing
/// by the largest encodable value, into the three leading channels of
/// `output`.
pub fn lab_to_xyz_encode(xyz: (i64, i64, i64), output: &mut Vec<i64>)
    requires
        old(output).len() >= 3,
    ensures
        final(output)@ == old(output)@.update(0, affine_spec(xyz.0 as int, 32768, 0, 65535) as i64).update(
            1,
            affine_spec(xyz.1 as int, 32768, 0, 65535) as i64,
        ).update(2, affine_spec(xyz.2 as int, 32768, 0, 65535) as i64),
{
    let x: i64 = affine(xyz.0, 32768, 0, 65535);
    let y: i64 = affine(xyz.1, 32768, 0, 65535);
    let z: i64 = affine(xyz.2, 32768, 0, 65535);
    output.set(0, x);
    output.set(1, y);
    output.set(2, z);
}

/// Copies a coefficient vector.
fn copy_coeffs(v: &Vec<i32>) -> (r: Vec<i32>)
    ensures
        r@ == v@,
{
    let mut r: Vec<i32> = Vec::new();
    let mut i: usize = 0;
    while i < v.len()
        invariant
            i <= v.len(),
            r@ == v@.take(i as int),
        decreases v.len() - i,
    {
        r.push(v[i]);
        assert(r@ =~= v@.take(i + 1));
        i = i + 1;
    }
    assert(v@.take(v.len() as int) =~= v@);
    r
}

/// Copies a list of curve handles.
fn copy_curves(v: &Vec<CurveHandle>) -> (r: Vec<CurveHandle>)
    ensures
        r@ == v@,
{
    let mut r: Vec<CurveHandle> = Vec::new();
    let mut i: usize = 0;
    while i < v.len()
        invariant
            i <= v.len(),
            r@ == v@.take(i as int),
        decreases v.len() - i,
    {
        r.push(v[i]);
        assert(r@ =~= v@.take(i + 1));
        i = i + 1;
    }
    assert(v@.take(v.len() as int) =~= v@);
    r
}

/// The diagonal 3x3 matrix with `d` on its diagonal, row-major.
pub open spec fn diagonal3(d0: i32, d1: i32, d2: i32) -> Seq<i32> {
    seq![d0, 0i32, 0i32, 0i32, d1, 0i32, 0i32, 0i32, d2]
}

/// Builds the row-major diagonal 3x3 matrix.
fn diagonal3_coeffs(d0: i32, d1: i32, d2: i32) -> (m: Vec<i32>)
    ensures
        m@ == diagonal3(d0, d1, d2),
{
    let mut m: Vec<i32> = Vec::new();
    m.push(d0);
    m.push(0);
    m.push(0);
    m.push(0);
    m.push(d1);
    m.push(0);
    m.push(0);
    m.push(0);
    m.push(d2);
    assert(m@ =~= diagonal3(d0, d1, d2));
    m
}

/// The model of a 3x3 diagonal matrix stage with an optional offset.
pub open spec fn diagonal_stage(
    implements: StageType,
    d0: i32,
    d1: i32,
    d2: i32,
    offset: Option<Seq<i32>>,
    denom: u32,
) -> StageModel {
    StageModel {
        ty: StageType::Matrix,
        implements,
        input_channels: 3,
        output_channels: 3,
        data: StageDataModel::Matrix { coeffs: diagonal3(d0, d1, d2), offset, denom },
    }
}

/// The Lab version 2 to version 4 stage.
pub open spec fn lab_v2_to_v4_model() -> StageModel {
    diagonal_stage(StageType::LabV2toV4, 65535, 65535, 65535, None, 65280)
}

/// The Lab version 4 to version 2 stage.
pub open spec fn lab_v4_to_v2_model() -> StageModel {
    diagonal_stage(StageType::LabV4toV2, 65280, 65280, 65280, None, 65535)
}

/// The XYZ to 0..1 stage.
pub open spec fn normalize_from_xyz_model() -> StageModel {
    diagonal_stage(StageType::XYZ2FloatPCS, 32768, 32768, 32768, None, 65535)
}

/// The 0..1 to XYZ stage.
pub open spec fn normalize_to_xyz_model() -> StageModel {
    diagonal_stage(StageType::FloatPCS2XYZ, 65535, 65535, 65535, None, 32768)
}

/// The Lab to 0..1 stage.
pub open spec fn normalize_from_lab_model() -> StageModel {
    diagonal_stage(StageType::Lab2FloatPCS, 51, 20, 20, Some(seq![0i32, 2560i32, 2560i32]), 5100)
}

/// The 0..1 to Lab stage.
pub open spec fn normalize_to_lab_model() -> StageModel {
    diagonal_stage(StageType::FloatPCS2Lab, 100, 255, 255, Some(seq![0i32, -128i32, -128i32]), 1)
}

impl Stage {
    /// Makes a stage of kind `ty`, which is also its semantic kind.
    pub fn with_kind(ty: StageType, input_channels: u32, output_channels: u32, data: StageData) -> (s:
        Stage)
        ensures
            s@ == (StageModel {
                ty,
                implements: ty,
                input_channels,
                output_channels,
                data: data@,
            }),
    {
        Stage { ty, implements: ty, input_channels, output_channels, data }
    }

    /// A curve-set stage of `channels` channels. Without curves it holds one
    /// unit-gamma curve per channel.
    pub fn new_tone_curves(channels: u32, curves: Option<&Vec<CurveHandle>>) -> (s: Stage)
        requires
            channels <= MAX_STAGE_CHANNELS,
            curves matches Some(c) ==> c.len() == channels,
        ensures
            s@ == (StageModel {
                ty: StageType::CurveSet,
                implements: StageType::CurveSet,
                input_channels: channels,
                output_channels: channels,
                data: StageDataModel::Curves(
                    match curves {
                        Some(c) => c@,
                        None => Seq::new(channels as nat, |i: int| CurveHandle::UnitGamma),
                    },
                ),
            }),
            s@.wf(),
    {
        let list: Vec<CurveHandle> = match curves {
            Some(c) => copy_curves(c),
            None => {
                let mut list: Vec<CurveHandle> = Vec::new();
                let mut i: u32 = 0;
                while i < channels
                    invariant
                        i <= channels,
                        list@ == Seq::new(i as nat, |k: int| CurveHandle::UnitGamma),
                    decreases channels - i,
                {
                    list.push(CurveHandle::UnitGamma);
                    i = i + 1;
                    assert(list@ =~= Seq::new(i as nat, |k: int| CurveHandle::UnitGamma));
                }
                list
            },
        };
        Stage::with_kind(StageType::CurveSet, channels, channels, StageData::Curves(list))
    }

    /// A matrix stage of `rows` outputs and `cols` inputs. The coefficients
    /// are row-major; they and the offsets are numerators over `denom`.
    pub fn new_matrix(
        rows: u32,
        cols: u32,
        matrix: &Vec<i32>,
        offset: Option<&Vec<i32>>,
        denom: u32,
    ) -> (s: Stage)
        requires
            rows <= MAX_STAGE_CHANNELS,
            cols <= MAX_STAGE_CHANNELS,
            denom > 0,
            matrix.len() == rows * cols,
            offset matches Some(o) ==> o.len() == rows,
        ensures
            s@ == (StageModel {
                ty: StageType::Matrix,
                implements: StageType::Matrix,
                input_channels: cols,
                output_channels: rows,
                data: StageDataModel::Matrix {
                    coeffs: matrix@,
                    offset: match offset {
                        Some(o) => Some(o@),
                        None => None,
                    },
                    denom,
                },
            }),
            s@.wf(),
    {
        let coeffs: Vec<i32> = copy_coeffs(matrix);
        let offset: Option<Vec<i32>> = match offset {
            Some(o) => Some(copy_coeffs(o)),
            None => None,
        };
        Stage::with_kind(StageType::Matrix, cols, rows, StageData::Matrix { coeffs, offset, denom })
    }

    /// Lab rescale from the version 2 to the version 4 encoding: every
    /// channel times `65535 / 65280`.
    pub fn new_labv2_to_v4() -> (s: Stage)
        ensures
            s@ == lab_v2_to_v4_model(),
            s@.wf(),
    {
        let m: Vec<i32> = diagonal3_coeffs(65535, 65535, 65535);
        let mut stage: Stage = Stage::new_matrix(3, 3, &m, None, 65280);
        stage.implements = StageType::LabV2toV4;
        stage
    }

    /// Lab rescale from the version 4 to the version 2 encoding: every
    /// channel times `65280 / 65535`.
    pub fn new_labv4_to_v2() -> (s: Stage)
        ensures
            s@ == lab_v4_to_v2_model(),
            s@.wf(),
    {
        let m: Vec<i32> = diagonal3_coeffs(65280, 65280, 65280);
        let mut stage: Stage = Stage::new_matrix(3, 3, &m, None, 65535);
        stage.implements = StageType::LabV4toV2;
        stage
    }

    /// The XYZ to Lab stage, of three channels.
    pub fn new_xyz_to_lab() -> (s: Stage)
        ensures
            s@ == (StageModel {
                ty: StageType::XYZ2Lab,
                implements: StageType::XYZ2Lab,
                input_channels: 3,
                output_channels: 3,
                data: StageDataModel::Empty,
            }),
            s@.wf(),
    {
        Stage::with_kind(StageType::XYZ2Lab, 3, 3, StageData::Empty)
    }

    /// The Lab to XYZ stage, of three channels.
    pub fn new_lab_to_xyz() -> (s: Stage)
        ensures
            s@ == (StageModel {
                ty: StageType::Lab2XYZ,
                implements: StageType::Lab2XYZ,
                input_channels: 3,
                output_channels: 3,
                data: StageDataModel::Empty,
            }),
            s@.wf(),
    {
        Stage::with_kind(StageType::Lab2XYZ, 3, 3, StageData::Empty)
    }

    /// A stage that replaces negative values by zero.
    pub fn new_clip_negatives(channels: u32) -> (s: Stage)
        requires
            channels <= MAX_STAGE_CHANNELS,
        ensures
            s@ == (StageModel {
                ty: StageType::ClipNegatives,
                implements: StageType::ClipNegatives,
                input_channels: channels,
                output_channels: channels,
                data: StageDataModel::Empty,
            }),
            s@.wf(),
    {
        Stage::with_kind(StageType::ClipNegatives, channels, channels, StageData::Empty)
    }

    /// From Lab to the 0..1 range:
    /// `L / 100`, `(a + 128) / 255`, `(b + 128) / 255`,
    /// written over the common denominator 5100.
    pub fn new_normalize_from_lab_float() -> (s: Stage)
        ensures
            s@ == normalize_from_lab_model(),
            s@.wf(),
    {
        let m: Vec<i32> = diagonal3_coeffs(51, 20, 20);
        let mut o: Vec<i32> = Vec::new();
        o.push(0);
        o.push(2560);
        o.push(2560);
        assert(o@ =~= seq![0i32, 2560i32, 2560i32]);
        let mut stage: Stage = Stage::new_matrix(3, 3, &m, Some(&o), 5100);
        stage.implements = StageType::Lab2FloatPCS;
        stage
    }

    /// From XYZ to the 0..1 range: every channel times `32768 / 65535`.
    pub fn new_normalize_from_xyz_float() -> (s: Stage)
        ensures
            s@ == normalize_from_xyz_model(),
            s@.wf(),
    {
        let m: Vec<i32> = diagonal3_coeffs(32768, 32768, 32768);
        let mut stage: Stage = Stage::new_matrix(3, 3, &m, None, 65535);
        stage.implements = StageType::XYZ2FloatPCS;
        stage
    }

    /// From the 0..1 range to Lab: `100 x`, `255 y - 128`, `255 z - 128`.
    pub fn new_normalize_to_lab_float() -> (s: Stage)
        ensures
            s@ == normalize_to_lab_model(),
            s@.wf(),
    {
        let m: Vec<i32> = diagonal3_coeffs(100, 255, 255);
        let mut o: Vec<i32> = Vec::new();
        o.push(0);
        o.push(-128);
        o.push(-128);
        assert(o@ =~= seq![0i32, -128i32, -128i32]);
        let mut stage: Stage = Stage::new_matrix(3, 3, &m, Some(&o), 1);
        stage.implements = StageType::FloatPCS2Lab;
        stage
    }

    /// From the 0..1 range to XYZ: every channel times `65535 / 32768`.
    pub fn new_normalize_to_xyz_float() -> (s: Stage)
        ensures
            s@ == normalize_to_xyz_model(),
            s@.wf(),
    {
        let m: Vec<i32> = diagonal3_coeffs(65535, 65535, 65535);
        let mut stage: Stage = Stage::new_matrix(3, 3, &m, None, 32768);
        stage.implements = StageType::FloatPCS2XYZ;
        stage
    }

    /// A stage that copies its channels.
    pub fn new_identity(channels: u32) -> (s: Stage)
        requires
            channels <= MAX_STAGE_CHANNELS,
        ensures
            s@ == (StageModel {
                ty: StageType::Identity,
                implements: StageType::Identity,
                input_channels: channels,
                output_channels: channels,
                data: StageDataModel::Empty,
            }),
            s@.wf(),
            s@.is_identity(),
    {
        Stage::with_kind(StageType::Identity, channels, channels, StageData::Empty)
    }

    /// A set of unit-gamma curves, shown as an identity stage.
    pub fn new_identity_curves(channels: u32) -> (s: Stage)
        requires
            channels <= MAX_STAGE_CHANNELS,
        ensures
            s@ == (StageModel {
                ty: StageType::CurveSet,
                implements: StageType::Identity,
                input_channels: channels,
                output_channels: channels,
                data: StageDataModel::Curves(
                    Seq::new(channels as nat, |i: int| CurveHandle::UnitGamma),
                ),
            }),
            s@.wf(),
            s@.is_identity(),
    {
        let mut stage: Stage = Stage::new_tone_curves(channels, None);
        stage.implements = StageType::Identity;
        stage
    }

    /// A deep copy of the stage.
    pub fn duplicate(&self) -> (s: Stage)
        ensures
            s@ == self@,
    {
        let data: StageData = match &self.data {
            StageData::Empty => StageData::Empty,
            StageData::Matrix { coeffs, offset, denom } => StageData::Matrix {
                coeffs: copy_coeffs(coeffs),
                offset: match offset {
                    Some(o) => Some(copy_coeffs(o)),
                    None => None,
                },
                denom: *denom,
            },
            StageData::Curves(c) => StageData::Curves(copy_curves(c)),
            StageData::NamedColorList(h) => StageData::NamedColorList(*h),
        };
        Stage {
            ty: self.ty,
            implements: self.implements,
            input_channels: self.input_channels,
            output_channels: self.output_channels,
            data,
        }
    }

    /// Tells whether the stage is well-formed: whether its payload is the
    /// one that its kind reads, with the sizes that its channel counts ask
    /// for.
    pub fn well_formed(&self) -> (ok: bool)
        ensures
            ok == self@.wf(),
    {
        if self.input_channels > 128 || self.output_channels > 128 {
            return false;
        }
        let rows: usize = self.output_channels as usize;
        let cols: usize = self.input_channels as usize;
        match self.ty {
            StageType::Matrix => match &self.data {
                StageData::Matrix { coeffs, offset, denom } => {
                    assert(rows * cols <= 128 * 128) by (nonlinear_arith)
                        requires
                            rows <= 128,
                            cols <= 128,
                    ;
                    let sized: bool = match offset {
                        Some(o) => o.len() == rows,
                        None => true,
                    };
                    *denom > 0 && coeffs.len() == rows * cols && sized
                },
                _ => false,
            },
            StageType::CurveSet => match &self.data {
                StageData::Curves(c) => c.len() == cols && rows == cols,
                _ => false,
            },
            StageType::XYZ2Lab | StageType::Lab2XYZ => match &self.data {
                StageData::Empty => rows == 3 && cols == 3,
                _ => false,
            },
            StageType::Identity | StageType::ClipNegatives => match &self.data {
                StageData::Empty => rows == cols,
                _ => false,
            },
            StageType::NamedColor => match &self.data {
                StageData::NamedColorList(_) => true,
                _ => false,
            },
            _ => true,
        }
    }

    /// Tells whether a kernel of this crate evaluates the stage.
    pub fn is_builtin(&self) -> (b: bool)
        requires
            self@.wf(),
        ensures
            b == self@.is_builtin(),
    {
        match self.ty {
            StageType::Matrix | StageType::Identity | StageType::ClipNegatives => true,
            StageType::CurveSet => match &self.data {
                StageData::Curves(c) => {
                    let mut i: usize = 0;
                    let mut all: bool = true;
                    while i < c.len()
                        invariant
                            i <= c.len(),
                            all == all_unit_gamma(c@.take(i as int)),
                        decreases c.len() - i,
                    {
                        match c[i] {
                            CurveHandle::UnitGamma => {},
                            CurveHandle::External(_) => {
                                all = false;
                            },
                        }
                        proof {
                            let t = c@.take(i as int);
                            let u = c@.take(i + 1);
                            assert(forall|k: int| 0 <= k < t.len() ==> t[k] == u[k]);
                            assert(u[i as int] == c@[i as int]);
                            if all_unit_gamma(u) {
                                assert forall|k: int| 0 <= k < t.len() implies t[k]
                                    == CurveHandle::UnitGamma by {
                                    assert(u[k] == CurveHandle::UnitGamma);
                                }
                            }
                        }
                        i = i + 1;
                    }
                    assert(c@.take(c.len() as int) =~= c@);
                    all
                },
                _ => false,
            },
            _ => false,
        }
    }

    /// Runs the stage's kernel, chosen by its kind: reads the leading
    /// `input_channels` entries of `input` and writes the leading
    /// `output_channels` entries of `output`. Returns `false`, with `output`
    /// untouched, for a stage that needs a collaborator.
    pub fn eval(&self, input: &Vec<i64>, output: &mut Vec<i64>) -> (done: bool)
        requires
            self@.wf(),
            input.len() >= self.input_channels,
            old(output).len() >= self.output_channels,
        ensures
            done == self@.is_builtin(),
            final(output)@ == self@.apply(input@, old(output)@),
    {
        if !self.is_builtin() {
            return false;
        }
        match self.ty {
            StageType::Matrix => evaluate_matrix(input, output, self),
            StageType::CurveSet => evaluate_curves(input, output, self),
            StageType::ClipNegatives => clipper(input, output, self),
            _ => evaluate_identity(input, output, self),
        }
        true
    }
}

} // verus!
