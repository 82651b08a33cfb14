//! Pipelines: ordered chains of stages, and their evaluation over two
//! alternating scratch buffers.

use vstd::prelude::*;
use crate::sample::{
    code_to_sample,
    decode_code,
    encode_sample,
    sample_to_code,
    MAX_CHANNELS,
    MAX_STAGE_CHANNELS,
};
use crate::stage::{copy_slice, Stage, StageModel};

verus! {

/// An ordered chain of stages with its cached channel counts.
#[derive(Debug)]
pub struct Pipeline {
    /// The stages, in the order in which they run.
    pub elements: Vec<Stage>,
    pub input_channels: u32,
    pub output_channels: u32,
    pub save_as_8_bits: bool,
}

/// The mathematical value of a pipeline.
pub struct PipelineModel {
    pub stages: Seq<StageModel>,
    pub input_channels: u32,
    pub output_channels: u32,
    pub save_as_8_bits: bool,
}

/// The models of a sequence of stages.
pub open spec fn stage_models(v: Seq<Stage>) -> Seq<StageModel> {
    Seq::new(v.len(), |i: int| v[i]@)
}

impl View for Pipeline {
    type V = PipelineModel;

    open spec fn view(&self) -> PipelineModel {
        PipelineModel {
            stages: stage_models(self.elements@),
            input_channels: self.input_channels,
            output_channels: self.output_channels,
            save_as_8_bits: self.save_as_8_bits,
        }
    }
}

/// The two scratch buffers: the one that the next stage reads, and the one
/// that it writes.
pub struct Buffers {
    pub cur: Seq<i64>,
    pub next: Seq<i64>,
}

/// One stage of the chain: it reads `cur`, writes `next`, and the two
/// buffers change roles.
pub open spec fn step(s: StageModel, b: Buffers) -> Buffers {
    Buffers { cur: s.apply(b.cur, b.next), next: b.cur }
}

/// The buffers after the stages `from..to` have run in order.
pub open spec fn run_spec(stages: Seq<StageModel>, from: int, to: int, b: Buffers) -> Buffers
    decreases to - from,
{
    if to <= from {
        b
    } else {
        step(stages[to - 1], run_spec(stages, from, to - 1, b))
    }
}

/// The first index at or after `from` of a stage that needs a collaborator,
/// or the number of stages if there is none.
pub open spec fn pause_at(stages: Seq<StageModel>, from: int) -> int
    decreases stages.len() - from,
{
    if from >= stages.len() {
        stages.len() as int
    } else if !stages[from].is_builtin() {
        from
    } else {
        pause_at(stages, from + 1)
    }
}

/// A scratch buffer that holds `x`, cut or padded with zeros to the
/// scratch capacity.
pub open spec fn loaded(x: Seq<i64>) -> Seq<i64> {
    Seq::new(
        MAX_STAGE_CHANNELS as nat,
        |i: int|
            if i < x.len() {
                x[i]
            } else {
                0i64
            },
    )
}

/// The samples of a sequence of 16-bit codes.
pub open spec fn decoded(x: Seq<u16>) -> Seq<i64> {
    Seq::new(x.len(), |i: int| decode_code(x[i]) as i64)
}

/// The starting buffers of an evaluation on `x`.
pub open spec fn start_buffers(x: Seq<i64>) -> Buffers {
    Buffers { cur: loaded(x), next: loaded(Seq::empty()) }
}

impl PipelineModel {
    /// Every stage is well-formed, and the cached counts are those of the
    /// chain's ends; an empty pipeline keeps counts below the channel bound.
    pub open spec fn wf(self) -> bool {
        &&& forall|i: int| 0 <= i < self.stages.len() ==> (#[trigger] self.stages[i]).wf()
        &&& if self.stages.len() > 0 {
            &&& self.input_channels == self.stages[0].input_channels
            &&& self.output_channels == self.stages[self.stages.len() - 1].output_channels
        } else {
            &&& self.input_channels < MAX_CHANNELS
            &&& self.output_channels < MAX_CHANNELS
        }
    }

    /// No stage needs a collaborator.
    pub open spec fn self_contained(self) -> bool {
        pause_at(self.stages, 0) == self.stages.len()
    }

    /// The current scratch buffer after the whole chain has run on `x`.
    pub open spec fn result(self, x: Seq<i64>) -> Seq<i64> {
        run_spec(self.stages, 0, self.stages.len() as int, start_buffers(x)).cur
    }

    /// What the fixed-point evaluation leaves in an output of `prev`: the
    /// leading `output_channels` entries of the result, as far as the
    /// output reaches.
    pub open spec fn eval_float_spec(self, x: Seq<i64>, prev: Seq<i64>) -> Seq<i64> {
        Seq::new(
            prev.len(),
            |i: int|
                if i < self.output_channels {
                    self.result(x)[i]
                } else {
                    prev[i]
                },
        )
    }

    /// What the 16-bit evaluation leaves in an output of `prev`.
    pub open spec fn eval_16_spec(self, x: Seq<u16>, prev: Seq<u16>) -> Seq<u16> {
        Seq::new(
            prev.len(),
            |i: int|
                if i < self.output_channels {
                    encode_sample(self.result(decoded(x))[i] as int) as u16
                } else {
                    prev[i]
                },
        )
    }
}

/// A scratch buffer of zeros.
fn zeroed() -> (b: Vec<i64>)
    ensures
        b@ == loaded(Seq::empty()),
{
    let mut b: Vec<i64> = Vec::new();
    let mut i: usize = 0;
    while i < MAX_STAGE_CHANNELS
        invariant
            i <= MAX_STAGE_CHANNELS,
            b.len() == i,
            forall|k: int| 0 <= k < i ==> b[k] == 0,
        decreases MAX_STAGE_CHANNELS - i,
    {
        b.push(0);
        i = i + 1;
    }
    assert(b@ =~= loaded(Seq::empty()));
    b
}

/// From 16 bits to samples: writes the sample of every code of `input`.
pub fn from_16_to_fixed(input: &Vec<u16>, output: &mut Vec<i64>)
    requires
        input.len() <= old(output).len(),
    ensures
        final(output)@.len() == old(output)@.len(),
        forall|k: int| 0 <= k < input.len() ==> final(output)@[k] == decode_code(input[k]),
        forall|k: int| input.len() <= k < old(output)@.len() ==> final(output)@[k] == old(output)@[k],
{
    let mut i: usize = 0;
    while i < input.len()
        invariant
            i <= input.len(),
            output.len() == old(output).len(),
            input.len() <= output.len(),
            forall|k: int| 0 <= k < i ==> output[k] == decode_code(input[k]),
            forall|k: int| i <= k < output.len() ==> output[k] == old(output)[k],
        decreases input.len() - i,
    {
        output.set(i, code_to_sample(input[i]));
        i = i + 1;
    }
}

/// From samples to 16 bits: quantizes the leading `n` samples of `input`,
/// rounding to nearest and saturating at both ends.
pub fn from_fixed_to_16(input: &Vec<i64>, output: &mut Vec<u16>, n: usize)
    requires
        n <= input.len(),
        n <= old(output).len(),
    ensures
        final(output)@.len() == old(output)@.len(),
        forall|k: int| 0 <= k < n ==> final(output)@[k] == encode_sample(input[k] as int),
        forall|k: int| n <= k < old(output)@.len() ==> final(output)@[k] == old(output)@[k],
{
    let mut i: usize = 0;
    while i < n
        invariant
            i <= n,
            n <= input.len(),
            output.len() == old(output).len(),
            n <= output.len(),
            forall|k: int| 0 <= k < i ==> output[k] == encode_sample(input[k] as int),
            forall|k: int| i <= k < output.len() ==> output[k] == old(output)[k],
        decreases n - i,
    {
        output.set(i, sample_to_code(input[i]));
        i = i + 1;
    }
}

/// The stages from `from` on are builtin up to `k`, so a run pauses where it
/// would pause from `k`.
pub proof fn lemma_pause_skip(stages: Seq<StageModel>, from: int, k: int)
    requires
        0 <= from <= k <= stages.len(),
        forall|i: int| from <= i < k ==> (#[trigger] stages[i]).is_builtin(),
    ensures
        pause_at(stages, from) == pause_at(stages, k),
    decreases k - from,
{
    if from < k {
        lemma_pause_skip(stages, from + 1, k);
    }
}

impl Pipeline {
    /// An empty pipeline that keeps the given channel counts until stages
    /// are added. A count of zero is a placeholder.
    pub fn new(input_channels: u32, output_channels: u32) -> (p: Pipeline)
        requires
            input_channels < MAX_CHANNELS,
            output_channels < MAX_CHANNELS,
        ensures
            p@ == (PipelineModel {
                stages: Seq::empty(),
                input_channels,
                output_channels,
                save_as_8_bits: false,
            }),
            p@.wf(),
    {
        let mut lut = Pipeline {
            elements: Vec::new(),
            input_channels,
            output_channels,
            save_as_8_bits: false,
        };
        lut.bless();
        assert(lut@.stages =~= Seq::empty());
        lut
    }

    /// Tells whether the pipeline is well-formed: whether every stage is,
    /// and the cached counts are those of the chain's ends.
    pub fn well_formed(&self) -> (ok: bool)
        ensures
            ok == self@.wf(),
    {
        let n: usize = self.elements.len();
        let mut i: usize = 0;
        while i < n
            invariant
                i <= n,
                n == self.elements.len(),
                forall|k: int| 0 <= k < i ==> (#[trigger] self@.stages[k]).wf(),
            decreases n - i,
        {
            assert(self@.stages[i as int] == self.elements[i as int]@);
            if !self.elements[i].well_formed() {
                return false;
            }
            i = i + 1;
        }
        if n > 0 {
            assert(self@.stages[0] == self.elements[0]@);
            assert(self@.stages[n - 1] == self.elements[n - 1]@);
            self.input_channels == self.elements[0].input_channels && self.output_channels
                == self.elements[n - 1].output_channels
        } else {
            self.input_channels < MAX_CHANNELS && self.output_channels < MAX_CHANNELS
        }
    }

    /// Takes the channel counts from the ends of the chain, if it has any
    /// stage.
    fn bless(&mut self)
        ensures
            final(self).elements == old(self).elements,
            final(self).save_as_8_bits == old(self).save_as_8_bits,
            old(self).elements.len() == 0 ==> *final(self) == *old(self),
            old(self).elements.len() > 0 ==> {
                &&& final(self).input_channels == old(self).elements[0].input_channels
                &&& final(self).output_channels == old(self).elements[old(self).elements.len()
                    - 1].output_channels
            },
    {
        let n: usize = self.elements.len();
        if n > 0 {
            self.input_channels = self.elements[0].input_channels;
            self.output_channels = self.elements[n - 1].output_channels;
        }
    }

    /// Inserts a stage at the head of the chain.
    pub fn prepend_stage(&mut self, stage: Stage)
        requires
            old(self)@.wf(),
            stage@.wf(),
        ensures
            final(self)@.stages == seq![stage@] + old(self)@.stages,
            final(self)@.input_channels == stage.input_channels,
            final(self)@.output_channels == (if old(self)@.stages.len() > 0 {
                old(self)@.output_channels
            } else {
                stage.output_channels
            }),
            final(self)@.save_as_8_bits == old(self)@.save_as_8_bits,
            final(self)@.wf(),
    {
        self.elements.insert(0, stage);
        self.bless();
        assert(final(self)@.stages =~= seq![stage@] + old(self)@.stages);
    }

    /// Inserts a stage at the tail of the chain.
    pub fn append_stage(&mut self, stage: Stage)
        requires
            old(self)@.wf(),
            stage@.wf(),
        ensures
            final(self)@.stages == old(self)@.stages.push(stage@),
            final(self)@.input_channels == (if old(self)@.stages.len() > 0 {
                old(self)@.input_channels
            } else {
                stage.input_channels
            }),
            final(self)@.output_channels == stage.output_channels,
            final(self)@.save_as_8_bits == old(self)@.save_as_8_bits,
            final(self)@.wf(),
    {
        self.elements.push(stage);
        self.bless();
        assert(final(self)@.stages =~= old(self)@.stages.push(stage@));
    }

    /// Appends a deep copy of every stage of `other`, in order. Two empty
    /// pipelines: this one takes over the channel counts of `other`.
    pub fn concat(&mut self, other: &Pipeline)
        requires
            old(self)@.wf(),
            other@.wf(),
        ensures
            final(self)@.stages == old(self)@.stages + other@.stages,
            final(self)@.input_channels == (if old(self)@.stages.len() > 0 {
                old(self)@.input_channels
            } else {
                other@.input_channels
            }),
            final(self)@.output_channels == (if other@.stages.len() > 0 || old(self)@.stages.len()
                == 0 {
                other@.output_channels
            } else {
                old(self)@.output_channels
            }),
            final(self)@.save_as_8_bits == old(self)@.save_as_8_bits,
            final(self)@.wf(),
    {
        if self.elements.len() == 0 && other.elements.len() == 0 {
            self.input_channels = other.input_channels;
            self.output_channels = other.output_channels;
        }
        let mut i: usize = 0;
        while i < other.elements.len()
            invariant
                i <= other.elements.len(),
                self.input_channels == (if old(self).elements.len() == 0 && other.elements.len()
                    == 0 {
                    other.input_channels
                } else {
                    old(self).input_channels
                }),
                self.output_channels == (if old(self).elements.len() == 0 && other.elements.len()
                    == 0 {
                    other.output_channels
                } else {
                    old(self).output_channels
                }),
                self.save_as_8_bits == old(self).save_as_8_bits,
                old(self)@.wf(),
                other@.wf(),
                self.elements.len() == old(self).elements.len() + i,
                stage_models(self.elements@) == old(self)@.stages + other@.stages.take(i as int),
            decreases other.elements.len() - i,
        {
            let ghost before = stage_models(self.elements@);
            let copy: Stage = other.elements[i].duplicate();
            self.elements.push(copy);
            assert(copy@ == other@.stages[i as int]);
            assert(stage_models(self.elements@) =~= before.push(copy@));
            assert(before.push(copy@) =~= old(self)@.stages + other@.stages.take(i + 1));
            i = i + 1;
        }
        assert(other@.stages.take(other.elements.len() as int) =~= other@.stages);
        let ghost joined = old(self)@.stages + other@.stages;
        assert(stage_models(self.elements@) == joined);
        assert forall|k: int| 0 <= k < joined.len() implies (#[trigger] joined[k]).wf() by {
            if k < old(self)@.stages.len() {
                assert(old(self)@.stages[k].wf());
            } else {
                assert(other@.stages[k - old(self)@.stages.len()].wf());
            }
        }
        if self.elements.len() > 0 {
            assert(joined[0] == self.elements[0]@);
            assert(joined[joined.len() - 1] == self.elements[self.elements.len() - 1]@);
        }
        self.bless();
    }

    /// A deep copy of the pipeline.
    pub fn duplicate(&self) -> (p: Pipeline)
        ensures
            p@ == self@,
    {
        let mut elements: Vec<Stage> = Vec::new();
        let mut i: usize = 0;
        while i < self.elements.len()
            invariant
                i <= self.elements.len(),
                elements.len() == i,
                forall|k: int| 0 <= k < i ==> elements[k]@ == self.elements[k]@,
            decreases self.elements.len() - i,
        {
            let copy: Stage = self.elements[i].duplicate();
            elements.push(copy);
            i = i + 1;
        }
        let p = Pipeline {
            elements,
            input_channels: self.input_channels,
            output_channels: self.output_channels,
            save_as_8_bits: self.save_as_8_bits,
        };
        assert(p@.stages =~= self@.stages);
        p
    }

    /// Runs the stages from `from` on, each reading `cur` and writing
    /// `next`, the two changing roles after every stage. Stops before the
    /// first stage that needs a collaborator, or at the end of the chain,
    /// and returns the index at which it stopped; `cur` then holds what the
    /// last stage wrote.
    pub fn run(&self, from: usize, cur: &mut Vec<i64>, next: &mut Vec<i64>) -> (stop: usize)
        requires
            self@.wf(),
            from <= self.elements.len(),
            old(cur).len() == MAX_STAGE_CHANNELS,
            old(next).len() == MAX_STAGE_CHANNELS,
        ensures
            stop == pause_at(self@.stages, from as int),
            from <= stop <= self.elements.len(),
            final(cur)@.len() == MAX_STAGE_CHANNELS,
            final(next)@.len() == MAX_STAGE_CHANNELS,
            (Buffers { cur: final(cur)@, next: final(next)@ }) == run_spec(
                self@.stages,
                from as int,
                stop as int,
                (Buffers { cur: old(cur)@, next: old(next)@ }),
            ),
    {
        let mut k: usize = from;
        let ghost stages = self@.stages;
        let ghost start = Buffers { cur: old(cur)@, next: old(next)@ };
        let mut paused: bool = false;
        while k < self.elements.len() && !paused
            invariant
                from <= k <= self.elements.len(),
                self@.wf(),
                stages == self@.stages,
                cur.len() == MAX_STAGE_CHANNELS,
                next.len() == MAX_STAGE_CHANNELS,
                forall|i: int| from <= i < k ==> (#[trigger] stages[i]).is_builtin(),
                paused ==> k < self.elements.len() && !stages[k as int].is_builtin(),
                (Buffers { cur: cur@, next: next@ }) == run_spec(stages, from as int, k as int, start),
            decreases self.elements.len() - k + (if paused { 0int } else { 1int }),
        {
            assert(stages[k as int].wf());
            assert(stages[k as int] == self.elements[k as int]@);
            let done: bool = self.elements[k].eval(cur, next);
            if done {
                core::mem::swap(cur, next);
                k = k + 1;
            } else {
                paused = true;
            }
        }
        proof {
            lemma_pause_skip(stages, from as int, k as int);
        }
        k
    }

    /// The output channels of a well-formed pipeline fit a scratch buffer.
    proof fn lemma_output_fits(&self)
        requires
            self@.wf(),
        ensures
            self.output_channels <= MAX_STAGE_CHANNELS,
    {
        if self@.stages.len() > 0 {
            assert(self@.stages[self@.stages.len() - 1].wf());
        }
    }

    /// Evaluates the pipeline on 16-bit codes; see [`lut_eval_16`].
    pub fn eval_16(&self, input: &Vec<u16>, output: &mut Vec<u16>) -> (done: bool)
        requires
            self@.wf(),
            input.len() <= MAX_STAGE_CHANNELS,
            old(output).len() >= self.output_channels,
        ensures
            done == self@.self_contained(),
            final(output)@ == (if done {
                self@.eval_16_spec(input@, old(output)@)
            } else {
                old(output)@
            }),
    {
        lut_eval_16(input, output, self)
    }

    /// Evaluates the pipeline on samples; see [`lut_eval_float`].
    pub fn eval_float(&self, input: &Vec<i64>, output: &mut Vec<i64>) -> (done: bool)
        requires
            self@.wf(),
        ensures
            done == self@.self_contained(),
            final(output)@ == (if done {
                self@.eval_float_spec(input@, old(output)@)
            } else {
                old(output)@
            }),
    {
        lut_eval_float(input, output, self)
    }
}

/// Evaluates a pipeline on 16-bit codes: decodes every code to its
/// sample, runs the chain, and quantizes the leading `output_channels`
/// samples. Returns `false`, with `output` untouched, if a stage needs a
/// collaborator.
pub fn lut_eval_16(input: &Vec<u16>, output: &mut Vec<u16>, pipeline: &Pipeline) -> (done: bool)
    requires
        pipeline@.wf(),
        input.len() <= MAX_STAGE_CHANNELS,
        old(output).len() >= pipeline.output_channels,
    ensures
        done == pipeline@.self_contained(),
        final(output)@ == (if done {
            pipeline@.eval_16_spec(input@, old(output)@)
        } else {
            old(output)@
        }),
{
    let mut cur: Vec<i64> = zeroed();
    let mut next: Vec<i64> = zeroed();
    from_16_to_fixed(input, &mut cur);
    assert(cur@ =~= loaded(decoded(input@)));
    let stop: usize = pipeline.run(0, &mut cur, &mut next);
    if stop < pipeline.elements.len() {
        return false;
    }
    proof {
        pipeline.lemma_output_fits();
    }
    from_fixed_to_16(&cur, output, pipeline.output_channels as usize);
    assert(final(output)@ =~= pipeline@.eval_16_spec(input@, old(output)@));
    true
}

/// Evaluates a pipeline on samples: loads `input`, cut or padded with
/// zeros to the scratch capacity, runs the chain, and copies the leading
/// `output_channels` samples to `output`, as far as `output` reaches.
/// Returns `false`, with `output` untouched, if a stage needs a
/// collaborator.
pub fn lut_eval_float(input: &Vec<i64>, output: &mut Vec<i64>, pipeline: &Pipeline) -> (done: bool)
    requires
        pipeline@.wf(),
    ensures
        done == pipeline@.self_contained(),
        final(output)@ == (if done {
            pipeline@.eval_float_spec(input@, old(output)@)
        } else {
            old(output)@
        }),
{
    let mut cur: Vec<i64> = zeroed();
    let mut next: Vec<i64> = zeroed();
    let n: usize = if input.len() < MAX_STAGE_CHANNELS {
        input.len()
    } else {
        MAX_STAGE_CHANNELS
    };
    copy_slice(input, &mut cur, n);
    assert(cur@ =~= loaded(input@));
    let stop: usize = pipeline.run(0, &mut cur, &mut next);
    if stop < pipeline.elements.len() {
        return false;
    }
    proof {
        pipeline.lemma_output_fits();
    }
    let m: usize = if output.len() < pipeline.output_channels as usize {
        output.len()
    } else {
        pipeline.output_channels as usize
    };
    copy_slice(&cur, output, m);
    assert(final(output)@ =~= pipeline@.eval_float_spec(input@, old(output)@));
    true
}

} // verus!
