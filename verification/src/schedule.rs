//! The order of work inside one integration step.
//!
//! A step is a fixed list of array operations over a handful of buffers. The
//! arithmetic of each operation belongs to the numerical kernels of the caller;
//! what is fixed here is which operation runs when, which buffers it reads and
//! which buffer it overwrites. Buffers are reused within a step, so the order
//! matters: the same list in another order computes something else.
use vstd::prelude::*;

verus! {

/// A buffer that a step reads or writes. Every buffer has the shape of the
/// spin configuration.
#[derive(Copy, Clone, PartialEq, Eq, Structural, Debug)]
pub enum Slot {
    /// The spins at the start of the step. Never written.
    Spins0,
    /// The spins at the end of the step: the caller's output buffer.
    SpinsF,
    /// Scratch: local field samples.
    H0,
    H1,
    H2,
    /// Scratch: an intermediate spin configuration.
    M1,
    /// Scratch: rotation generators.
    Omega1,
    Omega2,
    /// Scratch: noise increments.
    Chi1,
    Chi2,
}

/// Number of buffers that a step may name.
pub const SLOT_COUNT: usize = 10;

impl Slot {
    /// Position of the buffer in a bank of [`SLOT_COUNT`] buffers.
    pub open spec fn index_spec(self) -> nat {
        match self {
            Slot::Spins0 => 0,
            Slot::SpinsF => 1,
            Slot::H0 => 2,
            Slot::H1 => 3,
            Slot::H2 => 4,
            Slot::M1 => 5,
            Slot::Omega1 => 6,
            Slot::Omega2 => 7,
            Slot::Chi1 => 8,
            Slot::Chi2 => 9,
        }
    }

    /// Position of the buffer in a bank of [`SLOT_COUNT`] buffers.
    pub fn index(self) -> (r: usize)
        ensures
            r == self.index_spec(),
            r < SLOT_COUNT,
    {
        match self {
            Slot::Spins0 => 0,
            Slot::SpinsF => 1,
            Slot::H0 => 2,
            Slot::H1 => 3,
            Slot::H2 => 4,
            Slot::M1 => 5,
            Slot::Omega1 => 6,
            Slot::Omega2 => 7,
            Slot::Chi1 => 8,
            Slot::Chi2 => 9,
        }
    }
}

/// The instants of a step of length `dt` that starts at `t0`.
#[derive(Copy, Clone, PartialEq, Eq, Structural, Debug)]
pub enum TimePoint {
    /// `t0`
    Start,
    /// `t0 + dt/2`
    Mid,
    /// `t0 + dt`
    End,
}

/// One array operation. Each is applied cell by cell; `eta` is the
/// dissipation strength and `b` the noise strength of the step.
#[derive(Copy, Clone, PartialEq, Eq, Structural, Debug)]
pub enum Op {
    /// `into <- sample() * sqrt(b)`, a fresh sample for every cell.
    DrawNoise { into: Slot },
    /// `into <- h - eta * (h x m)` with `h = H(at, m)` and `m` the content of
    /// `spins`: the local field at the given instant, with the dissipative
    /// term taken at the very spins the field was evaluated on.
    EvalField { at: TimePoint, spins: Slot, into: Slot },
    /// `into <- (dt/4) * (h0 + h1) + chi1 * sqrt(dt/2)`
    Midpoint { h0: Slot, h1: Slot, chi1: Slot, into: Slot },
    /// `into <- (dt/6) * (h0 + 4*h1 + h2) + (chi1 + chi2) * sqrt(dt/2)`
    Simpson { h0: Slot, h1: Slot, h2: Slot, chi1: Slot, chi2: Slot, into: Slot },
    /// `into <- field * dt`
    Drift { field: Slot, into: Slot },
    /// `into <- sample() * sqrt(b) * sqrt(dt)`, a fresh sample for every cell.
    Diffusion { into: Slot },
    /// Measure the mean norm of `generator` and stop with a rejection if it
    /// has reached the limit of the step.
    Gate { generator: Slot },
    /// `into <- exp(generator) * from`: rotate each vector of `from` about the
    /// axis of its generator by the generator's norm.
    Rotate { generator: Slot, from: Slot, into: Slot },
    /// Measure the mean norm of `generator` as the diagnostic of the step.
    Report { generator: Slot },
}

/// The ways to advance the spins by one step.
#[derive(Copy, Clone, PartialEq, Eq, Structural, Debug)]
pub enum StepKind {
    /// Second-order Magnus step: a first stage on the initial spins, a second
    /// stage on the spins the first stage predicts.
    TwoStage,
    /// The first stage of the Magnus step alone.
    ShortCircuit,
    /// One field evaluation; drift and diffusion applied one after the other.
    Cheap,
    /// The Magnus step on a single replica: the same algorithm as
    /// [`StepKind::TwoStage`], with its two generators kept the other way
    /// round.
    Row,
}

impl Op {
    /// The buffer the operation overwrites, if any.
    pub open spec fn target(self) -> Option<Slot> {
        match self {
            Op::DrawNoise { into } => Some(into),
            Op::EvalField { into, .. } => Some(into),
            Op::Midpoint { into, .. } => Some(into),
            Op::Simpson { into, .. } => Some(into),
            Op::Drift { into, .. } => Some(into),
            Op::Diffusion { into } => Some(into),
            Op::Gate { .. } => None,
            Op::Rotate { into, .. } => Some(into),
            Op::Report { .. } => None,
        }
    }

    /// The buffers the operation reads, in the order of its operands.
    pub open spec fn sources(self) -> Seq<Slot> {
        match self {
            Op::DrawNoise { .. } => seq![],
            Op::EvalField { spins, .. } => seq![spins],
            Op::Midpoint { h0, h1, chi1, .. } => seq![h0, h1, chi1],
            Op::Simpson { h0, h1, h2, chi1, chi2, .. } => seq![h0, h1, h2, chi1, chi2],
            Op::Drift { field, .. } => seq![field],
            Op::Diffusion { .. } => seq![],
            Op::Gate { generator } => seq![generator],
            Op::Rotate { generator, from, .. } => seq![generator, from],
            Op::Report { generator } => seq![generator],
        }
    }

    /// The operation only measures; it writes nothing.
    pub open spec fn is_measurement(self) -> bool {
        self is Gate || self is Report
    }

    /// The buffer the operation overwrites, if any.
    pub fn writes(&self) -> (r: Option<Slot>)
        ensures
            r == self.target(),
    {
        match *self {
            Op::DrawNoise { into } => Some(into),
            Op::EvalField { into, .. } => Some(into),
            Op::Midpoint { into, .. } => Some(into),
            Op::Simpson { into, .. } => Some(into),
            Op::Drift { into, .. } => Some(into),
            Op::Diffusion { into } => Some(into),
            Op::Gate { .. } => None,
            Op::Rotate { into, .. } => Some(into),
            Op::Report { .. } => None,
        }
    }

    /// The buffers the operation reads, in the order of its operands.
    pub fn reads(&self) -> (r: Vec<Slot>)
        ensures
            r@ == self.sources(),
    {
        let mut r: Vec<Slot> = Vec::new();
        match *self {
            Op::DrawNoise { .. } => {},
            Op::EvalField { spins, .. } => {
                r.push(spins);
            },
            Op::Midpoint { h0, h1, chi1, .. } => {
                r.push(h0);
                r.push(h1);
                r.push(chi1);
            },
            Op::Simpson { h0, h1, h2, chi1, chi2, .. } => {
                r.push(h0);
                r.push(h1);
                r.push(h2);
                r.push(chi1);
                r.push(chi2);
            },
            Op::Drift { field, .. } => {
                r.push(field);
            },
            Op::Diffusion { .. } => {},
            Op::Gate { generator } => {
                r.push(generator);
            },
            Op::Rotate { generator, from, .. } => {
                r.push(generator);
                r.push(from);
            },
            Op::Report { generator } => {
                r.push(generator);
            },
        }
        assert(r@ =~= self.sources());
        r
    }
}

/// The first stage of the Magnus step, up to and including its gate: two
/// noise grids, the field at the three instants on the initial spins, the
/// half-step generator in `half` and the full-step generator in `full`.
pub open spec fn first_stage(half: Slot, full: Slot) -> Seq<Op> {
    seq![
        Op::DrawNoise { into: Slot::Chi1 },
        Op::DrawNoise { into: Slot::Chi2 },
        Op::EvalField { at: TimePoint::Start, spins: Slot::Spins0, into: Slot::H0 },
        Op::EvalField { at: TimePoint::Mid, spins: Slot::Spins0, into: Slot::H1 },
        Op::EvalField { at: TimePoint::End, spins: Slot::Spins0, into: Slot::H2 },
        Op::Midpoint { h0: Slot::H0, h1: Slot::H1, chi1: Slot::Chi1, into: half },
        Op::Simpson {
            h0: Slot::H0,
            h1: Slot::H1,
            h2: Slot::H2,
            chi1: Slot::Chi1,
            chi2: Slot::Chi2,
            into: full,
        },
    ]
}

/// The second stage of the Magnus step. The output buffer serves as scratch
/// for the two predicted configurations; the fields at the middle and at the
/// end of the step are evaluated again on them, over the samples of the first
/// stage; the final generator lands in `Omega2`.
pub open spec fn second_stage(half: Slot, full: Slot) -> Seq<Op> {
    seq![
        Op::Rotate { generator: half, from: Slot::Spins0, into: Slot::SpinsF },
        Op::EvalField { at: TimePoint::Mid, spins: Slot::SpinsF, into: Slot::H1 },
        Op::Rotate { generator: full, from: Slot::Spins0, into: Slot::SpinsF },
        Op::EvalField { at: TimePoint::End, spins: Slot::SpinsF, into: Slot::H2 },
        Op::Simpson {
            h0: Slot::H0,
            h1: Slot::H1,
            h2: Slot::H2,
            chi1: Slot::Chi1,
            chi2: Slot::Chi2,
            into: Slot::Omega2,
        },
        Op::Rotate { generator: Slot::Omega2, from: Slot::Spins0, into: Slot::SpinsF },
        Op::Report { generator: Slot::Omega2 },
    ]
}

/// The operations of one step, in the order in which they run.
///
/// The bulk Magnus step keeps the half-step generator in `Omega1` and the
/// full-step generator in `Omega2`. The row step has them the other way
/// round, so that on exit `Omega1` holds the first-stage generator and
/// `Omega2` the second-stage one.
pub open spec fn schedule(kind: StepKind) -> Seq<Op> {
    match kind {
        StepKind::TwoStage => first_stage(Slot::Omega1, Slot::Omega2)
            + seq![Op::Gate { generator: Slot::Omega2 }]
            + second_stage(Slot::Omega1, Slot::Omega2),
        StepKind::ShortCircuit => first_stage(Slot::Omega1, Slot::Omega2)
            + seq![
                Op::Gate { generator: Slot::Omega2 },
                Op::Rotate { generator: Slot::Omega2, from: Slot::Spins0, into: Slot::SpinsF },
            ],
        StepKind::Cheap => seq![
            Op::EvalField { at: TimePoint::Mid, spins: Slot::Spins0, into: Slot::H0 },
            Op::Drift { field: Slot::H0, into: Slot::Omega1 },
            Op::Gate { generator: Slot::Omega1 },
            Op::Rotate { generator: Slot::Omega1, from: Slot::Spins0, into: Slot::M1 },
            Op::Diffusion { into: Slot::Chi1 },
            Op::Rotate { generator: Slot::Chi1, from: Slot::M1, into: Slot::SpinsF },
        ],
        StepKind::Row => first_stage(Slot::Omega2, Slot::Omega1)
            + seq![Op::Gate { generator: Slot::Omega1 }]
            + second_stage(Slot::Omega2, Slot::Omega1),
    }
}

/// Where the stability gate stands in the schedule of a step.
pub open spec fn gate_index(kind: StepKind) -> int {
    match kind {
        StepKind::TwoStage => 7,
        StepKind::ShortCircuit => 7,
        StepKind::Cheap => 2,
        StepKind::Row => 7,
    }
}

/// How long each schedule is, and that its one gate stands at
/// [`gate_index`].
pub(crate) proof fn lemma_schedule_shape(kind: StepKind)
    ensures
        schedule(kind).len() == match kind {
            StepKind::TwoStage => 15nat,
            StepKind::ShortCircuit => 9nat,
            StepKind::Cheap => 6nat,
            StepKind::Row => 15nat,
        },
        0 <= gate_index(kind) < schedule(kind).len(),
        forall|i: int|
            0 <= i < schedule(kind).len() ==> (#[trigger] schedule(kind)[i] is Gate <==> i
                == gate_index(kind)),
{
}

fn push_first_stage(ops: &mut Vec<Op>, half: Slot, full: Slot)
    ensures
        final(ops)@ == old(ops)@ + first_stage(half, full),
{
    ops.push(Op::DrawNoise { into: Slot::Chi1 });
    ops.push(Op::DrawNoise { into: Slot::Chi2 });
    ops.push(Op::EvalField { at: TimePoint::Start, spins: Slot::Spins0, into: Slot::H0 });
    ops.push(Op::EvalField { at: TimePoint::Mid, spins: Slot::Spins0, into: Slot::H1 });
    ops.push(Op::EvalField { at: TimePoint::End, spins: Slot::Spins0, into: Slot::H2 });
    ops.push(Op::Midpoint { h0: Slot::H0, h1: Slot::H1, chi1: Slot::Chi1, into: half });
    ops.push(
        Op::Simpson {
            h0: Slot::H0,
            h1: Slot::H1,
            h2: Slot::H2,
            chi1: Slot::Chi1,
            chi2: Slot::Chi2,
            into: full,
        },
    );
    assert(ops@ =~= old(ops)@ + first_stage(half, full));
}

fn push_second_stage(ops: &mut Vec<Op>, half: Slot, full: Slot)
    ensures
        final(ops)@ == old(ops)@ + second_stage(half, full),
{
    ops.push(Op::Rotate { generator: half, from: Slot::Spins0, into: Slot::SpinsF });
    ops.push(Op::EvalField { at: TimePoint::Mid, spins: Slot::SpinsF, into: Slot::H1 });
    ops.push(Op::Rotate { generator: full, from: Slot::Spins0, into: Slot::SpinsF });
    ops.push(Op::EvalField { at: TimePoint::End, spins: Slot::SpinsF, into: Slot::H2 });
    ops.push(
        Op::Simpson {
            h0: Slot::H0,
            h1: Slot::H1,
            h2: Slot::H2,
            chi1: Slot::Chi1,
            chi2: Slot::Chi2,
            into: Slot::Omega2,
        },
    );
    ops.push(Op::Rotate { generator: Slot::Omega2, from: Slot::Spins0, into: Slot::SpinsF });
    ops.push(Op::Report { generator: Slot::Omega2 });
    assert(ops@ =~= old(ops)@ + second_stage(half, full));
}

/// The operations of one step, in the order in which they run.
pub fn plan(kind: StepKind) -> (ops: Vec<Op>)
    ensures
        ops@ == schedule(kind),
{
    let mut ops: Vec<Op> = Vec::new();
    match kind {
        StepKind::TwoStage => {
            push_first_stage(&mut ops, Slot::Omega1, Slot::Omega2);
            ops.push(Op::Gate { generator: Slot::Omega2 });
            push_second_stage(&mut ops, Slot::Omega1, Slot::Omega2);
        },
        StepKind::ShortCircuit => {
            push_first_stage(&mut ops, Slot::Omega1, Slot::Omega2);
            ops.push(Op::Gate { generator: Slot::Omega2 });
            ops.push(
                Op::Rotate { generator: Slot::Omega2, from: Slot::Spins0, into: Slot::SpinsF },
            );
        },
        StepKind::Cheap => {
            ops.push(Op::EvalField { at: TimePoint::Mid, spins: Slot::Spins0, into: Slot::H0 });
            ops.push(Op::Drift { field: Slot::H0, into: Slot::Omega1 });
            ops.push(Op::Gate { generator: Slot::Omega1 });
            ops.push(Op::Rotate { generator: Slot::Omega1, from: Slot::Spins0, into: Slot::M1 });
            ops.push(Op::Diffusion { into: Slot::Chi1 });
            ops.push(Op::Rotate { generator: Slot::Chi1, from: Slot::M1, into: Slot::SpinsF });
        },
        StepKind::Row => {
            push_first_stage(&mut ops, Slot::Omega2, Slot::Omega1);
            ops.push(Op::Gate { generator: Slot::Omega1 });
            push_second_stage(&mut ops, Slot::Omega2, Slot::Omega1);
        },
    }
    assert(ops@ =~= schedule(kind));
    ops
}

} // verus!
