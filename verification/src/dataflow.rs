//! What a schedule computes.
//!
//! Running a schedule symbolically gives, for every buffer, the expression
//! that the buffer holds in terms of the initial spins, the noise grids drawn
//! during the step and the local-field callback. The laws of this module
//! compare those expressions with the formulas of the integrator.
use crate::schedule::{gate_index, lemma_schedule_shape, schedule, Op, Slot, StepKind, TimePoint};
use vstd::prelude::*;

verus! {

/// An array-valued expression.
pub enum Term {
    /// Whatever the buffer held before the step began.
    Stale(Slot),
    /// The spins at the start of the step.
    Initial,
    /// The `k`-th grid of samples drawn in this step, each scaled by `sqrt(b)`.
    Noise(nat),
    /// The local field at an instant on given spins, dissipative term included.
    Field(TimePoint, Box<Term>),
    /// `(dt/4) * (h0 + h1) + chi1 * sqrt(dt/2)`
    Midpoint(Box<Term>, Box<Term>, Box<Term>),
    /// `(dt/6) * (h0 + 4*h1 + h2) + (chi1 + chi2) * sqrt(dt/2)`
    Simpson(Box<Term>, Box<Term>, Box<Term>, Box<Term>, Box<Term>),
    /// `h * dt`
    Drift(Box<Term>),
    /// The `k`-th grid of samples drawn in this step, each scaled by
    /// `sqrt(b) * sqrt(dt)`.
    Diffusion(nat),
    /// The second operand rotated by the first.
    Rotate(Box<Term>, Box<Term>),
}

/// The buffers in the middle of a step.
pub struct Store {
    /// The expression held by each buffer.
    pub cells: Map<Slot, Term>,
    /// How many grids of samples have been drawn so far.
    pub draws: nat,
}

/// The buffers as a step finds them: the input holds the initial spins and
/// every other buffer holds what the previous use left there.
pub open spec fn initial_store() -> Store {
    Store {
        cells: Map::total(
            |s: Slot|
                if s == Slot::Spins0 {
                    Term::Initial
                } else {
                    Term::Stale(s)
                },
        ),
        draws: 0,
    }
}

/// The buffers after one operation.
pub open spec fn apply(op: Op, st: Store) -> Store {
    match op {
        Op::DrawNoise { into } => Store {
            cells: st.cells.insert(into, Term::Noise(st.draws)),
            draws: st.draws + 1,
        },
        Op::EvalField { at, spins, into } => Store {
            cells: st.cells.insert(into, Term::Field(at, Box::new(st.cells[spins]))),
            ..st
        },
        Op::Midpoint { h0, h1, chi1, into } => Store {
            cells: st.cells.insert(
                into,
                Term::Midpoint(
                    Box::new(st.cells[h0]),
                    Box::new(st.cells[h1]),
                    Box::new(st.cells[chi1]),
                ),
            ),
            ..st
        },
        Op::Simpson { h0, h1, h2, chi1, chi2, into } => Store {
            cells: st.cells.insert(
                into,
                Term::Simpson(
                    Box::new(st.cells[h0]),
                    Box::new(st.cells[h1]),
                    Box::new(st.cells[h2]),
                    Box::new(st.cells[chi1]),
                    Box::new(st.cells[chi2]),
                ),
            ),
            ..st
        },
        Op::Drift { field, into } => Store {
            cells: st.cells.insert(into, Term::Drift(Box::new(st.cells[field]))),
            ..st
        },
        Op::Diffusion { into } => Store {
            cells: st.cells.insert(into, Term::Diffusion(st.draws)),
            draws: st.draws + 1,
        },
        Op::Gate { .. } => st,
        Op::Rotate { generator, from, into } => Store {
            cells: st.cells.insert(
                into,
                Term::Rotate(Box::new(st.cells[generator]), Box::new(st.cells[from])),
            ),
            ..st
        },
        Op::Report { .. } => st,
    }
}

/// The buffers after the first `n` operations of `ops`.
pub open spec fn store_after(ops: Seq<Op>, n: nat) -> Store
    decreases n,
{
    if n == 0 {
        initial_store()
    } else {
        apply(ops[n - 1], store_after(ops, (n - 1) as nat))
    }
}

/// The buffers after all of `ops`.
pub open spec fn outcome(ops: Seq<Op>) -> Store {
    store_after(ops, ops.len())
}

/// What operation `i` of `ops` measures: the expression that its operand
/// holds when the operation runs.
pub open spec fn measured(ops: Seq<Op>, i: int) -> Term
    recommends
        0 <= i < ops.len(),
        ops[i].is_measurement(),
{
    store_after(ops, i as nat).cells[ops[i].sources()[0]]
}

/// Every operand of operation `i` was written earlier in the same step, or is
/// the input.
pub open spec fn reads_fresh(ops: Seq<Op>, i: int) -> bool {
    forall|k: int|
        0 <= k < ops[i].sources().len() ==> !(#[trigger] store_after(ops, i as nat).cells[ops[i].sources()[k]]
            is Stale)
}

/// The local field at an instant on given spins.
pub open spec fn field(at: TimePoint, spins: Term) -> Term {
    Term::Field(at, Box::new(spins))
}

/// A vector field rotated by a generator.
pub open spec fn rotate(generator: Term, spins: Term) -> Term {
    Term::Rotate(Box::new(generator), Box::new(spins))
}

/// Generator of the first stage over half the step:
/// `(dt/4) * (H(t0, m0) + H(t1, m0)) + chi1 * sqrt(dt/2)`.
pub open spec fn omega_11() -> Term {
    Term::Midpoint(
        Box::new(field(TimePoint::Start, Term::Initial)),
        Box::new(field(TimePoint::Mid, Term::Initial)),
        Box::new(Term::Noise(0)),
    )
}

/// Generator of the first stage over the whole step:
/// `(dt/6) * (H(t0, m0) + 4*H(t1, m0) + H(t2, m0)) + (chi1 + chi2) * sqrt(dt/2)`.
pub open spec fn omega_12() -> Term {
    Term::Simpson(
        Box::new(field(TimePoint::Start, Term::Initial)),
        Box::new(field(TimePoint::Mid, Term::Initial)),
        Box::new(field(TimePoint::End, Term::Initial)),
        Box::new(Term::Noise(0)),
        Box::new(Term::Noise(1)),
    )
}

/// Generator of the second stage:
/// `(dt/6) * (H(t0, m0) + 4*H(t1, m21) + H(t2, m22)) + (chi1 + chi2) * sqrt(dt/2)`
/// with `m21 = exp(omega_11) m0` and `m22 = exp(omega_12) m0`.
pub open spec fn omega_22() -> Term {
    Term::Simpson(
        Box::new(field(TimePoint::Start, Term::Initial)),
        Box::new(field(TimePoint::Mid, rotate(omega_11(), Term::Initial))),
        Box::new(field(TimePoint::End, rotate(omega_12(), Term::Initial))),
        Box::new(Term::Noise(0)),
        Box::new(Term::Noise(1)),
    )
}

/// Generator of the drift of the one-evaluation step: `H(t1, m0) * dt`.
pub open spec fn omega_drift() -> Term {
    Term::Drift(Box::new(field(TimePoint::Mid, Term::Initial)))
}

/// The second-order Magnus step computes `exp(omega_22) m0`. Its gate looks
/// at the first-stage generator `omega_12` and its diagnostic is taken from
/// `omega_22`.
pub proof fn law_two_stage()
    ensures
        outcome(schedule(StepKind::TwoStage)).cells[Slot::SpinsF] == rotate(
            omega_22(),
            Term::Initial,
        ),
        schedule(StepKind::TwoStage)[7] is Gate,
        measured(schedule(StepKind::TwoStage), 7) == omega_12(),
        schedule(StepKind::TwoStage)[14] is Report,
        measured(schedule(StepKind::TwoStage), 14) == omega_22(),
        outcome(schedule(StepKind::TwoStage)).draws == 2,
{
    lemma_schedule_shape(StepKind::TwoStage);
    reveal_with_fuel(store_after, 16);
}

/// The first stage alone computes `exp(omega_12) m0`, behind the same gate.
pub proof fn law_short_circuit()
    ensures
        outcome(schedule(StepKind::ShortCircuit)).cells[Slot::SpinsF] == rotate(
            omega_12(),
            Term::Initial,
        ),
        schedule(StepKind::ShortCircuit)[7] is Gate,
        measured(schedule(StepKind::ShortCircuit), 7) == omega_12(),
{
    lemma_schedule_shape(StepKind::ShortCircuit);
    reveal_with_fuel(store_after, 10);
}

/// The one-evaluation step rotates by the drift generator and then by a pure
/// noise generator: `exp(chi * sqrt(b) * sqrt(dt)) exp(H(t1, m0) * dt) m0`.
/// Its gate looks at the drift generator, and the noise is drawn only after
/// the stability gate has passed.
pub proof fn law_cheap()
    ensures
        outcome(schedule(StepKind::Cheap)).cells[Slot::SpinsF] == rotate(
            Term::Diffusion(0),
            rotate(omega_drift(), Term::Initial),
        ),
        schedule(StepKind::Cheap)[2] is Gate,
        measured(schedule(StepKind::Cheap), 2) == omega_drift(),
        store_after(schedule(StepKind::Cheap), 2).draws == 0,
{
    lemma_schedule_shape(StepKind::Cheap);
    reveal_with_fuel(store_after, 7);
}

/// The row step computes `exp(omega_22) m0`. Like the bulk Magnus step, its
/// gate looks at the first-stage generator `omega_12` and its diagnostic is
/// taken from `omega_22`. On exit `Omega1` holds the first-stage generator
/// and `Omega2` the second-stage one.
pub proof fn law_row()
    ensures
        outcome(schedule(StepKind::Row)).cells[Slot::SpinsF] == rotate(omega_22(), Term::Initial),
        outcome(schedule(StepKind::Row)).cells[Slot::Omega1] == omega_12(),
        outcome(schedule(StepKind::Row)).cells[Slot::Omega2] == omega_22(),
        schedule(StepKind::Row)[7] is Gate,
        measured(schedule(StepKind::Row), 7) == omega_12(),
        schedule(StepKind::Row)[14] is Report,
        measured(schedule(StepKind::Row), 14) == omega_22(),
        outcome(schedule(StepKind::Row)).draws == 2,
{
    lemma_schedule_shape(StepKind::Row);
    reveal_with_fuel(store_after, 16);
}

/// On the same initial spins, the same field callback and the same noise
/// grids, the row step and the bulk Magnus step agree: their gates stand at
/// the same place and measure the same generator, so one is rejected exactly
/// when the other is, with the output untouched in both; and where they are
/// accepted they produce the same spins and the same diagnostic. They differ
/// in where they keep their generators.
pub proof fn law_row_matches_bulk()
    ensures
        gate_index(StepKind::Row) == gate_index(StepKind::TwoStage),
        measured(schedule(StepKind::Row), gate_index(StepKind::Row)) == measured(
            schedule(StepKind::TwoStage),
            gate_index(StepKind::TwoStage),
        ),
        store_after(schedule(StepKind::Row), gate_index(StepKind::Row) as nat).cells[Slot::SpinsF]
            == store_after(
            schedule(StepKind::TwoStage),
            gate_index(StepKind::TwoStage) as nat,
        ).cells[Slot::SpinsF],
        outcome(schedule(StepKind::Row)).cells[Slot::SpinsF] == outcome(
            schedule(StepKind::TwoStage),
        ).cells[Slot::SpinsF],
        measured(schedule(StepKind::Row), 14) == measured(schedule(StepKind::TwoStage), 14),
        outcome(schedule(StepKind::Row)).draws == outcome(schedule(StepKind::TwoStage)).draws,
{
    law_gate_before_output(StepKind::Row, 7);
    law_gate_before_output(StepKind::TwoStage, 7);
    law_row();
    law_two_stage();
}

/// A gate is evaluated while the output buffer still holds what the caller
/// left in it: no operation before the stability gate writes the output. A
/// step that is rejected therefore returns the output buffer untouched.
pub proof fn law_gate_before_output(kind: StepKind, i: int)
    requires
        0 <= i < schedule(kind).len(),
        schedule(kind)[i] is Gate,
    ensures
        store_after(schedule(kind), i as nat).cells[Slot::SpinsF] == Term::Stale(Slot::SpinsF),
        forall|j: int| 0 <= j < i ==> (#[trigger] schedule(kind)[j]).target() != Some(Slot::SpinsF),
{
    lemma_schedule_shape(kind);
    reveal_with_fuel(store_after, 8);
}

/// Every step has exactly one gate: the operation at [`gate_index`] is a
/// gate and no other operation is.
pub proof fn law_single_gate(kind: StepKind)
    ensures
        0 <= gate_index(kind) < schedule(kind).len(),
        schedule(kind)[gate_index(kind)] is Gate,
        forall|i: int|
            0 <= i < schedule(kind).len() && #[trigger] schedule(kind)[i] is Gate ==> i
                == gate_index(kind),
{
    lemma_schedule_shape(kind);
}

/// No step writes its input.
pub proof fn law_input_preserved(kind: StepKind, i: int)
    requires
        0 <= i < schedule(kind).len(),
    ensures
        schedule(kind)[i].target() != Some(Slot::Spins0),
{
    lemma_schedule_shape(kind);
}

/// No operation overwrites one of its own operands, so an operation can read
/// all its operands while it fills its target.
pub proof fn law_target_is_no_operand(kind: StepKind, i: int, k: int)
    requires
        0 <= i < schedule(kind).len(),
        0 <= k < schedule(kind)[i].sources().len(),
    ensures
        schedule(kind)[i].target() != Some(schedule(kind)[i].sources()[k]),
{
    lemma_schedule_shape(kind);
}

/// The buffers that hold a value of this step after the first `n` operations
/// of `ops`: the input, and every buffer written so far.
pub open spec fn written_after(ops: Seq<Op>, n: nat) -> Set<Slot>
    decreases n,
{
    if n == 0 {
        set![Slot::Spins0]
    } else {
        match ops[n - 1].target() {
            Some(s) => written_after(ops, (n - 1) as nat).insert(s),
            None => written_after(ops, (n - 1) as nat),
        }
    }
}

/// A buffer holds a stale value exactly as long as no operation has written it.
pub proof fn lemma_written_is_fresh(ops: Seq<Op>, n: nat, s: Slot)
    ensures
        written_after(ops, n).contains(s) <==> !(store_after(ops, n).cells[s] is Stale),
    decreases n,
{
    if n > 0 {
        lemma_written_is_fresh(ops, (n - 1) as nat, s);
    }
}

/// All operands of the first `n` operations of `ops` had been written when
/// they were read.
spec fn ordered_upto(ops: Seq<Op>, n: nat) -> bool
    decreases n,
{
    n == 0 || {
        &&& ordered_upto(ops, (n - 1) as nat)
        &&& forall|k: int|
            0 <= k < ops[n - 1].sources().len() ==> written_after(ops, (n - 1) as nat).contains(
                #[trigger] ops[n - 1].sources()[k],
            )
    }
}

proof fn lemma_ordered_reads_fresh(ops: Seq<Op>, n: nat, i: int)
    requires
        ordered_upto(ops, n),
        0 <= i < n,
    ensures
        reads_fresh(ops, i),
    decreases n,
{
    if i == n - 1 {
        assert forall|k: int| 0 <= k < ops[i].sources().len() implies !(#[trigger] store_after(
            ops,
            i as nat,
        ).cells[ops[i].sources()[k]] is Stale) by {
            lemma_written_is_fresh(ops, i as nat, ops[i].sources()[k]);
        }
    } else {
        lemma_ordered_reads_fresh(ops, (n - 1) as nat, i);
    }
}

/// Every operand of every operation was written earlier in the same step, or
/// is the input. So nothing a step computes depends on what its scratch
/// buffers or its output buffer held before, and none of them needs clearing
/// between steps.
pub proof fn law_reads_fresh(kind: StepKind, i: int)
    requires
        0 <= i < schedule(kind).len(),
    ensures
        reads_fresh(schedule(kind), i),
{
    let ops = schedule(kind);
    assert(ordered_upto(ops, ops.len())) by {
        reveal_with_fuel(written_after, 16);
        reveal_with_fuel(ordered_upto, 16);
        lemma_schedule_shape(kind);
    }
    lemma_ordered_reads_fresh(ops, ops.len(), i);
}

} // verus!
