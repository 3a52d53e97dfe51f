//! One integration step as a conversation between this crate and the
//! numerical kernels.
//!
//! The stepper names the next thing to do; the caller does it on its arrays
//! and reports back; the stepper decides what comes next. The caller never
//! decides anything: which operation runs, whether the step is rejected and
//! which diagnostic it returns all come from here.
use crate::binary64::Binary64;
use crate::dataflow::law_gate_before_output;
use crate::outcome::{gate_limit, gate_limit_spec, gate_spec, stability_gate, StepResult};
use crate::schedule::{plan, schedule, Op, Slot, StepKind};
use vstd::prelude::*;

verus! {

/// The arrays and resources of one call, as far as their admissibility goes.
/// An entry point that has no separate workpad gives the shape of the spins
/// for it; one that runs on a single random stream gives one stream and one
/// worker.
#[derive(Copy, Clone, Debug)]
pub struct StepSetup {
    /// Shape of the initial spins: replicas, spins per replica.
    pub spins: (usize, usize),
    /// Shape of the output buffer.
    pub output: (usize, usize),
    /// Shape of the scratch buffers.
    pub workpad: (usize, usize),
    /// Noise strength `b`.
    pub noise_strength: Binary64,
    /// Number of random streams provided.
    pub streams: usize,
    /// Number of workers that may run at the same time.
    pub workers: usize,
}

/// Why a step cannot begin. These are mistakes of the calling program, not
/// outcomes of the dynamics.
#[derive(Copy, Clone, PartialEq, Eq, Structural, Debug)]
pub enum StepFault {
    /// The scratch buffers do not have the shape of the spins.
    WorkpadShape,
    /// The output buffer does not have the shape of the spins.
    OutputShape,
    /// The noise strength is negative or not a number.
    NoiseStrength,
    /// Fewer random streams than workers.
    RngPool,
}

impl StepSetup {
    /// The first fault of the setup, in the order workpad, output, noise
    /// strength, random streams; `None` if the step may begin.
    pub open spec fn fault_spec(self) -> Option<StepFault> {
        if self.workpad != self.spins {
            Some(StepFault::WorkpadShape)
        } else if self.output != self.spins {
            Some(StepFault::OutputShape)
        } else if !self.noise_strength.is_non_negative_spec() {
            Some(StepFault::NoiseStrength)
        } else if self.streams < self.workers {
            Some(StepFault::RngPool)
        } else {
            None
        }
    }

    /// The first fault of the setup, or `None` if the step may begin.
    pub fn fault(&self) -> (r: Option<StepFault>)
        ensures
            r == self.fault_spec(),
    {
        if self.workpad.0 != self.spins.0 || self.workpad.1 != self.spins.1 {
            Some(StepFault::WorkpadShape)
        } else if self.output.0 != self.spins.0 || self.output.1 != self.spins.1 {
            Some(StepFault::OutputShape)
        } else if !self.noise_strength.is_non_negative() {
            Some(StepFault::NoiseStrength)
        } else if self.streams < self.workers {
            Some(StepFault::RngPool)
        } else {
            None
        }
    }
}

/// What the stepper asks of the caller.
#[derive(Copy, Clone, PartialEq, Eq, Structural, Debug)]
pub enum Action {
    /// Carry out the operation on the arrays, then answer [`Event::Done`].
    Perform(Op),
    /// Compute the mean Euclidean norm of the vectors in the buffer, then
    /// answer [`Event::Measured`] with it.
    Measure(Slot),
    /// The step is over. Nothing more is to be done.
    Finish(StepResult),
}

/// What the caller reports to the stepper.
#[derive(Copy, Clone, PartialEq, Eq, Structural, Debug)]
pub enum Event {
    /// The operation asked for has been carried out.
    Done,
    /// The measurement asked for gave this value.
    Measured(Binary64),
}

/// The state of a step.
pub struct StepState {
    pub kind: StepKind,
    /// The limit of the stability gate.
    pub limit: Binary64,
    /// How many operations of the schedule are behind us.
    pub cursor: nat,
    /// The latest measurement; zero before the first.
    pub metric: Binary64,
    /// Set once the stability gate has rejected the step.
    pub rejected: bool,
}

impl StepState {
    /// The state in which a step begins.
    pub open spec fn start(kind: StepKind, h_max: Binary64) -> StepState {
        StepState {
            kind,
            limit: gate_limit_spec(kind, h_max),
            cursor: 0,
            metric: Binary64 { bits: 0 },
            rejected: false,
        }
    }

    /// What the state asks of the caller. After a rejection, and at the end
    /// of the schedule, the step is over; a step that got to the end is
    /// accepted with its latest measurement.
    pub open spec fn action(self) -> Action {
        if self.rejected {
            Action::Finish(StepResult::Reject(self.metric))
        } else if self.cursor >= schedule(self.kind).len() {
            Action::Finish(StepResult::Accept(self.metric))
        } else {
            let op = schedule(self.kind)[self.cursor as int];
            match op {
                Op::Gate { generator } => Action::Measure(generator),
                Op::Report { generator } => Action::Measure(generator),
                _ => Action::Perform(op),
            }
        }
    }

    /// The event answers the pending action.
    pub open spec fn expects(self, event: Event) -> bool {
        match self.action() {
            Action::Perform(_) => event is Done,
            Action::Measure(_) => event is Measured,
            Action::Finish(_) => false,
        }
    }

    /// The state after an event. An event that does not answer the pending
    /// action changes nothing. A measurement taken for the stability gate
    /// rejects the step if it has reached the limit; otherwise the schedule
    /// moves on.
    pub open spec fn after(self, event: Event) -> StepState {
        if !self.expects(event) {
            self
        } else {
            match event {
                Event::Done => StepState { cursor: self.cursor + 1, ..self },
                Event::Measured(m) => {
                    if schedule(self.kind)[self.cursor as int] is Gate && gate_spec(m, self.limit)
                        is Reject {
                        StepState { metric: m, rejected: true, ..self }
                    } else {
                        StepState { metric: m, cursor: self.cursor + 1, ..self }
                    }
                },
            }
        }
    }
}

/// The state that a step of the given kind is in after the given events.
pub open spec fn reach(kind: StepKind, h_max: Binary64, events: Seq<Event>) -> StepState
    decreases events.len(),
{
    if events.len() == 0 {
        StepState::start(kind, h_max)
    } else {
        reach(kind, h_max, events.drop_last()).after(events.last())
    }
}

/// Whatever the caller reports, a step is rejected only at its gate, only on
/// a measurement that has reached the limit, and only before any operation
/// has written the output buffer. The rejection carries that measurement.
pub proof fn law_rejection(kind: StepKind, h_max: Binary64, events: Seq<Event>)
    ensures
        ({
            let s = reach(kind, h_max, events);
            &&& s.cursor <= schedule(kind).len()
            &&& s.kind == kind
            &&& s.limit == gate_limit_spec(kind, h_max)
            &&& s.rejected ==> {
                &&& s.cursor < schedule(kind).len()
                &&& schedule(kind)[s.cursor as int] is Gate
                &&& s.metric.ge_spec(s.limit)
                &&& s.action() == Action::Finish(StepResult::Reject(s.metric))
                &&& forall|j: int|
                    0 <= j < s.cursor ==> (#[trigger] schedule(kind)[j]).target() != Some(
                        Slot::SpinsF,
                    )
            }
        }),
    decreases events.len(),
{
    if events.len() > 0 {
        law_rejection(kind, h_max, events.drop_last());
        let s = reach(kind, h_max, events);
        if s.rejected {
            law_gate_before_output(kind, s.cursor as int);
        }
    }
}

/// The course of a step is a function of its kind, its limit and what the
/// caller reports: two steps of one kind and limit that are told the same
/// things are in the same state and ask for the same thing next. With the
/// same kernels, the same inputs and the same random samples, two runs of a
/// step therefore do the same operations in the same order.
pub proof fn law_determinism(
    kind: StepKind,
    h_max: Binary64,
    first: Seq<Event>,
    second: Seq<Event>,
)
    requires
        first.len() == second.len(),
        forall|i: int| 0 <= i < first.len() ==> first[i] == second[i],
    ensures
        reach(kind, h_max, first) == reach(kind, h_max, second),
        reach(kind, h_max, first).action() == reach(kind, h_max, second).action(),
{
    assert(first =~= second);
}

/// A step that runs to the end of its schedule is accepted with its latest
/// measurement, and once a step is over no event changes it.
pub proof fn law_completion(s: StepState, event: Event)
    requires
        s.action() is Finish,
    ensures
        s.after(event) == s,
        !s.rejected ==> s.action() == Action::Finish(StepResult::Accept(s.metric)),
{
}

/// A step in progress.
pub struct Stepper {
    kind: StepKind,
    limit: Binary64,
    ops: Vec<Op>,
    cursor: usize,
    metric: Binary64,
    rejected: bool,
}

impl View for Stepper {
    type V = StepState;

    closed spec fn view(&self) -> StepState {
        StepState {
            kind: self.kind,
            limit: self.limit,
            cursor: self.cursor as nat,
            metric: self.metric,
            rejected: self.rejected,
        }
    }
}

impl Stepper {
    #[verifier::type_invariant]
    spec fn inv(self) -> bool {
        &&& self.ops@ == schedule(self.kind)
        &&& self.cursor <= self.ops.len()
    }

    /// Begin a step of the given kind, on a setup without fault. `h_max` is
    /// the limit of the one-evaluation step; the other kinds do not look at
    /// it.
    pub fn begin(kind: StepKind, setup: &StepSetup, h_max: Binary64) -> (r: Stepper)
        requires
            setup.fault_spec() is None,
        ensures
            r@ == StepState::start(kind, h_max),
    {
        Stepper {
            kind,
            limit: gate_limit(kind, h_max),
            ops: plan(kind),
            cursor: 0,
            metric: Binary64::zero(),
            rejected: false,
        }
    }

    /// What the caller is to do now.
    pub fn action(&self) -> (r: Action)
        ensures
            r == self@.action(),
    {
        proof {
            use_type_invariant(self);
        }
        if self.rejected {
            Action::Finish(StepResult::Reject(self.metric))
        } else if self.cursor >= self.ops.len() {
            Action::Finish(StepResult::Accept(self.metric))
        } else {
            let op = self.ops[self.cursor];
            match op {
                Op::Gate { generator } => Action::Measure(generator),
                Op::Report { generator } => Action::Measure(generator),
                _ => Action::Perform(op),
            }
        }
    }

    /// Whether the event answers the pending action.
    pub fn expects(&self, event: Event) -> (r: bool)
        ensures
            r == self@.expects(event),
    {
        match self.action() {
            Action::Perform(_) => match event {
                Event::Done => true,
                Event::Measured(_) => false,
            },
            Action::Measure(_) => match event {
                Event::Done => false,
                Event::Measured(_) => true,
            },
            Action::Finish(_) => false,
        }
    }

    /// Take the caller's report and say what is to be done next.
    pub fn next(&mut self, event: Event) -> (r: Action)
        ensures
            final(self)@ == old(self)@.after(event),
            r == final(self)@.action(),
    {
        proof {
            use_type_invariant(&*self);
        }
        if self.expects(event) {
            match event {
                Event::Done => {
                    self.cursor = self.cursor + 1;
                },
                Event::Measured(m) => {
                    let gated = match self.ops[self.cursor] {
                        Op::Gate { .. } => true,
                        _ => false,
                    };
                    self.metric = m;
                    let rejects = match stability_gate(m, self.limit) {
                        StepResult::Reject(_) => true,
                        StepResult::Accept(_) => false,
                    };
                    if gated && rejects {
                        self.rejected = true;
                    } else {
                        self.cursor = self.cursor + 1;
                    }
                },
            }
        }
        self.action()
    }
}

} // verus!
