//! How a step ends, and the stability gate that decides it.
use crate::binary64::{Binary64, ONE_FIFTH_BITS, PI_BITS};
use crate::schedule::StepKind;
use vstd::prelude::*;

verus! {

/// The outcome of one step. Both variants carry the mean generator norm that
/// was observed; a rejection is an ordinary outcome, telling the caller to
/// try again with a shorter step.
#[derive(Copy, Clone, PartialEq, Eq, Structural, Debug)]
pub enum StepResult {
    /// The rotation was within the trusted regime and the output was written.
    Accept(Binary64),
    /// The rotation was too large; the output was left as it was.
    Reject(Binary64),
}

impl StepResult {
    /// An accepted step as `Ok`, a rejected one as `Err`.
    pub fn into_result(self) -> (r: Result<Binary64, Binary64>)
        ensures
            r == match self {
                StepResult::Accept(x) => Ok::<Binary64, Binary64>(x),
                StepResult::Reject(x) => Err::<Binary64, Binary64>(x),
            },
    {
        match self {
            StepResult::Accept(x) => Ok(x),
            StepResult::Reject(x) => Err(x),
        }
    }
}

/// Options of the bulk Magnus step.
#[derive(Copy, Clone, Debug)]
pub struct SpinLangevinOpts {
    /// Gate limit of the one-evaluation step.
    pub h_max: Binary64,
    /// Stop after the first stage.
    pub stage1_only: bool,
}

impl Default for SpinLangevinOpts {
    /// A limit of 0.2 and both stages.
    fn default() -> (r: Self)
        ensures
            r.h_max.bits == ONE_FIFTH_BITS,
            !r.stage1_only,
    {
        SpinLangevinOpts { h_max: Binary64::one_fifth(), stage1_only: false }
    }
}

impl SpinLangevinOpts {
    /// The step that the options select.
    pub open spec fn kind_spec(self) -> StepKind {
        if self.stage1_only {
            StepKind::ShortCircuit
        } else {
            StepKind::TwoStage
        }
    }

    /// The step that the options select.
    pub fn kind(&self) -> (r: StepKind)
        ensures
            r == self.kind_spec(),
    {
        if self.stage1_only {
            StepKind::ShortCircuit
        } else {
            StepKind::TwoStage
        }
    }
}

/// Largest mean rotation angle per step that the Magnus steps accept: pi.
/// Beyond it the exponential map is no longer a reliable model of the step.
pub fn max_avg_angular_field() -> (r: Binary64)
    ensures
        r.bits == PI_BITS,
{
    Binary64::pi()
}

/// The limit that the stability gate of a step compares against: pi for the
/// Magnus steps, the caller's `h_max` for the one-evaluation step.
pub open spec fn gate_limit_spec(kind: StepKind, h_max: Binary64) -> Binary64 {
    match kind {
        StepKind::Cheap => h_max,
        _ => Binary64 { bits: PI_BITS },
    }
}

/// The limit that the stability gate of a step compares against.
pub fn gate_limit(kind: StepKind, h_max: Binary64) -> (r: Binary64)
    ensures
        r == gate_limit_spec(kind, h_max),
{
    match kind {
        StepKind::Cheap => h_max,
        _ => max_avg_angular_field(),
    }
}

/// The decision of the stability gate: a mean generator norm that has reached
/// the limit rejects the step. A norm that is not a number compares below
/// every limit and passes.
pub open spec fn gate_spec(metric: Binary64, limit: Binary64) -> StepResult {
    if metric.ge_spec(limit) {
        StepResult::Reject(metric)
    } else {
        StepResult::Accept(metric)
    }
}

/// The decision of the stability gate on a measured mean generator norm.
pub fn stability_gate(metric: Binary64, limit: Binary64) -> (r: StepResult)
    ensures
        r == gate_spec(metric, limit),
{
    if metric.ge(limit) {
        StepResult::Reject(metric)
    } else {
        StepResult::Accept(metric)
    }
}

} // verus!
