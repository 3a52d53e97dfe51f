//! Scratch memory for the steps.
//!
//! A workpad is allocated once and handed to every step. A step overwrites
//! each buffer before it reads it, so a workpad never needs clearing; the
//! fill value given at construction only has to be some value of the cell
//! type.
use crate::grid::Grid;
use crate::schedule::{lemma_schedule_shape, schedule, Slot, StepKind};
use vstd::prelude::*;

verus! {

/// Scratch buffers of the one-evaluation step, for cells that hold one vector.
pub struct SpinLangevinM0Workpad<V> {
    pub m0: Grid<V>,
    pub h0: Grid<V>,
    pub h1: Grid<V>,
    pub m1: Grid<V>,
    pub omega1: Grid<V>,
    pub chi1: Grid<V>,
}

/// Scratch buffers of the bulk Magnus steps.
pub struct SpinLangevinWorkpad<V> {
    pub m0: Grid<V>,
    pub h0: Grid<V>,
    pub h1: Grid<V>,
    pub h2: Grid<V>,
    pub m1: Grid<V>,
    pub omega1: Grid<V>,
    pub omega2: Grid<V>,
    pub chi1: Grid<V>,
    pub chi2: Grid<V>,
}

/// Scratch buffers of the row step: one replica each.
pub struct SpinLangevinRowWorkpad<V> {
    pub h0: Vec<V>,
    pub h1: Vec<V>,
    pub h2: Vec<V>,
    pub omega1: Vec<V>,
    pub omega2: Vec<V>,
    pub chi1: Vec<V>,
    pub chi2: Vec<V>,
}

/// A grid of the given shape with `fill` in every cell.
pub open spec fn is_filled<V>(g: Grid<V>, s0: usize, s1: usize, fill: V) -> bool {
    &&& g.rows() == s0
    &&& g.cols() == s1
    &&& g.rectangular()
    &&& forall|i: int, j: int| 0 <= i < s0 && 0 <= j < s1 ==> #[trigger] g@[i][j] == fill
}

/// A row of the given length with `fill` in every cell.
pub open spec fn is_filled_row<V>(row: Seq<V>, s1: usize, fill: V) -> bool {
    &&& row.len() == s1
    &&& forall|j: int| 0 <= j < s1 ==> #[trigger] row[j] == fill
}

fn filled_row<V: Copy>(s1: usize, fill: V) -> (r: Vec<V>)
    ensures
        is_filled_row(r@, s1, fill),
{
    let mut row: Vec<V> = Vec::new();
    let mut j: usize = 0;
    while j < s1
        invariant
            j <= s1,
            row.len() == j,
            forall|m: int| 0 <= m < j ==> row@[m] == fill,
        decreases s1 - j,
    {
        row.push(fill);
        j = j + 1;
    }
    row
}

impl<V: Copy> SpinLangevinM0Workpad<V> {
    /// Buffers for `s0` replicas of `s1` spins, every cell set to `fill`.
    pub fn from_shape(s0: usize, s1: usize, fill: V) -> (r: Self)
        requires
            s0 * s1 <= usize::MAX,
        ensures
            is_filled(r.m0, s0, s1, fill),
            is_filled(r.h0, s0, s1, fill),
            is_filled(r.h1, s0, s1, fill),
            is_filled(r.m1, s0, s1, fill),
            is_filled(r.omega1, s0, s1, fill),
            is_filled(r.chi1, s0, s1, fill),
    {
        SpinLangevinM0Workpad {
            m0: Grid::from_elem(s0, s1, fill),
            h0: Grid::from_elem(s0, s1, fill),
            h1: Grid::from_elem(s0, s1, fill),
            m1: Grid::from_elem(s0, s1, fill),
            omega1: Grid::from_elem(s0, s1, fill),
            chi1: Grid::from_elem(s0, s1, fill),
        }
    }

    /// Number of replicas and number of spins per replica.
    pub fn shape(&self) -> (r: (usize, usize))
        ensures
            r.0 == self.m0.rows(),
            r.1 == self.m0.cols(),
    {
        self.m0.shape()
    }
}

impl<V: Copy> SpinLangevinWorkpad<V> {
    /// Buffers for `s0` replicas of `s1` spins, every cell set to `fill`.
    pub fn from_shape(s0: usize, s1: usize, fill: V) -> (r: Self)
        requires
            s0 * s1 <= usize::MAX,
        ensures
            is_filled(r.m0, s0, s1, fill),
            is_filled(r.h0, s0, s1, fill),
            is_filled(r.h1, s0, s1, fill),
            is_filled(r.h2, s0, s1, fill),
            is_filled(r.m1, s0, s1, fill),
            is_filled(r.omega1, s0, s1, fill),
            is_filled(r.omega2, s0, s1, fill),
            is_filled(r.chi1, s0, s1, fill),
            is_filled(r.chi2, s0, s1, fill),
    {
        SpinLangevinWorkpad {
            m0: Grid::from_elem(s0, s1, fill),
            h0: Grid::from_elem(s0, s1, fill),
            h1: Grid::from_elem(s0, s1, fill),
            h2: Grid::from_elem(s0, s1, fill),
            m1: Grid::from_elem(s0, s1, fill),
            omega1: Grid::from_elem(s0, s1, fill),
            omega2: Grid::from_elem(s0, s1, fill),
            chi1: Grid::from_elem(s0, s1, fill),
            chi2: Grid::from_elem(s0, s1, fill),
        }
    }

    /// Number of replicas and number of spins per replica.
    pub fn shape(&self) -> (r: (usize, usize))
        ensures
            r.0 == self.m0.rows(),
            r.1 == self.m0.cols(),
    {
        self.m0.shape()
    }
}

impl<V: Copy> SpinLangevinRowWorkpad<V> {
    /// Buffers for one replica of `s1` spins, every cell set to `fill`.
    pub fn from_shape(s1: usize, fill: V) -> (r: Self)
        ensures
            is_filled_row(r.h0@, s1, fill),
            is_filled_row(r.h1@, s1, fill),
            is_filled_row(r.h2@, s1, fill),
            is_filled_row(r.omega1@, s1, fill),
            is_filled_row(r.omega2@, s1, fill),
            is_filled_row(r.chi1@, s1, fill),
            is_filled_row(r.chi2@, s1, fill),
    {
        SpinLangevinRowWorkpad {
            h0: filled_row(s1, fill),
            h1: filled_row(s1, fill),
            h2: filled_row(s1, fill),
            omega1: filled_row(s1, fill),
            omega2: filled_row(s1, fill),
            chi1: filled_row(s1, fill),
            chi2: filled_row(s1, fill),
        }
    }

    /// Number of spins of the replica.
    pub fn len(&self) -> (r: usize)
        ensures
            r == self.h0.len(),
    {
        self.h0.len()
    }
}

/// The scratch buffers that the workpad of each kind of step provides: the
/// fields of [`SpinLangevinM0Workpad`] for the one-evaluation step, of
/// [`SpinLangevinWorkpad`] for the bulk Magnus steps and of
/// [`SpinLangevinRowWorkpad`] for the row step. The spins themselves are the
/// caller's.
pub open spec fn provided(kind: StepKind, slot: Slot) -> bool {
    match kind {
        StepKind::Cheap => slot == Slot::H0 || slot == Slot::H1 || slot == Slot::M1 || slot
            == Slot::Omega1 || slot == Slot::Chi1,
        StepKind::TwoStage | StepKind::ShortCircuit => slot != Slot::Spins0 && slot
            != Slot::SpinsF,
        StepKind::Row => slot != Slot::Spins0 && slot != Slot::SpinsF && slot != Slot::M1,
    }
}

/// Whether the workpad of a kind of step provides the buffer.
pub fn provides(kind: StepKind, slot: Slot) -> (r: bool)
    ensures
        r == provided(kind, slot),
{
    match kind {
        StepKind::Cheap => match slot {
            Slot::H0 | Slot::H1 | Slot::M1 | Slot::Omega1 | Slot::Chi1 => true,
            _ => false,
        },
        StepKind::TwoStage | StepKind::ShortCircuit => match slot {
            Slot::Spins0 | Slot::SpinsF => false,
            _ => true,
        },
        StepKind::Row => match slot {
            Slot::Spins0 | Slot::SpinsF | Slot::M1 => false,
            _ => true,
        },
    }
}

/// A step touches no buffer beyond the caller's two spin arrays and what its
/// workpad provides.
pub proof fn law_workpad_suffices(kind: StepKind, i: int, slot: Slot)
    requires
        0 <= i < schedule(kind).len(),
        schedule(kind)[i].target() == Some(slot) || schedule(kind)[i].sources().contains(slot),
    ensures
        slot == Slot::Spins0 || slot == Slot::SpinsF || provided(kind, slot),
{
    let ops = schedule(kind);
    lemma_schedule_shape(kind);
    let srcs = ops[i].sources();
    if srcs.contains(slot) {
        let k = choose|k: int| 0 <= k < srcs.len() && srcs[k] == slot;
        assert(srcs[k] == slot);
    }
}

} // verus!
