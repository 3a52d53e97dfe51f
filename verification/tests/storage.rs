use spin_langevin::grid::Grid;
use spin_langevin::schedule::{Slot, StepKind};
use spin_langevin::workpad::{
    provides, SpinLangevinM0Workpad, SpinLangevinRowWorkpad, SpinLangevinWorkpad,
};

fn all_equal(g: &Grid<f64>, s0: usize, s1: usize, value: f64) -> bool {
    if g.shape() != (s0, s1) {
        return false;
    }
    for i in 0..s0 {
        for j in 0..s1 {
            if *g.get(i, j) != value {
                return false;
            }
        }
    }
    true
}

#[test]
fn grid_from_elem_fills_every_cell() {
    let g = Grid::from_elem(3, 5, 2.5);
    assert!(all_equal(&g, 3, 5, 2.5));
    assert_eq!(g.into_vec(), vec![2.5; 15]);
}

#[test]
fn grid_with_an_empty_axis() {
    let g: Grid<u8> = Grid::from_elem(0, 7, 1);
    assert_eq!(g.shape(), (0, 7));
    assert!(g.into_vec().is_empty());
    let g: Grid<u8> = Grid::from_elem(7, 0, 1);
    assert_eq!(g.shape(), (7, 0));
}

#[test]
fn grid_from_vec_is_row_major() {
    let g = Grid::from_vec(2, 3, vec![1, 2, 3, 4, 5, 6]).unwrap();
    assert_eq!(g.shape(), (2, 3));
    assert_eq!(*g.get(0, 0), 1);
    assert_eq!(*g.get(0, 2), 3);
    assert_eq!(*g.get(1, 0), 4);
    assert_eq!(*g.get(1, 2), 6);
    assert_eq!(g.into_vec(), vec![1, 2, 3, 4, 5, 6]);
}

#[test]
fn grid_from_vec_refuses_a_wrong_length() {
    assert!(Grid::from_vec(2, 3, vec![1, 2, 3, 4, 5]).is_none());
    assert!(Grid::from_vec(2, 3, vec![1, 2, 3, 4, 5, 6, 7]).is_none());
    assert!(Grid::from_vec(usize::MAX, 2, vec![1]).is_none());
    assert!(Grid::from_vec(0, 3, Vec::<u8>::new()).is_some());
}

#[test]
fn grid_set_changes_one_cell() {
    let mut g = Grid::from_vec(2, 3, vec![1, 2, 3, 4, 5, 6]).unwrap();
    g.set(1, 1, 50);
    assert_eq!(g.shape(), (2, 3));
    assert_eq!(g.into_vec(), vec![1, 2, 3, 4, 50, 6]);
}

#[test]
fn bulk_workpad_from_shape() {
    let w = SpinLangevinWorkpad::from_shape(4, 3, 0.0);
    assert_eq!(w.shape(), (4, 3));
    for g in [&w.m0, &w.h0, &w.h1, &w.h2, &w.m1, &w.omega1, &w.omega2, &w.chi1, &w.chi2] {
        assert!(all_equal(g, 4, 3, 0.0));
    }
}

#[test]
fn one_evaluation_workpad_from_shape() {
    let w = SpinLangevinM0Workpad::from_shape(4, 1, 0.0);
    assert_eq!(w.shape(), (4, 1));
    for g in [&w.m0, &w.h0, &w.h1, &w.m1, &w.omega1, &w.chi1] {
        assert!(all_equal(g, 4, 1, 0.0));
    }
}

#[test]
fn row_workpad_from_shape() {
    let w = SpinLangevinRowWorkpad::from_shape(6, 1.5);
    assert_eq!(w.len(), 6);
    for v in [&w.h0, &w.h1, &w.h2, &w.omega1, &w.omega2, &w.chi1, &w.chi2] {
        assert_eq!(v, &vec![1.5; 6]);
    }
    let w = SpinLangevinRowWorkpad::from_shape(0, 1.5);
    assert_eq!(w.len(), 0);
}

#[test]
fn workpads_provide_their_fields() {
    assert!(provides(StepKind::Cheap, Slot::M1));
    assert!(provides(StepKind::Cheap, Slot::H1));
    assert!(!provides(StepKind::Cheap, Slot::H2));
    assert!(!provides(StepKind::Cheap, Slot::Omega2));
    assert!(!provides(StepKind::Cheap, Slot::Chi2));
    assert!(provides(StepKind::TwoStage, Slot::Omega2));
    assert!(provides(StepKind::ShortCircuit, Slot::M1));
    assert!(provides(StepKind::Row, Slot::Chi2));
    assert!(!provides(StepKind::Row, Slot::M1));
    for kind in [StepKind::Cheap, StepKind::TwoStage, StepKind::ShortCircuit, StepKind::Row] {
        assert!(!provides(kind, Slot::Spins0));
        assert!(!provides(kind, Slot::SpinsF));
    }
}
