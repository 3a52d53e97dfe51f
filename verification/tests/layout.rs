use spin_langevin::grid::Grid;
use spin_langevin::layout::{
    array_chunks_to_xyz, chunk_count, xyz_to_array_chunks, Vector3d4, AXES, LANES,
};

fn matrix(n: usize) -> Grid<f64> {
    let data: Vec<f64> = (0..3 * n).map(|i| i as f64 + 0.5).collect();
    Grid::from_vec(n, 3, data).unwrap()
}

fn cells(g: &Grid<f64>) -> Vec<f64> {
    let (rows, cols) = g.shape();
    let mut out = Vec::new();
    for i in 0..rows {
        for j in 0..cols {
            out.push(*g.get(i, j));
        }
    }
    out
}

#[test]
fn lane_width_and_axes() {
    assert_eq!(LANES, 4);
    assert_eq!(AXES, 3);
}

#[test]
fn chunk_count_rounds_up() {
    assert_eq!(chunk_count(0), 0);
    assert_eq!(chunk_count(1), 1);
    assert_eq!(chunk_count(3), 1);
    assert_eq!(chunk_count(4), 1);
    assert_eq!(chunk_count(5), 2);
    assert_eq!(chunk_count(8), 2);
    assert_eq!(chunk_count(9), 3);
    assert_eq!(chunk_count(usize::MAX), usize::MAX / 4 + 1);
}

#[test]
fn packing_puts_row_in_lane() {
    let arr = matrix(8);
    let mut chunks = vec![Vector3d4::splat(0.0); 2];
    xyz_to_array_chunks(&arr, &mut chunks);
    for c in 0..2 {
        for l in 0..4 {
            for k in 0..3 {
                assert_eq!(chunks[c].dat[k][l], *arr.get(4 * c + l, k));
                assert_eq!(chunks[c].get(k, l), (3 * (4 * c + l) + k) as f64 + 0.5);
            }
        }
    }
}

#[test]
fn packing_four_field_vectors() {
    let arr = Grid::from_vec(
        4,
        3,
        vec![0.0, 0.0, 1.0, 0.0, 0.0, 1.0, 0.0, 0.0, 1.0, 0.0, 0.0, 1.0],
    )
    .unwrap();
    let mut chunks = vec![Vector3d4::splat(0.0); 1];
    xyz_to_array_chunks(&arr, &mut chunks);
    assert_eq!(chunks[0].dat, [[0.0; 4], [0.0; 4], [1.0; 4]]);
}

#[test]
fn round_trip_multiple_of_four() {
    for n in [0usize, 4, 8, 12, 40] {
        let arr = matrix(n);
        let mut chunks = vec![Vector3d4::splat(-1.0); chunk_count(n)];
        xyz_to_array_chunks(&arr, &mut chunks);
        let back = array_chunks_to_xyz(&chunks, n);
        assert_eq!(back.shape(), (n, 3));
        assert_eq!(cells(&back), cells(&arr));
    }
}

#[test]
fn round_trip_partial_chunk() {
    for n in [1usize, 2, 3, 5, 6, 7, 9, 13] {
        let arr = matrix(n);
        let mut chunks = vec![Vector3d4::splat(-1.0); chunk_count(n)];
        xyz_to_array_chunks(&arr, &mut chunks);
        let back = array_chunks_to_xyz(&chunks, n);
        assert_eq!(back.shape(), (n, 3));
        assert_eq!(cells(&back), cells(&arr));
    }
}

#[test]
fn partial_chunk_keeps_unused_lanes() {
    let arr = matrix(5);
    let mut chunks = vec![Vector3d4::splat(-7.0); 2];
    xyz_to_array_chunks(&arr, &mut chunks);
    for k in 0..3 {
        assert_eq!(chunks[1].dat[k][0], *arr.get(4, k));
        for l in 1..4 {
            assert_eq!(chunks[1].dat[k][l], -7.0);
        }
    }
}

#[test]
fn packing_nothing_changes_nothing() {
    let arr = matrix(0);
    let mut chunks: Vec<Vector3d4<f64>> = Vec::new();
    xyz_to_array_chunks(&arr, &mut chunks);
    assert!(chunks.is_empty());
}

#[test]
fn chunk_set_touches_one_cell() {
    let mut chunk = Vector3d4::splat(1u8);
    chunk.set(2, 3, 9);
    for k in 0..3 {
        for l in 0..4 {
            assert_eq!(chunk.get(k, l), if k == 2 && l == 3 { 9 } else { 1 });
        }
    }
}

#[test]
fn unpacking_reads_lane_of_chunk() {
    let mut a = Vector3d4::splat(0i32);
    let mut b = Vector3d4::splat(0i32);
    for k in 0..3 {
        for l in 0..4 {
            a.set(k, l, (10 * l + k) as i32);
            b.set(k, l, (100 + 10 * l + k) as i32);
        }
    }
    let arr = array_chunks_to_xyz(&vec![a, b], 6);
    assert_eq!(arr.shape(), (6, 3));
    assert_eq!(*arr.get(0, 0), 0);
    assert_eq!(*arr.get(3, 2), 32);
    assert_eq!(*arr.get(4, 1), 101);
    assert_eq!(*arr.get(5, 2), 112);
}
