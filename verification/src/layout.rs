//! Lane-packed batches of three-dimensional vectors.
//!
//! The kernels work on four vectors at a time, stored component by
//! component: a chunk holds four `x`, then four `y`, then four `z`. Vector
//! `r` of an array lives in lane `r % 4` of chunk `r / 4`.
//!
//! When the number of vectors is not a multiple of four, the last chunk has
//! lanes that stand for no vector. Packing leaves those lanes as it finds
//! them and unpacking never reads them.
use crate::grid::Grid;
use vstd::prelude::*;

verus! {

/// Number of vectors in a chunk.
pub const LANES: usize = 4;

/// Number of components of a vector.
pub const AXES: usize = 3;

/// Four three-dimensional vectors, stored component by component:
/// `dat[k][l]` is component `k` of the vector in lane `l`.
#[derive(Copy, Clone, Debug)]
pub struct Vector3d4<T> {
    pub dat: [[T; 4]; 3],
}

impl<T> Vector3d4<T> {
    /// Component `axis` of the vector in lane `lane`.
    pub open spec fn lane(self, axis: int, lane: int) -> T {
        self.dat[axis][lane]
    }
}

impl<T: Copy> Vector3d4<T> {
    /// The chunk with `value` in every component of every lane.
    pub fn splat(value: T) -> (r: Vector3d4<T>)
        ensures
            forall|k: int, l: int| 0 <= k < 3 && 0 <= l < 4 ==> r.lane(k, l) == value,
    {
        let row: [T; 4] = [value, value, value, value];
        Vector3d4 { dat: [row, row, row] }
    }

    /// Component `axis` of the vector in lane `lane`.
    pub fn get(&self, axis: usize, lane: usize) -> (r: T)
        requires
            axis < 3,
            lane < 4,
        ensures
            r == self.lane(axis as int, lane as int),
    {
        self.dat[axis][lane]
    }

    /// Overwrite component `axis` of the vector in lane `lane`.
    pub fn set(&mut self, axis: usize, lane: usize, value: T)
        requires
            axis < 3,
            lane < 4,
        ensures
            forall|k: int, l: int|
                0 <= k < 3 && 0 <= l < 4 ==> final(self).lane(k, l) == if k == axis && l == lane {
                    value
                } else {
                    old(self).lane(k, l)
                },
    {
        let mut row: [T; 4] = self.dat[axis];
        row[lane] = value;
        self.dat[axis] = row;
    }
}

/// Number of chunks that hold `n` vectors: `n / 4`, rounded up.
pub open spec fn chunk_count_spec(n: nat) -> nat {
    (n + 3) / 4
}

/// Number of chunks that hold `n` vectors.
pub fn chunk_count(n: usize) -> (r: usize)
    ensures
        r == chunk_count_spec(n as nat),
{
    if n % 4 == 0 {
        n / 4
    } else {
        n / 4 + 1
    }
}

/// `after` is `before` with the vectors of `arr` packed into it: lane `l` of
/// chunk `c` holds row `4c + l` of `arr` where there is such a row, and is
/// unchanged where there is none.
pub open spec fn is_packing<T>(
    arr: Grid<T>,
    before: Seq<Vector3d4<T>>,
    after: Seq<Vector3d4<T>>,
) -> bool {
    &&& after.len() == before.len()
    &&& forall|c: int, k: int, l: int|
        0 <= c < after.len() && 0 <= k < 3 && 0 <= l < 4 ==> #[trigger] after[c].lane(k, l) == if 4
            * c + l < arr.rows() {
            arr@[4 * c + l][k]
        } else {
            before[c].lane(k, l)
        }
}

/// `arr` holds the vectors of `chunks`: row `r` of `arr` is the vector in
/// lane `r % 4` of chunk `r / 4`.
pub open spec fn is_unpacking<T>(chunks: Seq<Vector3d4<T>>, arr: Grid<T>) -> bool {
    &&& arr.cols() == 3
    &&& arr.rectangular()
    &&& forall|r: int, k: int|
        0 <= r < arr.rows() && 0 <= k < 3 ==> #[trigger] arr@[r][k] == chunks[r / 4].lane(k, r % 4)
}

/// Pack the rows of an `n` by 3 array into lane-packed chunks.
///
/// The array must have exactly three columns and `chunk_array` exactly as
/// many chunks as `n` vectors need.
pub fn xyz_to_array_chunks<T: Copy>(arr: &Grid<T>, chunk_array: &mut Vec<Vector3d4<T>>)
    requires
        arr.cols() == 3,
        old(chunk_array).len() == chunk_count_spec(arr.rows()),
    ensures
        is_packing(*arr, old(chunk_array)@, final(chunk_array)@),
{
    let n: usize = arr.shape().0;
    let ghost before = chunk_array@;
    proof {
        arr.lemma_rectangular();
    }
    let mut r: usize = 0;
    while r < n
        invariant
            r <= n,
            n == arr.rows(),
            arr.cols() == 3,
            arr.rectangular(),
            chunk_array.len() == before.len(),
            before.len() == chunk_count_spec(n as nat),
            forall|c: int, k: int, l: int|
                0 <= c < before.len() && 0 <= k < 3 && 0 <= l < 4 ==> #[trigger] chunk_array@[c].lane(
                    k,
                    l,
                ) == if 4 * c + l < r {
                    arr@[4 * c + l][k]
                } else {
                    before[c].lane(k, l)
                },
        decreases n - r,
    {
        let c: usize = r / 4;
        let l: usize = r % 4;
        let ghost previous = chunk_array@;
        let mut chunk: Vector3d4<T> = chunk_array[c];
        chunk.set(0, l, *arr.get(r, 0));
        chunk.set(1, l, *arr.get(r, 1));
        chunk.set(2, l, *arr.get(r, 2));
        chunk_array[c] = chunk;
        proof {
            assert forall|d: int, k: int, m: int|
                0 <= d < before.len() && 0 <= k < 3 && 0 <= m < 4 implies #[trigger] chunk_array@[d].lane(
                k,
                m,
            ) == if 4 * d + m < r + 1 {
                arr@[4 * d + m][k]
            } else {
                before[d].lane(k, m)
            } by {
                assert(previous[d].lane(k, m) == if 4 * d + m < r {
                    arr@[4 * d + m][k]
                } else {
                    before[d].lane(k, m)
                });
                if d == c && m == l {
                    assert(4 * d + m == r);
                } else {
                    assert(4 * d + m != r);
                }
            }
        }
        r = r + 1;
    }
}

/// Component `k` of vector `r` in a flat list of vectors.
spec fn component<T>(data: Seq<T>, r: int, k: int) -> T {
    data[3 * r + k]
}

/// Unpack lane-packed chunks into the rows of an `n` by 3 array.
///
/// `chunk_array` must have exactly as many chunks as `n` vectors need.
pub fn array_chunks_to_xyz<T: Copy>(chunk_array: &Vec<Vector3d4<T>>, n: usize) -> (arr: Grid<T>)
    requires
        chunk_array.len() == chunk_count_spec(n as nat),
        3 * n <= usize::MAX,
    ensures
        arr.rows() == n,
        is_unpacking(chunk_array@, arr),
{
    let mut data: Vec<T> = Vec::new();
    let mut r: usize = 0;
    while r < n
        invariant
            r <= n,
            3 * n <= usize::MAX,
            chunk_array.len() == chunk_count_spec(n as nat),
            data.len() == 3 * r,
            forall|q: int, k: int|
                0 <= q < r && 0 <= k < 3 ==> #[trigger] component(data@, q, k)
                    == chunk_array@[q / 4].lane(k, q % 4),
        decreases n - r,
    {
        let chunk: Vector3d4<T> = chunk_array[r / 4];
        let l: usize = r % 4;
        let ghost previous = data@;
        data.push(chunk.get(0, l));
        data.push(chunk.get(1, l));
        data.push(chunk.get(2, l));
        proof {
            assert forall|q: int, k: int| 0 <= q < r + 1 && 0 <= k < 3 implies #[trigger] component(
                data@,
                q,
                k,
            ) == chunk_array@[q / 4].lane(k, q % 4) by {
                if q < r {
                    assert(component(data@, q, k) == component(previous, q, k));
                }
            }
        }
        r = r + 1;
    }
    let arr = Grid::from_vec(n, 3, data).unwrap();
    proof {
        assert forall|q: int, k: int| 0 <= q < n && 0 <= k < 3 implies #[trigger] arr@[q][k]
            == chunk_array@[q / 4].lane(k, q % 4) by {
            assert(arr@[q][k] == component(data@, q, k));
        }
    }
    arr
}

/// Packing an array and unpacking the chunks gives the array back, whatever
/// the chunks held before and whether or not the number of rows is a
/// multiple of four.
pub proof fn law_round_trip<T>(
    arr: Grid<T>,
    before: Seq<Vector3d4<T>>,
    packed: Seq<Vector3d4<T>>,
    unpacked: Grid<T>,
)
    requires
        arr.cols() == 3,
        before.len() == chunk_count_spec(arr.rows()),
        is_packing(arr, before, packed),
        is_unpacking(packed, unpacked),
        unpacked.rows() == arr.rows(),
    ensures
        unpacked@ == arr@,
{
    arr.lemma_rectangular();
    assert forall|r: int| 0 <= r < arr.rows() implies #[trigger] unpacked@[r] =~= arr@[r] by {
        assert forall|k: int| 0 <= k < 3 implies unpacked@[r][k] == arr@[r][k] by {
            let c = r / 4;
            let l = r % 4;
            assert(4 * c + l == r);
            assert(packed[c].lane(k, l) == arr@[4 * c + l][k]);
        }
    }
    assert(unpacked@ =~= arr@);
}

} // verus!
