//! A dense two-dimensional array in row-major order.
use vstd::prelude::*;

verus! {

/// A rectangular array of `rows() * cols()` cells. Cell `(i, j)` is
/// `self@[i][j]`.
pub struct Grid<T> {
    data: Vec<T>,
    rows: usize,
    cols: usize,
}

impl<T> View for Grid<T> {
    type V = Seq<Seq<T>>;

    closed spec fn view(&self) -> Seq<Seq<T>> {
        Seq::new(
            self.rows as nat,
            |i: int| Seq::new(self.cols as nat, |j: int| self.data@[i * self.cols + j]),
        )
    }
}

/// `i * cols + j` addresses a cell of a `rows` by `cols` array.
proof fn lemma_cell_index(rows: int, cols: int, i: int, j: int)
    requires
        0 <= i < rows,
        0 <= j < cols,
    ensures
        0 <= i * cols + j < rows * cols,
{
    assert(i * cols + j < rows * cols) by (nonlinear_arith)
        requires
            0 <= i < rows,
            0 <= j < cols,
    ;
    assert(0 <= i * cols) by (nonlinear_arith)
        requires
            0 <= i,
            0 <= cols,
    ;
}

/// Distinct cells have distinct addresses.
proof fn lemma_cell_index_injective(cols: int, i: int, j: int, k: int, l: int)
    requires
        0 <= j < cols,
        0 <= l < cols,
        i * cols + j == k * cols + l,
    ensures
        i == k,
        j == l,
{
    assert(i == k) by (nonlinear_arith)
        requires
            0 <= j < cols,
            0 <= l < cols,
            i * cols + j == k * cols + l,
    ;
}

impl<T> Grid<T> {
    #[verifier::type_invariant]
    spec fn inv(self) -> bool {
        self.data.len() == self.rows * self.cols
    }

    /// Number of rows.
    pub closed spec fn rows(&self) -> nat {
        self.rows as nat
    }

    /// Number of columns.
    pub closed spec fn cols(&self) -> nat {
        self.cols as nat
    }

    /// The array has `rows()` rows of `cols()` cells each.
    pub open spec fn rectangular(&self) -> bool {
        &&& self@.len() == self.rows()
        &&& forall|i: int| 0 <= i < self.rows() ==> (#[trigger] self@[i]).len() == self.cols()
    }

    /// Every array is rectangular.
    pub proof fn lemma_rectangular(&self)
        ensures
            self.rectangular(),
    {
    }

    /// The array of the given shape whose cells, row by row, are `data`.
    /// `None` if `data` has not exactly `rows * cols` elements.
    pub fn from_vec(rows: usize, cols: usize, data: Vec<T>) -> (r: Option<Grid<T>>)
        ensures
            r is Some <==> data.len() == rows * cols,
            r matches Some(g) ==> {
                &&& g.rows() == rows
                &&& g.cols() == cols
                &&& g.rectangular()
                &&& forall|i: int, j: int|
                    0 <= i < rows && 0 <= j < cols ==> #[trigger] g@[i][j] == data@[i * cols + j]
            },
    {
        let fits = match rows.checked_mul(cols) {
            Some(n) => n == data.len(),
            None => false,
        };
        if fits {
            let g = Grid { data, rows, cols };
            Some(g)
        } else {
            None
        }
    }

    /// The cells, row by row.
    pub fn into_vec(self) -> (r: Vec<T>)
        ensures
            r.len() == self.rows() * self.cols(),
            forall|i: int, j: int|
                0 <= i < self.rows() && 0 <= j < self.cols() ==> #[trigger] self@[i][j] == r@[i
                    * self.cols() + j],
    {
        proof {
            use_type_invariant(&self);
        }
        self.data
    }

    /// Number of rows and number of columns.
    pub fn shape(&self) -> (r: (usize, usize))
        ensures
            r.0 == self.rows(),
            r.1 == self.cols(),
    {
        (self.rows, self.cols)
    }

    /// The cell in row `i`, column `j`.
    pub fn get(&self, i: usize, j: usize) -> (r: &T)
        requires
            i < self.rows(),
            j < self.cols(),
        ensures
            *r == self@[i as int][j as int],
    {
        proof {
            use_type_invariant(self);
            lemma_cell_index(self.rows as int, self.cols as int, i as int, j as int);
        }
        &self.data[i * self.cols + j]
    }

    /// Overwrite the cell in row `i`, column `j`.
    pub fn set(&mut self, i: usize, j: usize, value: T)
        requires
            i < old(self).rows(),
            j < old(self).cols(),
        ensures
            final(self).rows() == old(self).rows(),
            final(self).cols() == old(self).cols(),
            final(self)@ == old(self)@.update(i as int, old(self)@[i as int].update(j as int, value)),
    {
        proof {
            use_type_invariant(&*self);
            lemma_cell_index(self.rows as int, self.cols as int, i as int, j as int);
        }
        let ghost before = *self;
        self.data[i * self.cols + j] = value;
        proof {
            let after = *self;
            let expected = before@.update(i as int, before@[i as int].update(j as int, value));
            assert(after@.len() == expected.len());
            assert forall|k: int| 0 <= k < after@.len() implies #[trigger] after@[k]
                =~= expected[k] by {
                assert forall|l: int| 0 <= l < self.cols implies after@[k][l] == expected[k][l] by {
                    lemma_cell_index(self.rows as int, self.cols as int, k, l);
                    if k * self.cols + l == i * self.cols + j {
                        lemma_cell_index_injective(self.cols as int, k, l, i as int, j as int);
                    }
                }
            }
            assert(after@ =~= expected);
        }
    }
}

impl<T: Copy> Grid<T> {
    /// The array of the given shape with `elem` in every cell.
    pub fn from_elem(rows: usize, cols: usize, elem: T) -> (r: Grid<T>)
        requires
            rows * cols <= usize::MAX,
        ensures
            r.rows() == rows,
            r.cols() == cols,
            r.rectangular(),
            forall|i: int, j: int| 0 <= i < rows && 0 <= j < cols ==> #[trigger] r@[i][j] == elem,
    {
        let n: usize = rows * cols;
        let mut data: Vec<T> = Vec::new();
        let mut k: usize = 0;
        while k < n
            invariant
                k <= n,
                data.len() == k,
                forall|m: int| 0 <= m < k ==> data@[m] == elem,
            decreases n - k,
        {
            data.push(elem);
            k = k + 1;
        }
        let g = Grid { data, rows, cols };
        proof {
            assert forall|i: int, j: int| 0 <= i < rows && 0 <= j < cols implies #[trigger] g@[i][j]
                == elem by {
                lemma_cell_index(rows as int, cols as int, i, j);
            }
        }
        g
    }
}

} // verus!
