//! The spin lattice: a fixed-size 2D grid of `±1` spins with periodic
//! boundary conditions, stored as one flat row-major vector. Every cell holds
//! exactly `+1` or `-1` at all times, and the size never changes after
//! construction.

use vstd::prelude::*;
use crate::rng::{Xoshiro256Plus, RngState, xoshiro_output, xoshiro_advance, HALF_RANGE};

verus! {

/// A valid spin value: up (`+1`) or down (`-1`), nothing else.
pub open spec fn is_spin(x: i8) -> bool {
    x == 1i8 || x == -1i8
}

/// Row-major position of cell `(row, col)` in a flat lattice of `cols`
/// columns.
pub open spec fn spec_flat_index(row: int, col: int, cols: int) -> int {
    row * cols + col
}

/// Row of the north neighbor, wrapping the last row to row 0.
pub open spec fn north_row(i: int, rows: int) -> int {
    (i + 1) % rows
}

/// Row of the south neighbor, wrapping row 0 to the last row.
pub open spec fn south_row(i: int, rows: int) -> int {
    (i - 1 + rows) % rows
}

/// Column of the east neighbor, wrapping the last column to column 0.
pub open spec fn east_col(j: int, cols: int) -> int {
    (j + 1) % cols
}

/// Column of the west neighbor, wrapping column 0 to the last column.
pub open spec fn west_col(j: int, cols: int) -> int {
    (j - 1 + cols) % cols
}

/// Wrap-around consistency at every edge: the north neighbor of the last row
/// is row 0, the south neighbor of row 0 is the last row, the east neighbor
/// of the last column is column 0, and the west neighbor of column 0 is the
/// last column — for every lattice size.
pub proof fn lemma_periodic_boundary(rows: int, cols: int)
    requires
        rows >= 1,
        cols >= 1,
    ensures
        north_row(rows - 1, rows) == 0,
        south_row(0, rows) == rows - 1,
        east_col(cols - 1, cols) == 0,
        west_col(0, cols) == cols - 1,
{
    assert(rows % rows == 0) by (nonlinear_arith)
        requires rows >= 1;
    assert(cols % cols == 0) by (nonlinear_arith)
        requires cols >= 1;
    vstd::arithmetic::div_mod::lemma_small_mod((rows - 1) as nat, rows as nat);
    vstd::arithmetic::div_mod::lemma_small_mod((cols - 1) as nat, cols as nat);
}

/// Computes the row of the north neighbor.
pub fn north_of(i: usize, rows: usize) -> (r: usize)
    requires
        rows >= 1,
        i < rows,
    ensures
        r == north_row(i as int, rows as int),
        r < rows,
{
    (i + 1) % rows
}

/// Computes the row of the south neighbor.
pub fn south_of(i: usize, rows: usize) -> (r: usize)
    requires
        rows >= 1,
        i < rows,
    ensures
        r == south_row(i as int, rows as int),
        r < rows,
{
    if i == 0 {
        proof {
            vstd::arithmetic::div_mod::lemma_small_mod((rows - 1) as nat, rows as nat);
        }
        rows - 1
    } else {
        proof {
            vstd::arithmetic::div_mod::lemma_mod_multiples_vanish(1, i - 1, rows as int);
            vstd::arithmetic::div_mod::lemma_small_mod((i - 1) as nat, rows as nat);
        }
        i - 1
    }
}

/// Computes the column of the east neighbor.
pub fn east_of(j: usize, cols: usize) -> (r: usize)
    requires
        cols >= 1,
        j < cols,
    ensures
        r == east_col(j as int, cols as int),
        r < cols,
{
    (j + 1) % cols
}

/// Computes the column of the west neighbor.
pub fn west_of(j: usize, cols: usize) -> (r: usize)
    requires
        cols >= 1,
        j < cols,
    ensures
        r == west_col(j as int, cols as int),
        r < cols,
{
    if j == 0 {
        proof {
            vstd::arithmetic::div_mod::lemma_small_mod((cols - 1) as nat, cols as nat);
        }
        cols - 1
    } else {
        proof {
            vstd::arithmetic::div_mod::lemma_mod_multiples_vanish(1, j - 1, cols as int);
            vstd::arithmetic::div_mod::lemma_small_mod((j - 1) as nat, cols as nat);
        }
        j - 1
    }
}

/// The spins drawn for a hot start: cell `m` of the result is up or down
/// according to the `m`-th fair-coin draw of a xoshiro256+ generator started
/// in state `g`; the second component is the generator state afterwards.
pub open spec fn spec_hot_spins(g: RngState, n: nat) -> (Seq<i8>, RngState)
    decreases n,
{
    if n == 0 {
        (Seq::<i8>::empty(), g)
    } else {
        let (sp, g2) = spec_hot_spins(g, (n - 1) as nat);
        let v: i8 = if xoshiro_output(g2) < HALF_RANGE { 1i8 } else { -1i8 };
        (sp.push(v), xoshiro_advance(g2))
    }
}

/// The 2D spin grid. `spins` has length `rows * cols` and is addressed
/// row-major: cell `(i, j)` is `spins[i * cols + j]`.
pub struct Lattice {
    pub rows: usize,
    pub cols: usize,
    pub spins: Vec<i8>,
}

impl View for Lattice {
    type V = Seq<i8>;

    open spec fn view(&self) -> Seq<i8> {
        self.spins@
    }
}

impl Lattice {
    /// The lattice invariant: positive dimensions, flat length `rows * cols`,
    /// and every cell a valid spin.
    pub open spec fn wf(&self) -> bool {
        &&& self.rows >= 1
        &&& self.cols >= 1
        &&& self.spins@.len() == (self.rows as int) * (self.cols as int)
        &&& forall|k: int| 0 <= k < self.spins@.len() ==> is_spin(#[trigger] self.spins@[k])
    }

    /// Builds a cold lattice: every cell up (`+1`).
    pub fn new_cold(rows: usize, cols: usize) -> (r: Lattice)
        requires
            rows >= 1,
            cols >= 1,
            rows * cols <= usize::MAX,
        ensures
            r.wf(),
            r.rows == rows,
            r.cols == cols,
            forall|k: int| 0 <= k < r@.len() ==> r@[k] == 1i8,
    {
        let n = rows * cols;
        let mut spins: Vec<i8> = Vec::new();
        let mut k: usize = 0;
        while k < n
            invariant
                k <= n,
                spins@.len() == k,
                forall|m: int| 0 <= m < k ==> spins@[m] == 1i8,
            decreases n - k,
        {
            spins.push(1i8);
            k = k + 1;
        }
        Lattice { rows, cols, spins }
    }

    /// Builds a hot lattice: every cell independently up or down, one fair
    /// coin draw per cell in row-major order.
    pub fn new_hot(rows: usize, cols: usize, rng: &mut Xoshiro256Plus) -> (r: Lattice)
        requires
            rows >= 1,
            cols >= 1,
            rows * cols <= usize::MAX,
        ensures
            r.wf(),
            r.rows == rows,
            r.cols == cols,
            (r@, final(rng)@) == spec_hot_spins(old(rng)@, (rows * cols) as nat),
    {
        let n = rows * cols;
        let ghost g0 = rng@;
        let mut spins: Vec<i8> = Vec::new();
        let mut k: usize = 0;
        while k < n
            invariant
                k <= n,
                (spins@, rng@) == spec_hot_spins(g0, k as nat),
            decreases n - k,
        {
            let v: i8 = if rng.next_bool() { 1i8 } else { -1i8 };
            spins.push(v);
            k = k + 1;
        }
        proof {
            lemma_hot_spins_wf(g0, n as nat);
        }
        Lattice { rows, cols, spins }
    }

    /// The flat row-major position of cell `(row, col)`: the one place that
    /// holds the offset arithmetic.
    pub fn index(&self, row: usize, col: usize) -> (idx: usize)
        requires
            self.wf(),
            row < self.rows,
            col < self.cols,
        ensures
            idx == spec_flat_index(row as int, col as int, self.cols as int),
            idx < self@.len(),
    {
        let total = self.spins.len();
        proof {
            assert(row * self.cols + col < self.rows * self.cols) by (nonlinear_arith)
                requires row < self.rows, col < self.cols;
            assert(self.rows * self.cols == total);
        }
        row * self.cols + col
    }

    /// Reads the spin of cell `(row, col)`.
    pub fn get(&self, row: usize, col: usize) -> (s: i8)
        requires
            self.wf(),
            row < self.rows,
            col < self.cols,
        ensures
            s == self@[spec_flat_index(row as int, col as int, self.cols as int)],
            is_spin(s),
    {
        let idx = self.index(row, col);
        self.spins[idx]
    }
}

/// A hot start only ever writes valid spins: the drawn sequence has the
/// requested length and every cell is `+1` or `-1`.
pub proof fn lemma_hot_spins_wf(g: RngState, n: nat)
    ensures
        spec_hot_spins(g, n).0.len() == n,
        forall|k: int| 0 <= k < n ==> is_spin(#[trigger] spec_hot_spins(g, n).0[k]),
    decreases n,
{
    if n > 0 {
        lemma_hot_spins_wf(g, (n - 1) as nat);
    }
}

} // verus!
