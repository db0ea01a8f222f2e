//! The Metropolis sweep: single-spin-flip dynamics over the lattice with
//! periodic boundaries, every cell visited once per sweep in row-major order,
//! each cell updated in place so later cells in the same sweep see
//! already-flipped neighbors. The whole run is specified as a mathematical
//! function of the initial lattice, the random-source state, the acceptance
//! table, and the step count.

use vstd::prelude::*;
use crate::lattice::{
    Lattice, is_spin, spec_flat_index, north_row, south_row, east_col, west_col, spec_hot_spins,
};
use crate::rng::{Xoshiro256Plus, RngState, xoshiro_output, xoshiro_advance};
use crate::table::{ProbabilityTable, TABLE_LEN};

verus! {

/// The coupling constant of the nearest-neighbor interaction: `+1`, the
/// classic ferromagnetic case, fixed for every run.
pub const J: i8 = 1;

/// The discretized local field of cell `(i, j)`: the coupling constant times
/// the cell's spin times the sum of its four periodic neighbors. With `±1`
/// spins it lies in `-4..=4`, and only even values are reachable.
pub open spec fn spec_local_field(l: Seq<i8>, rows: int, cols: int, i: int, j: int) -> int {
    let site = l[spec_flat_index(i, j, cols)] as int;
    let nn = l[spec_flat_index(north_row(i, rows), j, cols)] as int;
    let ss = l[spec_flat_index(south_row(i, rows), j, cols)] as int;
    let ee = l[spec_flat_index(i, east_col(j, cols), cols)] as int;
    let ww = l[spec_flat_index(i, west_col(j, cols), cols)] as int;
    (J as int) * site * (nn + ss + ee + ww)
}

/// One Metropolis update of cell `(i, j)`: draw one uniform 64-bit value,
/// look the local field up in the acceptance table, and flip the cell iff
/// the draw is strictly below the threshold.
pub open spec fn spec_cell_step(
    l: Seq<i8>,
    g: RngState,
    table: Seq<u64>,
    rows: int,
    cols: int,
    i: int,
    j: int,
) -> (Seq<i8>, RngState) {
    let draw = xoshiro_output(g);
    let g2 = xoshiro_advance(g);
    let en = spec_local_field(l, rows, cols, i, j);
    let idx = spec_flat_index(i, j, cols);
    if draw < table[4 + en] {
        (l.update(idx, (-l[idx]) as i8), g2)
    } else {
        (l, g2)
    }
}

/// The rest of one sweep's row `i`, from column `j` to the last column.
pub open spec fn spec_row_from(
    l: Seq<i8>,
    g: RngState,
    table: Seq<u64>,
    rows: int,
    cols: int,
    i: int,
    j: int,
) -> (Seq<i8>, RngState)
    decreases cols - j,
{
    if j < 0 || j >= cols {
        (l, g)
    } else {
        let (l2, g2) = spec_cell_step(l, g, table, rows, cols, i, j);
        spec_row_from(l2, g2, table, rows, cols, i, j + 1)
    }
}

/// The rest of one sweep, from row `i` to the last row.
pub open spec fn spec_rows_from(
    l: Seq<i8>,
    g: RngState,
    table: Seq<u64>,
    rows: int,
    cols: int,
    i: int,
) -> (Seq<i8>, RngState)
    decreases rows - i,
{
    if i < 0 || i >= rows {
        (l, g)
    } else {
        let (l2, g2) = spec_row_from(l, g, table, rows, cols, i, 0);
        spec_rows_from(l2, g2, table, rows, cols, i + 1)
    }
}

/// One full sweep: every cell exactly once, row-major.
pub open spec fn spec_sweep(
    l: Seq<i8>,
    g: RngState,
    table: Seq<u64>,
    rows: int,
    cols: int,
) -> (Seq<i8>, RngState) {
    spec_rows_from(l, g, table, rows, cols, 0)
}

/// `n` full sweeps in order.
pub open spec fn spec_run(
    l: Seq<i8>,
    g: RngState,
    table: Seq<u64>,
    rows: int,
    cols: int,
    n: nat,
) -> (Seq<i8>, RngState)
    decreases n,
{
    if n == 0 {
        (l, g)
    } else {
        let (l2, g2) = spec_sweep(l, g, table, rows, cols);
        spec_run(l2, g2, table, rows, cols, (n - 1) as nat)
    }
}

/// Drives the simulation: owns the spin lattice and the random source, and
/// advances them sweep by sweep against a fixed acceptance table.
pub struct LatticeSimulator {
    pub lattice: Lattice,
    pub rng: Xoshiro256Plus,
}

impl LatticeSimulator {
    /// The simulator invariant: its lattice is well formed.
    pub open spec fn wf(&self) -> bool {
        self.lattice.wf()
    }

    /// Builds the simulator around an injected random source: a hot initial
    /// lattice (every cell an independent fair coin) when `order` is true, a
    /// cold one (every cell up) otherwise.
    pub fn new(rows: usize, cols: usize, order: bool, rng: Xoshiro256Plus) -> (r: Self)
        requires
            rows >= 1,
            cols >= 1,
            rows * cols <= usize::MAX,
        ensures
            r.wf(),
            r.lattice.rows == rows,
            r.lattice.cols == cols,
            order ==> (r.lattice@, r.rng@) == spec_hot_spins(rng@, (rows * cols) as nat),
            !order ==> r.rng@ == rng@ && (forall|k: int|
                0 <= k < r.lattice@.len() ==> r.lattice@[k] == 1i8),
    {
        let mut rng = rng;
        let lattice = if order {
            Lattice::new_hot(rows, cols, &mut rng)
        } else {
            Lattice::new_cold(rows, cols)
        };
        LatticeSimulator { lattice, rng }
    }

    /// One Metropolis update of cell `(i, j)`: computes the local field from
    /// the four periodic neighbors, draws once, and flips the cell iff the
    /// draw is strictly below the looked-up threshold.
    pub fn step_cell(&mut self, table: &ProbabilityTable, i: usize, j: usize)
        requires
            old(self).wf(),
            table.wf(),
            i < old(self).lattice.rows,
            j < old(self).lattice.cols,
        ensures
            final(self).wf(),
            final(self).lattice.rows == old(self).lattice.rows,
            final(self).lattice.cols == old(self).lattice.cols,
            (final(self).lattice@, final(self).rng@) == spec_cell_step(
                old(self).lattice@,
                old(self).rng@,
                table@,
                old(self).lattice.rows as int,
                old(self).lattice.cols as int,
                i as int,
                j as int,
            ),
    {
        let rows = self.lattice.rows;
        let cols = self.lattice.cols;

        let inorth = crate::lattice::north_of(i, rows);
        let isouth = crate::lattice::south_of(i, rows);
        let jeast = crate::lattice::east_of(j, cols);
        let jwest = crate::lattice::west_of(j, cols);

        let site = self.lattice.get(i, j);
        let nn = self.lattice.get(inorth, j);
        let ss = self.lattice.get(isouth, j);
        let ee = self.lattice.get(i, jeast);
        let ww = self.lattice.get(i, jwest);

        let sum = nn + ss + ee + ww;
        proof {
            assert(-4 <= (J as int) * (site as int) * (sum as int) <= 4) by (nonlinear_arith)
                requires is_spin(site), -4 <= sum <= 4;
        }
        let en = J * site * sum;
        let k = (4 + en) as usize;

        let draw = self.rng.next_u64();
        let p = table.probability_for(k);
        if draw < p {
            let idx = self.lattice.index(i, j);
            self.lattice.spins[idx] = -site;
        }
    }

    /// One full sweep: every cell updated exactly once, row 0 left to right,
    /// then row 1, and so on.
    pub fn sweep(&mut self, table: &ProbabilityTable)
        requires
            old(self).wf(),
            table.wf(),
        ensures
            final(self).wf(),
            final(self).lattice.rows == old(self).lattice.rows,
            final(self).lattice.cols == old(self).lattice.cols,
            (final(self).lattice@, final(self).rng@) == spec_sweep(
                old(self).lattice@,
                old(self).rng@,
                table@,
                old(self).lattice.rows as int,
                old(self).lattice.cols as int,
            ),
    {
        let rows = self.lattice.rows;
        let cols = self.lattice.cols;
        let ghost l0 = self.lattice@;
        let ghost g0 = self.rng@;
        let mut i: usize = 0;
        while i < rows
            invariant
                self.wf(),
                table.wf(),
                self.lattice.rows == rows,
                self.lattice.cols == cols,
                i <= rows,
                spec_rows_from(self.lattice@, self.rng@, table@, rows as int, cols as int, i as int)
                    == spec_rows_from(l0, g0, table@, rows as int, cols as int, 0),
            decreases rows - i,
        {
            let ghost li = self.lattice@;
            let ghost gi = self.rng@;
            let mut j: usize = 0;
            while j < cols
                invariant
                    self.wf(),
                    table.wf(),
                    self.lattice.rows == rows,
                    self.lattice.cols == cols,
                    i < rows,
                    j <= cols,
                    spec_row_from(
                        self.lattice@, self.rng@, table@,
                        rows as int, cols as int, i as int, j as int,
                    ) == spec_row_from(li, gi, table@, rows as int, cols as int, i as int, 0),
                decreases cols - j,
            {
                self.step_cell(table, i, j);
                j = j + 1;
            }
            proof {
                assert(spec_rows_from(li, gi, table@, rows as int, cols as int, i as int)
                    == spec_rows_from(
                        self.lattice@, self.rng@, table@, rows as int, cols as int, i + 1,
                    ));
            }
            i = i + 1;
        }
    }

    /// Runs exactly `steps` full sweeps — no convergence check, no early
    /// exit.
    pub fn run(&mut self, table: &ProbabilityTable, steps: usize)
        requires
            old(self).wf(),
            table.wf(),
        ensures
            final(self).wf(),
            final(self).lattice.rows == old(self).lattice.rows,
            final(self).lattice.cols == old(self).lattice.cols,
            (final(self).lattice@, final(self).rng@) == spec_run(
                old(self).lattice@,
                old(self).rng@,
                table@,
                old(self).lattice.rows as int,
                old(self).lattice.cols as int,
                steps as nat,
            ),
    {
        let rows = self.lattice.rows;
        let cols = self.lattice.cols;
        let ghost l0 = self.lattice@;
        let ghost g0 = self.rng@;
        let mut s: usize = 0;
        while s < steps
            invariant
                self.wf(),
                table.wf(),
                self.lattice.rows == rows,
                self.lattice.cols == cols,
                s <= steps,
                spec_run(
                    self.lattice@, self.rng@, table@,
                    rows as int, cols as int, (steps - s) as nat,
                ) == spec_run(l0, g0, table@, rows as int, cols as int, steps as nat),
            decreases steps - s,
        {
            self.sweep(table);
            s = s + 1;
        }
    }
}

/// An all-up lattice is unchanged by one cell step when the acceptance
/// threshold for the maximal local field is zero: the field is `+4` at every
/// cell and no draw lies below a zero threshold.
proof fn lemma_cell_step_frozen(
    l: Seq<i8>,
    g: RngState,
    table: Seq<u64>,
    rows: int,
    cols: int,
    i: int,
    j: int,
)
    requires
        rows >= 1,
        cols >= 1,
        0 <= i < rows,
        0 <= j < cols,
        l.len() == rows * cols,
        forall|k: int| 0 <= k < l.len() ==> l[k] == 1i8,
        table.len() == TABLE_LEN,
        table[8] == 0u64,
    ensures
        spec_cell_step(l, g, table, rows, cols, i, j).0 == l,
{
    vstd::arithmetic::div_mod::lemma_mod_bound(i + 1, rows);
    vstd::arithmetic::div_mod::lemma_mod_bound(i - 1 + rows, rows);
    vstd::arithmetic::div_mod::lemma_mod_bound(j + 1, cols);
    vstd::arithmetic::div_mod::lemma_mod_bound(j - 1 + cols, cols);
    assert forall|a: int, b: int| 0 <= a < rows && 0 <= b < cols
        implies 0 <= #[trigger] spec_flat_index(a, b, cols) < rows * cols by {
        assert(a * cols + b < rows * cols) by (nonlinear_arith)
            requires 0 <= a < rows, 0 <= b < cols;
        assert(a * cols + b >= 0) by (nonlinear_arith)
            requires a >= 0, b >= 0, cols >= 1;
    }
    assert(spec_local_field(l, rows, cols, i, j) == 4);
}

/// An all-up lattice is unchanged by the rest of a row under the same
/// zero-threshold table.
proof fn lemma_row_frozen(
    l: Seq<i8>,
    g: RngState,
    table: Seq<u64>,
    rows: int,
    cols: int,
    i: int,
    j: int,
)
    requires
        rows >= 1,
        cols >= 1,
        0 <= i < rows,
        l.len() == rows * cols,
        forall|k: int| 0 <= k < l.len() ==> l[k] == 1i8,
        table.len() == TABLE_LEN,
        table[8] == 0u64,
    ensures
        spec_row_from(l, g, table, rows, cols, i, j).0 == l,
    decreases cols - j,
{
    if 0 <= j < cols {
        lemma_cell_step_frozen(l, g, table, rows, cols, i, j);
        let (l2, g2) = spec_cell_step(l, g, table, rows, cols, i, j);
        lemma_row_frozen(l2, g2, table, rows, cols, i, j + 1);
    }
}

/// An all-up lattice is unchanged by the remaining rows of a sweep under the
/// same zero-threshold table.
proof fn lemma_rows_frozen(
    l: Seq<i8>,
    g: RngState,
    table: Seq<u64>,
    rows: int,
    cols: int,
    i: int,
)
    requires
        rows >= 1,
        cols >= 1,
        l.len() == rows * cols,
        forall|k: int| 0 <= k < l.len() ==> l[k] == 1i8,
        table.len() == TABLE_LEN,
        table[8] == 0u64,
    ensures
        spec_rows_from(l, g, table, rows, cols, i).0 == l,
    decreases rows - i,
{
    if 0 <= i < rows {
        lemma_row_frozen(l, g, table, rows, cols, i, 0);
        let (l2, g2) = spec_row_from(l, g, table, rows, cols, i, 0);
        lemma_rows_frozen(l2, g2, table, rows, cols, i + 1);
    }
}

/// A cold start at a table whose maximal-field entry is zero is frozen: with
/// every cell up, every local field is at the no-flip extreme, every
/// acceptance test rejects, and any number of sweeps returns the lattice
/// unchanged.
pub proof fn lemma_cold_start_frozen(
    l: Seq<i8>,
    g: RngState,
    table: Seq<u64>,
    rows: int,
    cols: int,
    n: nat,
)
    requires
        rows >= 1,
        cols >= 1,
        l.len() == rows * cols,
        forall|k: int| 0 <= k < l.len() ==> l[k] == 1i8,
        table.len() == TABLE_LEN,
        table[8] == 0u64,
    ensures
        spec_run(l, g, table, rows, cols, n).0 == l,
    decreases n,
{
    if n > 0 {
        lemma_rows_frozen(l, g, table, rows, cols, 0);
        let (l2, g2) = spec_sweep(l, g, table, rows, cols);
        lemma_cold_start_frozen(l2, g2, table, rows, cols, (n - 1) as nat);
    }
}

/// Determinism: two runs with identical initial lattices, random-source
/// states, acceptance tables, sizes, and step counts produce identical final
/// lattices and final source states.
pub proof fn lemma_run_deterministic(
    l1: Seq<i8>,
    g1: RngState,
    l2: Seq<i8>,
    g2: RngState,
    table: Seq<u64>,
    rows: int,
    cols: int,
    n: nat,
)
    requires
        l1 == l2,
        g1 == g2,
    ensures
        spec_run(l1, g1, table, rows, cols, n) == spec_run(l2, g2, table, rows, cols, n),
{
}

} // verus!
