//! The simulator end to end: periodic boundaries, determinism under a fixed
//! seed, the frozen cold start, hot-start spin validity, a captured reference
//! trace, and a cell-by-cell comparison against the same dynamics written
//! directly on the reference generator crate.

use ising2d::lattice::{east_of, north_of, south_of, west_of, Lattice};
use ising2d::rng::Xoshiro256Plus;
use ising2d::sim::LatticeSimulator;
use ising2d::table::ProbabilityTable;
use rand::Rng;
use rand_xoshiro::rand_core::SeedableRng;
use rand_xoshiro::Xoshiro256Plus as RefRng;

/// The thresholds `floor(2^64 * exp(-2*beta*en))`, saturated to `u64`, for
/// `en` from -4 to 4.
fn entries_for_beta(beta: f64) -> Vec<u64> {
    let mut entries = Vec::new();
    let mut increment: f64 = -4.0;
    for _ in 0..9 {
        let p = f64::exp(-2.0 * beta * increment);
        entries.push((2f64.powi(64) * p) as u64);
        increment += 1.0;
    }
    entries
}

fn critical_table() -> ProbabilityTable {
    let t = 2.0 / f64::ln(1.0 + 2f64.sqrt());
    ProbabilityTable::new(entries_for_beta(1.0 / t)).unwrap()
}

#[test]
fn periodic_boundaries_wrap_both_ways() {
    for rows in [1usize, 2, 3, 10, 1000] {
        assert_eq!(north_of(rows - 1, rows), 0);
        assert_eq!(south_of(0, rows), rows - 1);
    }
    for cols in [1usize, 2, 5, 17] {
        assert_eq!(east_of(cols - 1, cols), 0);
        assert_eq!(west_of(0, cols), cols - 1);
    }
    assert_eq!(north_of(3, 10), 4);
    assert_eq!(south_of(3, 10), 2);
    assert_eq!(east_of(3, 10), 4);
    assert_eq!(west_of(3, 10), 2);
}

#[test]
fn fixed_seed_runs_are_bit_identical() {
    let table = critical_table();
    let mut first = LatticeSimulator::new(6, 6, true, Xoshiro256Plus::seed_from_u64(123));
    let mut second = LatticeSimulator::new(6, 6, true, Xoshiro256Plus::seed_from_u64(123));
    assert_eq!(first.lattice.spins, second.lattice.spins);
    first.run(&table, 5);
    second.run(&table, 5);
    assert_eq!(first.lattice.spins, second.lattice.spins);
}

#[test]
fn cold_start_at_huge_beta_never_flips() {
    let table = ProbabilityTable::new(entries_for_beta(1e9)).unwrap();
    let mut sim = LatticeSimulator::new(4, 4, false, Xoshiro256Plus::seed_from_u64(2024));
    assert_eq!(sim.lattice.spins, vec![1i8; 16]);
    sim.run(&table, 1);
    assert_eq!(sim.lattice.spins, vec![1i8; 16]);
}

#[test]
fn hot_start_cells_are_spins_forever() {
    let table = critical_table();
    let mut sim = LatticeSimulator::new(2, 2, true, Xoshiro256Plus::seed_from_u64(9));
    assert_eq!(sim.lattice.spins.len(), 4);
    for &s in sim.lattice.spins.iter() {
        assert!(s == 1 || s == -1);
    }
    for _ in 0..25 {
        sim.sweep(&table);
        for &s in sim.lattice.spins.iter() {
            assert!(s == 1 || s == -1);
        }
    }
}

#[test]
fn cold_start_cells_are_all_up() {
    let lattice = Lattice::new_cold(3, 5);
    assert_eq!(lattice.rows, 3);
    assert_eq!(lattice.cols, 5);
    assert_eq!(lattice.spins, vec![1i8; 15]);
}

#[test]
fn seeded_trace_matches_captured_reference() {
    let init: [i8; 100] = [
        -1, 1, -1, -1, -1, 1, 1, 1, -1, -1, -1, 1, 1, 1, 1, -1, -1, -1, 1, 1, 1, 1, -1, -1, 1, 1,
        1, -1, -1, -1, 1, -1, -1, 1, 1, 1, 1, -1, -1, 1, 1, 1, -1, -1, -1, -1, 1, -1, 1, -1, 1,
        -1, 1, -1, -1, -1, 1, 1, -1, 1, -1, -1, -1, 1, -1, 1, 1, -1, 1, -1, 1, 1, 1, 1, 1, -1, -1,
        1, -1, -1, 1, -1, -1, -1, -1, 1, 1, 1, 1, 1, 1, 1, -1, 1, 1, 1, -1, -1, 1, 1,
    ];
    let fin: [i8; 100] = [
        1, -1, -1, 1, 1, -1, -1, -1, 1, 1, 1, 1, -1, -1, -1, 1, 1, 1, 1, -1, 1, -1, -1, 1, -1, -1,
        -1, -1, -1, 1, 1, 1, 1, 1, -1, -1, -1, -1, 1, 1, 1, -1, 1, 1, -1, -1, -1, 1, -1, 1, -1,
        -1, -1, 1, -1, 1, -1, -1, 1, -1, -1, -1, 1, 1, 1, 1, -1, 1, -1, -1, -1, -1, -1, -1, -1, 1,
        1, 1, 1, 1, -1, -1, -1, -1, 1, 1, 1, 1, 1, 1, -1, -1, -1, -1, 1, -1, -1, 1, 1, 1,
    ];
    let table = critical_table();
    let mut sim = LatticeSimulator::new(10, 10, true, Xoshiro256Plus::seed_from_u64(7));
    assert_eq!(sim.lattice.spins.as_slice(), init.as_slice());
    sim.run(&table, 1);
    assert_eq!(sim.lattice.spins.as_slice(), fin.as_slice());
}

#[test]
fn run_matches_dynamics_written_on_reference_crate() {
    let rows: usize = 8;
    let cols: usize = 8;
    let steps = 3;
    let t = 2.0 / f64::ln(1.0 + 2f64.sqrt());
    let entries = entries_for_beta(1.0 / t);

    let table = ProbabilityTable::new(entries.clone()).unwrap();
    let mut sim = LatticeSimulator::new(rows, cols, true, Xoshiro256Plus::seed_from_u64(99));
    sim.run(&table, steps);

    let mut rng = RefRng::seed_from_u64(99);
    let mut arr = vec![0i8; rows * cols];
    for site in arr.iter_mut() {
        *site = if rng.gen_bool(0.5) { 1i8 } else { -1i8 };
    }
    for _ in 0..steps {
        for i in 0..rows {
            for j in 0..cols {
                let nn = arr[((i + 1) % rows) * cols + j];
                let ss = arr[((i + rows - 1) % rows) * cols + j];
                let ee = arr[i * cols + (j + 1) % cols];
                let ww = arr[i * cols + (j + cols - 1) % cols];
                let site = arr[i * cols + j];
                let en = site * (nn + ss + ww + ee);
                let draw = rng.gen::<u64>();
                let k = (4 + en) as usize;
                if draw < entries[k] {
                    arr[i * cols + j] = -site;
                }
            }
        }
    }
    assert_eq!(sim.lattice.spins, arr);
}
