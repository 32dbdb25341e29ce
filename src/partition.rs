//! Division of the pixel rows into contiguous work units, one per worker.
//!
//! Each of `workers` units gets `row_count / workers` rows; the last one also
//! takes the remainder. The units tile `[0, row_count)` without gap or overlap.

use vstd::prelude::*;
use vstd::arithmetic::mul::{lemma_mul_inequality, lemma_mul_is_distributive_add};
use vstd::arithmetic::div_mod::{lemma_fundamental_div_mod, lemma_mod_bound, lemma_div_pos_is_pos};

verus! {

/// The half-open range of rows `[start, end)`.
#[derive(Clone, Copy, Debug, PartialEq, Eq, Structural)]
pub struct RowRange {
    pub start: usize,
    pub end: usize,
}

/// Rows per unit before the remainder: `row_count / workers`.
pub open spec fn base_rows(row_count: nat, workers: nat) -> nat {
    row_count / workers
}

/// First row of unit `i`.
pub open spec fn unit_start(row_count: nat, workers: nat, i: nat) -> nat {
    i * base_rows(row_count, workers)
}

/// One past the last row of unit `i`; the last unit ends at `row_count`.
pub open spec fn unit_end(row_count: nat, workers: nat, i: nat) -> nat {
    if i + 1 == workers {
        row_count
    } else {
        (i + 1) * base_rows(row_count, workers)
    }
}

/// Row `row` lies in unit `i`.
pub open spec fn in_unit(row_count: nat, workers: nat, i: nat, row: nat) -> bool {
    unit_start(row_count, workers, i) <= row < unit_end(row_count, workers, i)
}

/// The unit that holds row `row`.
pub open spec fn owner_unit(row_count: nat, workers: nat, row: nat) -> nat {
    let b = base_rows(row_count, workers);
    if b == 0 || row / b >= workers - 1 {
        (workers - 1) as nat
    } else {
        row / b
    }
}

/// Unit `i` lies within `[0, row_count)` and ends where unit `i + 1` starts.
pub proof fn lemma_unit_bounds(row_count: nat, workers: nat, i: nat)
    requires
        0 < workers,
        i < workers,
    ensures
        unit_start(row_count, workers, i) <= unit_end(row_count, workers, i) <= row_count,
        i + 1 < workers ==> unit_end(row_count, workers, i) == unit_start(row_count, workers, i + 1),
{
    let b = base_rows(row_count, workers);
    lemma_fundamental_div_mod(row_count as int, workers as int);
    lemma_mod_bound(row_count as int, workers as int);
    lemma_div_pos_is_pos(row_count as int, workers as int);
    lemma_mul_inequality(i as int, (workers - 1) as int, b as int);
    lemma_mul_inequality((i + 1) as int, workers as int, b as int);
    lemma_mul_inequality(i as int, (i + 1) as int, b as int);
    assert(workers * b == b * workers) by (nonlinear_arith);
    assert(workers * (row_count / workers) == workers * b);
}

/// Splits `[0, row_count)` into `workers` contiguous units; the last unit
/// carries the remainder of the division.
pub fn partition_rows(row_count: usize, workers: usize) -> (r: Vec<RowRange>)
    requires
        workers > 0,
    ensures
        r.len() == workers,
        forall|i: int|
            0 <= i < workers ==> {
                &&& #[trigger] r[i].start == unit_start(row_count as nat, workers as nat, i as nat)
                &&& r[i].end == unit_end(row_count as nat, workers as nat, i as nat)
            },
{
    let base: usize = row_count / workers;
    let mut units: Vec<RowRange> = Vec::with_capacity(workers);
    let mut i: usize = 0;
    while i < workers
        invariant
            0 < workers,
            i <= workers,
            base == base_rows(row_count as nat, workers as nat),
            units.len() == i,
            forall|k: int|
                0 <= k < i ==> {
                    &&& #[trigger] units[k].start == unit_start(row_count as nat, workers as nat, k as nat)
                    &&& units[k].end == unit_end(row_count as nat, workers as nat, k as nat)
                },
        decreases workers - i,
    {
        proof {
            lemma_unit_bounds(row_count as nat, workers as nat, i as nat);
            lemma_mul_is_distributive_add(i as int, 1, base as int);
            assert((i + 1) * base == i * base + base) by (nonlinear_arith);
        }
        let start: usize = i * base;
        let end: usize = if i + 1 == workers { row_count } else { start + base };
        units.push(RowRange { start, end });
        i += 1;
    }
    units
}

/// The units of `partition_rows` tile the rows exactly: they are contiguous
/// and in order, the first starts at row 0 and the last ends at `row_count`,
/// every unit but the last holds `row_count / workers` rows and the last also
/// the remainder, and every row lies in exactly one unit.
pub proof fn lemma_partition_tiles(row_count: nat, workers: nat)
    requires
        workers > 0,
    ensures
        unit_start(row_count, workers, 0) == 0,
        unit_end(row_count, workers, (workers - 1) as nat) == row_count,
        forall|i: nat|
            i + 1 < workers ==> #[trigger] unit_end(row_count, workers, i) == unit_start(
                row_count,
                workers,
                i + 1,
            ),
        forall|i: nat|
            i + 1 < workers ==> #[trigger] unit_end(row_count, workers, i) - unit_start(
                row_count,
                workers,
                i,
            ) == row_count / workers,
        unit_end(row_count, workers, (workers - 1) as nat) - unit_start(
            row_count,
            workers,
            (workers - 1) as nat,
        ) == row_count / workers + row_count % workers,
        forall|row: nat|
            row < row_count ==> owner_unit(row_count, workers, row) < workers && in_unit(
                row_count,
                workers,
                #[trigger] owner_unit(row_count, workers, row),
                row,
            ),
        forall|i: nat, j: nat, row: nat|
            i < workers && j < workers && #[trigger] in_unit(row_count, workers, i, row)
                && #[trigger] in_unit(row_count, workers, j, row) ==> i == j,
{
    let b = base_rows(row_count, workers);
    assert(unit_start(row_count, workers, 0) == 0);
    assert forall|i: nat| i + 1 < workers implies #[trigger] unit_end(row_count, workers, i)
        == unit_start(row_count, workers, i + 1) by {
        lemma_unit_bounds(row_count, workers, i);
    }
    assert forall|i: nat| i + 1 < workers implies #[trigger] unit_end(row_count, workers, i)
        - unit_start(row_count, workers, i) == row_count / workers by {
        assert((i + 1) * b == i * b + b) by (nonlinear_arith);
    }
    lemma_fundamental_div_mod(row_count as int, workers as int);
    assert(((workers - 1) as nat) * b + b == workers * b) by (nonlinear_arith)
        requires
            workers >= 1,
    ;
    assert(workers * b == b * workers) by (nonlinear_arith);
    assert forall|row: nat| row < row_count implies owner_unit(row_count, workers, row) < workers
        && in_unit(row_count, workers, #[trigger] owner_unit(row_count, workers, row), row) by {
        let last = (workers - 1) as nat;
        lemma_unit_bounds(row_count, workers, last);
        if b == 0 {
            assert(unit_start(row_count, workers, last) == 0) by (nonlinear_arith)
                requires b == 0, unit_start(row_count, workers, last) == last * b;
            assert(in_unit(row_count, workers, last, row));
        } else {
            let q = row / b;
            lemma_fundamental_div_mod(row as int, b as int);
            lemma_mod_bound(row as int, b as int);
            lemma_div_pos_is_pos(row as int, b as int);
            if q < last {
                assert(q * b == b * q) by (nonlinear_arith);
                assert((q + 1) * b == q * b + b) by (nonlinear_arith);
                assert(in_unit(row_count, workers, q as nat, row));
            } else {
                lemma_mul_inequality(last as int, q as int, b as int);
                assert(q * b == b * q) by (nonlinear_arith);
                assert(in_unit(row_count, workers, last, row));
            }
        }
    }
    assert forall|i: nat, j: nat, row: nat|
        i < workers && j < workers && #[trigger] in_unit(row_count, workers, i, row)
            && #[trigger] in_unit(row_count, workers, j, row) implies i == j by {
        if i < j {
            lemma_unit_bounds(row_count, workers, i);
            lemma_unit_bounds(row_count, workers, j);
            lemma_mul_inequality((i + 1) as int, j as int, b as int);
        } else if j < i {
            lemma_unit_bounds(row_count, workers, i);
            lemma_unit_bounds(row_count, workers, j);
            lemma_mul_inequality((j + 1) as int, i as int, b as int);
        }
    }
}

/// Relies on num_cpus::get: the number of logical CPUs available to this
/// process, documented to be at least 1.
#[verifier::external_body]
fn available_cpus() -> (r: usize)
    ensures
        r >= 1,
{
    num_cpus::get()
}

/// Workers per logical CPU.
pub const WORKERS_PER_CPU: usize = 4;

/// The worker budget for `cpus` logical CPUs: four per CPU, at least one,
/// saturating at `usize::MAX`.
pub open spec fn budget_for(cpus: nat) -> nat {
    if cpus == 0 {
        1
    } else if WORKERS_PER_CPU * cpus > usize::MAX {
        usize::MAX as nat
    } else {
        (WORKERS_PER_CPU * cpus) as nat
    }
}

/// Number of workers for a machine with `cpus` logical CPUs.
pub fn worker_budget(cpus: usize) -> (r: usize)
    ensures
        r == budget_for(cpus as nat),
        r >= 1,
{
    if cpus == 0 {
        1
    } else if cpus > usize::MAX / WORKERS_PER_CPU {
        usize::MAX
    } else {
        cpus * WORKERS_PER_CPU
    }
}

/// Number of workers for this machine: `worker_budget` of its CPU count.
pub fn default_worker_budget() -> (r: usize)
    ensures
        exists|cpus: nat| cpus >= 1 && r == budget_for(cpus),
        r >= WORKERS_PER_CPU,
{
    let cpus = available_cpus();
    worker_budget(cpus)
}

} // verus!
