//! What holds between the generator and the constraint system.

use crate::air::FibonacciAir;
use crate::field::Field;
use crate::generate::fib_pair;
use crate::generate::fib_row;
use crate::generate::fib_rows;
use crate::generate::is_fibonacci_trace;
use crate::trace::Trace;
use vstd::prelude::*;

verus! {

/// Every row of `rows` has two cells.
pub open spec fn two_columns(rows: Seq<Seq<nat>>) -> bool {
    forall|r: int| 0 <= r < rows.len() ==> (#[trigger] rows[r]).len() == 2
}

/// Generation is deterministic: two tables generated for the same number of
/// steps over the same field agree in every cell, as representatives and as
/// field elements.
pub proof fn generation_is_deterministic<F: Field>(a: Trace<F>, b: Trace<F>, n: nat)
    requires
        is_fibonacci_trace(a, n),
        is_fibonacci_trace(b, n),
    ensures
        a@ == b@,
        a.spec_width() == b.spec_width(),
        a.cells() == b.cells(),
{
    assert forall|j: int| 0 <= j < 2 * n implies a.cells()[j] == b.cells()[j] by {
        let r = j / 2;
        let c = j % 2;
        assert(a@[r][c] == a.at(r, c));
        assert(b@[r][c] == b.at(r, c));
        assert(r * 2 + c == j);
        a.cells()[j].value_is_injective(b.cells()[j]);
    }
    assert(a.cells() =~= b.cells());
}

/// The first row of a generated table holds the constants that the
/// constraint system demands of a first row: 0 and 1.
pub proof fn generated_first_row(m: nat, n: nat)
    requires
        n >= 1,
    ensures
        fib_rows(m, n)[0].len() == 2,
        fib_rows(m, n)[0][0] == 0,
        fib_rows(m, n)[0][1] == 1,
{
    assert(fib_rows(m, n)[0] == fib_row(m, 0));
}

/// Each row of a generated table follows from the row before it by the
/// transition that the constraint system demands: the first cell is the
/// earlier second cell, the second is the sum of the earlier two.
pub proof fn generated_transitions(m: nat, n: nat, i: int)
    requires
        0 <= i,
        i + 1 < n,
    ensures
        fib_rows(m, n)[i + 1][0] == fib_rows(m, n)[i][1],
        fib_rows(m, n)[i + 1][1] == (fib_rows(m, n)[i][0] + fib_rows(m, n)[i][1]) % m,
{
    assert(fib_rows(m, n)[i] == fib_row(m, i as nat));
    assert(fib_rows(m, n)[i + 1] == fib_row(m, (i + 1) as nat));
}

/// A generated table meets the whole constraint system exactly if the
/// expected final value, taken into the field, is the second cell that the
/// recurrence reaches in its last row. A table without rows meets it in any
/// case.
pub proof fn generated_trace_satisfies(air: FibonacciAir, m: nat, n: nat)
    requires
        m > 0,
    ensures
        air.satisfied_by(m, fib_rows(m, n)) <==> (n == 0 || fib_pair(m, (n - 1) as nat).1 == (
        air.final_value as nat) % m),
{
    let rows = fib_rows(m, n);
    if n > 0 {
        assert(rows[n - 1] == fib_row(m, (n - 1) as nat));
        if fib_pair(m, (n - 1) as nat).1 == (air.final_value as nat) % m {
            assert forall|r: int| 0 <= r < rows.len() implies #[trigger] air.row_ok(m, rows, r) by {
                if r == 0 {
                    generated_first_row(m, n);
                }
                if r + 1 < n {
                    generated_transitions(m, n, r);
                }
            }
        }
        if air.satisfied_by(m, rows) {
            assert(air.row_ok(m, rows, n - 1));
        }
    }
}

/// The last row of a generated table ends in the expected final value, taken
/// into the field, whenever that value is the one the recurrence reaches.
pub proof fn generated_last_row(air: FibonacciAir, m: nat, n: nat)
    requires
        m > 0,
        n >= 1,
        fib_pair(m, (n - 1) as nat).1 == (air.final_value as nat) % m,
    ensures
        fib_rows(m, n)[n - 1][1] == (air.final_value as nat) % m,
        air.satisfied_by(m, fib_rows(m, n)),
{
    assert(fib_rows(m, n)[n - 1] == fib_row(m, (n - 1) as nat));
    generated_trace_satisfies(air, m, n);
}

/// In a table of two columns that meets the constraint system, row `r` is
/// the row that the recurrence reaches after `r` steps.
pub proof fn satisfying_row_is_generated(air: FibonacciAir, m: nat, rows: Seq<Seq<nat>>, r: int)
    requires
        m > 0,
        two_columns(rows),
        air.satisfied_by(m, rows),
        0 <= r < rows.len(),
    ensures
        rows[r] == fib_row(m, r as nat),
    decreases r,
{
    if r == 0 {
        assert(air.row_ok(m, rows, 0));
    } else {
        satisfying_row_is_generated(air, m, rows, r - 1);
        assert(air.row_ok(m, rows, r - 1));
    }
    assert(rows[r] =~= fib_row(m, r as nat));
}

/// The constraint system admits one table of each height: a table of two
/// columns that meets it is the generated one.
pub proof fn satisfying_trace_is_generated(air: FibonacciAir, m: nat, rows: Seq<Seq<nat>>)
    requires
        m > 0,
        two_columns(rows),
        air.satisfied_by(m, rows),
    ensures
        rows == fib_rows(m, rows.len()),
{
    assert forall|r: int| 0 <= r < rows.len() implies rows[r] == fib_rows(m, rows.len())[r] by {
        satisfying_row_is_generated(air, m, rows, r);
    }
    assert(rows =~= fib_rows(m, rows.len()));
}

/// A change to one cell of a table that meets the constraint system is
/// always detected: the changed table does not meet it.
pub proof fn single_mutation_is_detected(
    air: FibonacciAir,
    m: nat,
    rows: Seq<Seq<nat>>,
    r: int,
    c: int,
    v: nat,
)
    requires
        m > 0,
        two_columns(rows),
        air.satisfied_by(m, rows),
        0 <= r < rows.len(),
        0 <= c < 2,
        v != rows[r][c],
    ensures
        !air.satisfied_by(m, rows.update(r, rows[r].update(c, v))),
{
    let mutated = rows.update(r, rows[r].update(c, v));
    if air.satisfied_by(m, mutated) {
        assert(two_columns(mutated));
        satisfying_trace_is_generated(air, m, rows);
        satisfying_trace_is_generated(air, m, mutated);
        assert(mutated[r][c] == v);
    }
}

} // verus!
