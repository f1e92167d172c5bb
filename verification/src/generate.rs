//! The trace of the recurrence `a, b -> b, a + b` started at `0, 1`.

use crate::field::Field;
use crate::trace::Trace;
use vstd::prelude::*;

verus! {

/// The pair that the recurrence holds after `i` steps, modulo `m`: it starts
/// at `(0, 1)`, and each step sends `(a, b)` to `(b, a + b)`.
pub open spec fn fib_pair(m: nat, i: nat) -> (nat, nat)
    decreases i,
{
    if i == 0 {
        (0, 1)
    } else {
        let p = fib_pair(m, (i - 1) as nat);
        (p.1, (p.0 + p.1) % m)
    }
}

/// Row `i` of the recurrence's table: the pair after `i` steps.
pub open spec fn fib_row(m: nat, i: nat) -> Seq<nat> {
    seq![fib_pair(m, i).0, fib_pair(m, i).1]
}

/// The first `n` rows of the recurrence's table.
pub open spec fn fib_rows(m: nat, n: nat) -> Seq<Seq<nat>> {
    Seq::new(n, |i: int| fib_row(m, i as nat))
}

/// The cell at offset `j` of the recurrence's table, laid out row by row.
pub open spec fn fib_cell(m: nat, j: nat) -> nat {
    if j % 2 == 0 {
        fib_pair(m, j / 2).0
    } else {
        fib_pair(m, j / 2).1
    }
}

/// `trace` is the table of the recurrence over `F` with `n` rows of two
/// columns.
pub open spec fn is_fibonacci_trace<F: Field>(trace: Trace<F>, n: nat) -> bool {
    &&& trace.spec_width() == 2
    &&& trace.spec_height() == n
    &&& trace.cells().len() == 2 * n
    &&& trace@ == fib_rows(F::modulus(), n)
}

/// Why no table is generated.
#[derive(Clone, Copy, Debug, PartialEq, Eq, Structural)]
pub enum GenerateError {
    /// A run of no steps has no first row and no last row, so no table of
    /// it can meet the constraint system.
    ZeroSteps,
}

/// Builds the table of the recurrence with one row per step: `num_steps`
/// rows of two columns, all arithmetic done in the field `F`. A run of no
/// steps is refused.
pub fn generate_fibonacci_trace<F: Field>(num_steps: usize) -> (res: Result<
    Trace<F>,
    GenerateError,
>)
    requires
        num_steps * 2 <= usize::MAX,
    ensures
        num_steps == 0 ==> res matches Err(GenerateError::ZeroSteps),
        num_steps > 0 ==> res.is_ok() && is_fibonacci_trace(res.unwrap(), num_steps as nat),
{
    if num_steps == 0 {
        return Err(GenerateError::ZeroSteps);
    }
    let ghost m = F::modulus();
    let mut values: Vec<F> = Vec::with_capacity(num_steps * 2);
    let mut a = F::zero();
    let mut b = F::one();
    let mut i: usize = 0;
    while i < num_steps
        invariant
            i <= num_steps,
            num_steps * 2 <= usize::MAX,
            m == F::modulus(),
            values@.len() == 2 * i,
            a.value() == fib_pair(m, i as nat).0,
            b.value() == fib_pair(m, i as nat).1,
            forall|j: int| 0 <= j < 2 * i ==> (#[trigger] values@[j]).value() == fib_cell(m, j as nat),
        decreases num_steps - i,
    {
        values.push(a);
        values.push(b);
        let c = a.add(b);
        a = b;
        b = c;
        i = i + 1;
    }
    let trace = Trace::new(values, 2);
    proof {
        assert forall|r: int| 0 <= r < num_steps implies #[trigger] trace@[r] =~= fib_row(
            m,
            r as nat,
        ) by {
            assert(trace.at(r, 0) == fib_cell(m, (2 * r) as nat));
            assert(trace.at(r, 1) == fib_cell(m, (2 * r + 1) as nat));
        }
        assert(trace@ =~= fib_rows(m, num_steps as nat));
    }
    Ok(trace)
}

} // verus!
