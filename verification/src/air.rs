//! The constraint system of the recurrence: what a table must meet to be a
//! valid run of it.

use crate::builder::all_hold;
use crate::builder::AssertionView;
use crate::builder::ConstraintBuilder;
use crate::builder::Selector;
use crate::field::Field;
use crate::trace::Trace;
use vstd::prelude::*;

verus! {

/// A constraint system: a declared width, and the assertions that it makes
/// on every window of two adjacent rows of a table of that width.
pub trait Air {
    /// The number of columns that the system declares.
    spec fn spec_width(&self) -> nat;

    /// The assertions on a window of rows `local` and `next`, modulo `m`,
    /// in the order in which they are recorded.
    spec fn constraints(&self, m: nat, local: Seq<nat>, next: Seq<nat>) -> Seq<AssertionView>;

    /// The number of columns in a row of the table.
    fn width(&self) -> (w: usize)
        ensures
            w == self.spec_width(),
    ;

    /// Records the system's assertions for the builder's window, after those
    /// that the builder already holds. The window stays as it is.
    fn eval<F: Field>(&self, builder: &mut ConstraintBuilder<F>)
        requires
            old(builder).local().len() == self.spec_width(),
            old(builder).next().len() == self.spec_width(),
        ensures
            final(builder).recorded() == old(builder).recorded() + self.constraints(
                F::modulus(),
                old(builder).local(),
                old(builder).next(),
            ),
            final(builder).local() == old(builder).local(),
            final(builder).next() == old(builder).next(),
            final(builder).first_row() == old(builder).first_row(),
            final(builder).last_row() == old(builder).last_row(),
    ;
}

/// The assertions of `air` hold on the window at row `r` of `rows`, whose
/// next row is the one after `r`, or row 0 where `r` is the last.
pub open spec fn window_holds<A: Air>(air: A, m: nat, rows: Seq<Seq<nat>>, r: int) -> bool {
    all_hold(
        air.constraints(m, rows[r], rows[(r + 1) % (rows.len() as int)]),
        r == 0,
        r + 1 == rows.len(),
    )
}

/// The assertions of `air` hold on every window of `rows`.
pub open spec fn all_windows_hold<A: Air>(air: A, m: nat, rows: Seq<Seq<nat>>) -> bool {
    forall|r: int| 0 <= r < rows.len() ==> #[trigger] window_holds(air, m, rows, r)
}

/// Checks `trace` against `air`, window by window from the first row on.
/// A table of another width than the declared one is refused before any
/// row is read, and so is a table without rows; otherwise the first row
/// whose window breaks an assertion is reported.
pub fn check_constraints<A: Air, F: Field>(air: &A, trace: &Trace<F>) -> (res: Result<
    (),
    AirError,
>)
    ensures
        trace.spec_width() != air.spec_width() ==> res == Err::<(), AirError>(
            AirError::WidthMismatch {
                expected: air.spec_width() as usize,
                found: trace.spec_width() as usize,
            },
        ),
        trace.spec_width() == air.spec_width() && trace.spec_height() == 0 ==> res == Err::<
            (),
            AirError,
        >(AirError::EmptyTrace),
        trace.spec_width() == air.spec_width() && trace.spec_height() > 0 ==> (res.is_ok()
            <==> all_windows_hold(*air, F::modulus(), trace@)),
        trace.spec_width() == air.spec_width() && trace.spec_height() > 0 ==> (res matches Err(
            e,
        ) ==> e matches AirError::ConstraintViolation {
            row,
        } && row < trace@.len() && !window_holds(*air, F::modulus(), trace@, row as int)
            && forall|k: int| 0 <= k < row ==> #[trigger] window_holds(*air, F::modulus(), trace@, k)),
{
    let width = trace.width();
    let expected = air.width();
    if width != expected {
        return Err(AirError::WidthMismatch { expected, found: width });
    }
    let height = trace.height();
    if height == 0 {
        return Err(AirError::EmptyTrace);
    }
    let mut r: usize = 0;
    while r < height
        invariant
            r <= height,
            height == trace@.len(),
            height == trace.spec_height(),
            trace.spec_width() == air.spec_width(),
            forall|k: int| 0 <= k < r ==> #[trigger] window_holds(*air, F::modulus(), trace@, k),
        decreases height - r,
    {
        let mut builder = ConstraintBuilder::for_row(trace, r);
        air.eval(&mut builder);
        assert(builder.recorded() =~= air.constraints(
            F::modulus(),
            trace@[r as int],
            trace@[(r + 1) % (height as int)],
        ));
        if builder.first_violation().is_some() {
            assert(!window_holds(*air, F::modulus(), trace@, r as int));
            return Err(AirError::ConstraintViolation { row: r });
        }
        assert(window_holds(*air, F::modulus(), trace@, r as int));
        r = r + 1;
    }
    Ok(())
}

/// The number of columns of the recurrence's table.
pub const FIBONACCI_WIDTH: usize = 2;

/// The public parameters of one run of the recurrence: how many steps it
/// takes, and the value expected in the second column of its last row.
#[derive(Clone, Copy, Debug, PartialEq, Eq, Structural)]
pub struct FibonacciAir {
    pub num_steps: usize,
    pub final_value: u32,
}

/// Why a table is not accepted as a run of the recurrence.
#[derive(Clone, Copy, Debug, PartialEq, Eq, Structural)]
pub enum AirError {
    /// The table does not have the width that the constraint system declares.
    WidthMismatch { expected: usize, found: usize },
    /// The table has the declared width and no rows: there is no first row
    /// and no last row for the boundary assertions to speak of.
    EmptyTrace,
    /// An assertion fails on the given row, and on no row before it.
    ConstraintViolation { row: usize },
}

impl Air for FibonacciAir {
    open spec fn spec_width(&self) -> nat {
        FIBONACCI_WIDTH as nat
    }

    /// The assertions on a window of rows `local` and `next`, modulo `m`:
    /// the first row is `(0, 1)`; each step sends `(a, b)` to `(b, a + b)`;
    /// the last row ends in the expected value.
    open spec fn constraints(&self, m: nat, local: Seq<nat>, next: Seq<nat>) -> Seq<AssertionView> {
        Seq::<AssertionView>::empty().push(
            AssertionView { selector: Selector::FirstRow, lhs: local[0], rhs: 0 },
        ).push(AssertionView { selector: Selector::FirstRow, lhs: local[1], rhs: 1 }).push(
            AssertionView { selector: Selector::Transition, lhs: next[0], rhs: local[1] },
        ).push(
            AssertionView {
                selector: Selector::Transition,
                lhs: next[1],
                rhs: (local[0] + local[1]) % m,
            },
        ).push(
            AssertionView {
                selector: Selector::LastRow,
                lhs: local[1],
                rhs: (self.final_value as nat) % m,
            },
        )
    }

    /// The number of columns in a row of the table.
    fn width(&self) -> (w: usize) {
        FIBONACCI_WIDTH
    }

    /// Records the system's assertions for the builder's window, after those
    /// that the builder already holds.
    fn eval<F: Field>(&self, builder: &mut ConstraintBuilder<F>) {
        let (l0, l1) = builder.local_pair();
        let (n0, n1) = builder.next_pair();

        builder.assert_eq(Selector::FirstRow, l0, F::zero());
        builder.assert_eq(Selector::FirstRow, l1, F::one());

        builder.assert_eq(Selector::Transition, n0, l1);
        builder.assert_eq(Selector::Transition, n1, l0.add(l1));

        let final_value = F::from_u32(self.final_value);
        builder.assert_eq(Selector::LastRow, l1, final_value);

        assert(final(builder).recorded() =~= old(builder).recorded() + self.constraints(
            F::modulus(),
            old(builder).local(),
            old(builder).next(),
        ));
    }
}

impl FibonacciAir {
    /// Row `r` of `rows` meets what the system demands of it and of the row
    /// after it.
    pub open spec fn row_ok(self, m: nat, rows: Seq<Seq<nat>>, r: int) -> bool {
        &&& r == 0 ==> rows[0][0] == 0 && rows[0][1] == 1
        &&& r + 1 < rows.len() ==> rows[r + 1][0] == rows[r][1] && rows[r + 1][1] == (rows[r][0]
            + rows[r][1]) % m
        &&& r + 1 == rows.len() ==> rows[r][1] == (self.final_value as nat) % m
    }

    /// Every row of `rows` meets the system.
    pub open spec fn satisfied_by(self, m: nat, rows: Seq<Seq<nat>>) -> bool {
        forall|r: int| 0 <= r < rows.len() ==> #[trigger] self.row_ok(m, rows, r)
    }

    /// The assertions of a window hold on row `r` exactly if the row is in
    /// order.
    pub proof fn constraints_decide_row(self, m: nat, rows: Seq<Seq<nat>>, r: int)
        requires
            m > 0,
            0 <= r < rows.len(),
        ensures
            window_holds(self, m, rows, r) <==> self.row_ok(m, rows, r),
    {
        let h = rows.len() as int;
        let cs = self.constraints(m, rows[r], rows[(r + 1) % h]);
        let first = r == 0;
        let last = r + 1 == h;
        if r + 1 < h {
            vstd::arithmetic::div_mod::lemma_small_mod((r + 1) as nat, h as nat);
        }
        assert(cs.len() == 5);
        assert(cs[0].selector == Selector::FirstRow && cs[1].selector == Selector::FirstRow);
        assert(cs[2].selector == Selector::Transition && cs[3].selector == Selector::Transition);
        assert(cs[4].selector == Selector::LastRow);
        if self.row_ok(m, rows, r) {
            assert forall|k: int| 0 <= k < cs.len() implies crate::builder::assertion_holds(
                #[trigger] cs[k],
                first,
                last,
            ) by {
                assert(k == 0 || k == 1 || k == 2 || k == 3 || k == 4);
            }
        }
        if all_hold(cs, first, last) {
            assert(crate::builder::assertion_holds(cs[0], first, last));
            assert(crate::builder::assertion_holds(cs[1], first, last));
            assert(crate::builder::assertion_holds(cs[2], first, last));
            assert(crate::builder::assertion_holds(cs[3], first, last));
            assert(crate::builder::assertion_holds(cs[4], first, last));
        }
    }

    /// Checks `trace` against the system row by row. A table of another
    /// width than two is refused, and so is a table without rows.
    pub fn check<F: Field>(&self, trace: &Trace<F>) -> (res: Result<(), AirError>)
        ensures
            trace.spec_width() != FIBONACCI_WIDTH ==> res == Err::<(), AirError>(
                AirError::WidthMismatch {
                    expected: FIBONACCI_WIDTH,
                    found: trace.spec_width() as usize,
                },
            ),
            trace.spec_width() == FIBONACCI_WIDTH && trace.spec_height() == 0 ==> res == Err::<
                (),
                AirError,
            >(AirError::EmptyTrace),
            trace.spec_width() == FIBONACCI_WIDTH && trace.spec_height() > 0 ==> (res.is_ok()
                <==> self.satisfied_by(F::modulus(), trace@)),
            trace.spec_width() == FIBONACCI_WIDTH && trace.spec_height() > 0 ==> (res matches Err(
                e,
            ) ==> e matches AirError::ConstraintViolation {
                row,
            } && row < trace@.len() && !self.row_ok(F::modulus(), trace@, row as int) && forall|
                k: int,
            |
                0 <= k < row ==> #[trigger] self.row_ok(F::modulus(), trace@, k)),
    {
        let res = check_constraints(self, trace);
        proof {
            F::modulus_is_proper();
            if trace.spec_width() == FIBONACCI_WIDTH {
                assert forall|r: int|
                    #![trigger window_holds(*self, F::modulus(), trace@, r)]
                    #![trigger self.row_ok(F::modulus(), trace@, r)]
                    0 <= r < trace@.len() implies (window_holds(*self, F::modulus(), trace@, r)
                    <==> self.row_ok(F::modulus(), trace@, r)) by {
                    self.constraints_decide_row(F::modulus(), trace@, r);
                }
            }
        }
        res
    }
}

} // verus!
