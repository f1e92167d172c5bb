//! The recorder through which a constraint system states its equalities on
//! one window of two adjacent rows.

use crate::field::Field;
use crate::trace::Trace;
use vstd::prelude::*;

verus! {

/// The rows on which an equality is demanded.
#[derive(Clone, Copy, Debug, PartialEq, Eq, Structural)]
pub enum Selector {
    /// Only the first row of the table.
    FirstRow,
    /// Every row except the last.
    Transition,
    /// Only the last row of the table.
    LastRow,
}

/// The claim that two field elements are equal on the rows that `selector`
/// picks.
#[derive(Debug)]
pub struct Assertion<F: Field> {
    pub selector: Selector,
    pub lhs: F,
    pub rhs: F,
}

/// An assertion by the representatives of its two sides.
pub struct AssertionView {
    pub selector: Selector,
    pub lhs: nat,
    pub rhs: nat,
}

impl<F: Field> View for Assertion<F> {
    type V = AssertionView;

    open spec fn view(&self) -> AssertionView {
        AssertionView { selector: self.selector, lhs: self.lhs.value(), rhs: self.rhs.value() }
    }
}

/// A request for a row that the window does not hold.
#[derive(Clone, Copy, Debug, PartialEq, Eq, Structural)]
pub enum BuilderError {
    /// The window holds the rows at offsets 0 and 1 only.
    RowOutOfRange,
}

/// The number of rows in a window: the current row and the one after it.
pub const WINDOW_ROWS: usize = 2;

/// Whether `selector` picks a row that is the first, the last, both or
/// neither.
pub open spec fn selector_active(selector: Selector, first_row: bool, last_row: bool) -> bool {
    match selector {
        Selector::FirstRow => first_row,
        Selector::Transition => !last_row,
        Selector::LastRow => last_row,
    }
}

/// An assertion holds on a row if its selector leaves the row out or its two
/// sides are the same element.
pub open spec fn assertion_holds(a: AssertionView, first_row: bool, last_row: bool) -> bool {
    selector_active(a.selector, first_row, last_row) ==> a.lhs == a.rhs
}

/// Every assertion of `recorded` holds on the row.
pub open spec fn all_hold(recorded: Seq<AssertionView>, first_row: bool, last_row: bool) -> bool {
    forall|k: int| 0 <= k < recorded.len() ==> assertion_holds(#[trigger] recorded[k], first_row, last_row)
}

/// The representatives of a row of elements.
pub open spec fn row_values<F: Field>(row: Seq<F>) -> Seq<nat> {
    Seq::new(row.len(), |c: int| row[c].value())
}

/// A window on two adjacent rows, the row's place in the table, and the
/// assertions recorded so far. It records; it does not judge.
pub struct ConstraintBuilder<F: Field> {
    local: Vec<F>,
    next: Vec<F>,
    first_row: bool,
    last_row: bool,
    assertions: Vec<Assertion<F>>,
}

impl<F: Field> ConstraintBuilder<F> {
    /// The current row, by representatives.
    pub closed spec fn local(self) -> Seq<nat> {
        row_values(self.local@)
    }

    /// The row after the current one, by representatives.
    pub closed spec fn next(self) -> Seq<nat> {
        row_values(self.next@)
    }

    /// Whether the current row is the first of the table.
    pub closed spec fn first_row(self) -> bool {
        self.first_row
    }

    /// Whether the current row is the last of the table.
    pub closed spec fn last_row(self) -> bool {
        self.last_row
    }

    /// The assertions recorded so far, oldest first.
    pub closed spec fn recorded(self) -> Seq<AssertionView> {
        Seq::new(self.assertions@.len(), |k: int| self.assertions@[k]@)
    }

    /// Every recorded assertion holds on the current row.
    pub open spec fn holds(self) -> bool {
        all_hold(self.recorded(), self.first_row(), self.last_row())
    }

    /// A builder on the given window with nothing recorded.
    pub fn new(local: Vec<F>, next: Vec<F>, first_row: bool, last_row: bool) -> (b: Self)
        ensures
            b.local() == row_values(local@),
            b.next() == row_values(next@),
            b.first_row() == first_row,
            b.last_row() == last_row,
            b.recorded() == Seq::<AssertionView>::empty(),
    {
        let b = ConstraintBuilder { local, next, first_row, last_row, assertions: Vec::new() };
        assert(b.recorded() =~= Seq::<AssertionView>::empty());
        b
    }

    /// A builder on row `r` of `trace` and the row after it, which for the
    /// last row is row 0 again.
    pub fn for_row(trace: &Trace<F>, r: usize) -> (b: Self)
        requires
            r < trace.spec_height(),
        ensures
            b.local() == trace@[r as int],
            b.next() == trace@[(r + 1) % (trace.spec_height() as int)],
            b.first_row() == (r == 0),
            b.last_row() == (r + 1 == trace.spec_height()),
            b.recorded() == Seq::<AssertionView>::empty(),
    {
        let height = trace.height();
        let r_next: usize = if r + 1 == height {
            0
        } else {
            r + 1
        };
        assert(r_next == (r + 1) % (height as int)) by {
            if r + 1 == height {
                assert((r + 1) % (height as int) == 0) by (nonlinear_arith)
                    requires
                        r + 1 == height,
                        height > 0,
                ;
            } else {
                vstd::arithmetic::div_mod::lemma_small_mod((r + 1) as nat, height as nat);
            }
        }
        let local = trace.row(r);
        let next = trace.row(r_next);
        let b = Self::new(local, next, r == 0, r + 1 == height);
        assert(b.local() =~= trace@[r as int]);
        assert(b.next() =~= trace@[r_next as int]);
        b
    }

    /// The row at `offset` from the current one: the current row at 0, the
    /// next row at 1, and nothing beyond.
    pub fn row(&self, offset: usize) -> (res: Result<&Vec<F>, BuilderError>)
        ensures
            offset >= WINDOW_ROWS ==> res == Err::<&Vec<F>, BuilderError>(BuilderError::RowOutOfRange),
            offset == 0 ==> res.is_ok() && row_values(res.unwrap()@) == self.local(),
            offset == 1 ==> res.is_ok() && row_values(res.unwrap()@) == self.next(),
    {
        if offset == 0 {
            Ok(&self.local)
        } else if offset == 1 {
            Ok(&self.next)
        } else {
            Err(BuilderError::RowOutOfRange)
        }
    }

    /// The cell of the current row in column `c`.
    pub fn local_cell(&self, c: usize) -> (x: F)
        requires
            c < self.local().len(),
        ensures
            x.value() == self.local()[c as int],
    {
        self.local[c]
    }

    /// The cell of the row after the current one in column `c`.
    pub fn next_cell(&self, c: usize) -> (x: F)
        requires
            c < self.next().len(),
        ensures
            x.value() == self.next()[c as int],
    {
        self.next[c]
    }

    /// The first two cells of the current row.
    pub fn local_pair(&self) -> (p: (F, F))
        requires
            self.local().len() >= 2,
        ensures
            p.0.value() == self.local()[0],
            p.1.value() == self.local()[1],
    {
        (self.local[0], self.local[1])
    }

    /// The first two cells of the row after the current one.
    pub fn next_pair(&self) -> (p: (F, F))
        requires
            self.next().len() >= 2,
        ensures
            p.0.value() == self.next()[0],
            p.1.value() == self.next()[1],
    {
        (self.next[0], self.next[1])
    }

    /// Whether the current row is the first of the table.
    pub fn is_first_row(&self) -> (r: bool)
        ensures
            r == self.first_row(),
    {
        self.first_row
    }

    /// Whether the current row is the last of the table.
    pub fn is_last_row(&self) -> (r: bool)
        ensures
            r == self.last_row(),
    {
        self.last_row
    }

    /// Whether the current row has a row after it in the table.
    pub fn is_transition(&self) -> (r: bool)
        ensures
            r == !self.last_row(),
    {
        !self.last_row
    }

    /// Whether `selector` picks the current row.
    pub fn selects(&self, selector: Selector) -> (r: bool)
        ensures
            r == selector_active(selector, self.first_row(), self.last_row()),
    {
        match selector {
            Selector::FirstRow => self.first_row,
            Selector::Transition => !self.last_row,
            Selector::LastRow => self.last_row,
        }
    }

    /// The selector as a field element: one on the rows it picks, zero on
    /// the others.
    pub fn indicator(&self, selector: Selector) -> (x: F)
        ensures
            x.value() == if selector_active(selector, self.first_row(), self.last_row()) {
                1nat
            } else {
                0nat
            },
    {
        if self.selects(selector) {
            F::one()
        } else {
            F::zero()
        }
    }

    /// Records the claim that `lhs` and `rhs` are equal on the rows that
    /// `selector` picks. The window and the earlier records stay as they are.
    pub fn assert_eq(&mut self, selector: Selector, lhs: F, rhs: F)
        ensures
            final(self).recorded() == old(self).recorded().push(
                (AssertionView { selector, lhs: lhs.value(), rhs: rhs.value() }),
            ),
            final(self).local() == old(self).local(),
            final(self).next() == old(self).next(),
            final(self).first_row() == old(self).first_row(),
            final(self).last_row() == old(self).last_row(),
    {
        self.assertions.push(Assertion { selector, lhs, rhs });
        assert(final(self).recorded() =~= old(self).recorded().push(
            (AssertionView { selector, lhs: lhs.value(), rhs: rhs.value() }),
        ));
    }

    /// The assertions recorded so far, oldest first.
    pub fn assertions(&self) -> (v: &Vec<Assertion<F>>)
        ensures
            v@.len() == self.recorded().len(),
            forall|k: int| 0 <= k < v@.len() ==> (#[trigger] v@[k])@ == self.recorded()[k],
    {
        &self.assertions
    }

    /// The index of the first recorded assertion that fails on the current
    /// row, if there is one.
    pub fn first_violation(&self) -> (res: Option<usize>)
        ensures
            res.is_none() <==> self.holds(),
            res matches Some(k) ==> k < self.recorded().len() && !assertion_holds(
                self.recorded()[k as int],
                self.first_row(),
                self.last_row(),
            ) && all_hold(self.recorded().take(k as int), self.first_row(), self.last_row()),
    {
        let mut k: usize = 0;
        while k < self.assertions.len()
            invariant
                k <= self.assertions@.len(),
                all_hold(self.recorded().take(k as int), self.first_row(), self.last_row()),
            decreases self.assertions@.len() - k,
        {
            let a = &self.assertions[k];
            if self.selects(a.selector) && !a.lhs.equals(a.rhs) {
                assert(!assertion_holds(self.recorded()[k as int], self.first_row(), self.last_row()));
                return Some(k);
            }
            assert(assertion_holds(self.recorded()[k as int], self.first_row(), self.last_row()));
            assert(self.recorded().take(k + 1) =~= self.recorded().take(k as int).push(
                self.recorded()[k as int],
            ));
            k = k + 1;
        }
        assert(self.recorded().take(k as int) =~= self.recorded());
        None
    }
}

} // verus!
