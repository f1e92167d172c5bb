//! Constraint systems written down as data: each side of an assertion is an
//! expression over the cells of the window, so that the same list can be
//! evaluated here and handed to a proving backend.

use crate::air::Air;
use crate::air::FibonacciAir;
use crate::builder::AssertionView;
use crate::builder::ConstraintBuilder;
use crate::builder::Selector;
use crate::field::Field;
use vstd::prelude::*;

verus! {

/// An expression over the two rows of a window.
#[derive(Debug)]
pub enum Expr {
    /// The cell of the current row in the given column.
    Local(usize),
    /// The cell of the next row in the given column.
    Next(usize),
    /// The image of an integer in the field.
    Constant(u32),
    /// The sum of two expressions.
    Sum(Box<Expr>, Box<Expr>),
}

/// The claim that two expressions are equal on the rows that `selector`
/// picks.
#[derive(Debug)]
pub struct SymbolicAssertion {
    pub selector: Selector,
    pub lhs: Expr,
    pub rhs: Expr,
}

impl Expr {
    /// Every column that the expression names lies below `width`.
    pub open spec fn fits(self, width: nat) -> bool
        decreases self,
    {
        match self {
            Expr::Local(c) => c < width,
            Expr::Next(c) => c < width,
            Expr::Constant(_) => true,
            Expr::Sum(a, b) => (*a).fits(width) && (*b).fits(width),
        }
    }

    /// The representative of the expression on the window of rows `local`
    /// and `next`, modulo `m`.
    pub open spec fn value(self, m: nat, local: Seq<nat>, next: Seq<nat>) -> nat
        decreases self,
    {
        match self {
            Expr::Local(c) => local[c as int],
            Expr::Next(c) => next[c as int],
            Expr::Constant(k) => (k as nat) % m,
            Expr::Sum(a, b) => ((*a).value(m, local, next) + (*b).value(m, local, next)) % m,
        }
    }

    /// The expression's element on the builder's window.
    pub fn evaluate<F: Field>(&self, builder: &ConstraintBuilder<F>) -> (x: F)
        requires
            self.fits(builder.local().len()),
            self.fits(builder.next().len()),
        ensures
            x.value() == self.value(F::modulus(), builder.local(), builder.next()),
        decreases self,
    {
        match self {
            Expr::Local(c) => builder.local_cell(*c),
            Expr::Next(c) => builder.next_cell(*c),
            Expr::Constant(k) => F::from_u32(*k),
            Expr::Sum(a, b) => {
                let x = a.evaluate(builder);
                let y = b.evaluate(builder);
                x.add(y)
            },
        }
    }
}

impl SymbolicAssertion {
    /// Both sides name columns below `width` only.
    pub open spec fn fits(self, width: nat) -> bool {
        self.lhs.fits(width) && self.rhs.fits(width)
    }

    /// The assertion by the representatives of its sides on a window.
    pub open spec fn valuation(self, m: nat, local: Seq<nat>, next: Seq<nat>) -> AssertionView {
        AssertionView {
            selector: self.selector,
            lhs: self.lhs.value(m, local, next),
            rhs: self.rhs.value(m, local, next),
        }
    }
}

/// The assertions of `list` by their representatives on a window, in order.
pub open spec fn valuations(
    list: Seq<SymbolicAssertion>,
    m: nat,
    local: Seq<nat>,
    next: Seq<nat>,
) -> Seq<AssertionView> {
    Seq::new(list.len(), |k: int| list[k].valuation(m, local, next))
}

/// Records every assertion of `list` for the builder's window, in order,
/// after those that the builder already holds. The window stays as it is.
pub fn record<F: Field>(list: &Vec<SymbolicAssertion>, builder: &mut ConstraintBuilder<F>)
    requires
        forall|k: int|
            0 <= k < list@.len() ==> (#[trigger] list@[k]).fits(old(builder).local().len())
                && list@[k].fits(old(builder).next().len()),
    ensures
        final(builder).recorded() == old(builder).recorded() + valuations(
            list@,
            F::modulus(),
            old(builder).local(),
            old(builder).next(),
        ),
        final(builder).local() == old(builder).local(),
        final(builder).next() == old(builder).next(),
        final(builder).first_row() == old(builder).first_row(),
        final(builder).last_row() == old(builder).last_row(),
{
    let ghost m = F::modulus();
    let ghost local = builder.local();
    let ghost next = builder.next();
    let ghost before = builder.recorded();
    let mut k: usize = 0;
    assert(valuations(list@.take(0), m, local, next) =~= Seq::<AssertionView>::empty());
    assert(before + Seq::<AssertionView>::empty() =~= before);
    while k < list.len()
        invariant
            k <= list@.len(),
            m == F::modulus(),
            builder.local() == local,
            builder.next() == next,
            builder.first_row() == old(builder).first_row(),
            builder.last_row() == old(builder).last_row(),
            forall|j: int|
                0 <= j < list@.len() ==> (#[trigger] list@[j]).fits(local.len()) && list@[j].fits(
                    next.len(),
                ),
            builder.recorded() == before + valuations(list@.take(k as int), m, local, next),
        decreases list@.len() - k,
    {
        let a = &list[k];
        let lhs = a.lhs.evaluate(builder);
        let rhs = a.rhs.evaluate(builder);
        builder.assert_eq(a.selector, lhs, rhs);
        assert(valuations(list@.take(k + 1), m, local, next) =~= valuations(
            list@.take(k as int),
            m,
            local,
            next,
        ).push(list@[k as int].valuation(m, local, next)));
        assert(builder.recorded() =~= before + valuations(list@.take(k + 1), m, local, next));
        k = k + 1;
    }
    assert(list@.take(k as int) =~= list@);
}

impl FibonacciAir {
    /// The system's five assertions as data.
    pub open spec fn spec_symbolic(self) -> Seq<SymbolicAssertion> {
        Seq::<SymbolicAssertion>::empty().push(
            SymbolicAssertion {
                selector: Selector::FirstRow,
                lhs: Expr::Local(0),
                rhs: Expr::Constant(0),
            },
        ).push(
            SymbolicAssertion {
                selector: Selector::FirstRow,
                lhs: Expr::Local(1),
                rhs: Expr::Constant(1),
            },
        ).push(
            SymbolicAssertion {
                selector: Selector::Transition,
                lhs: Expr::Next(0),
                rhs: Expr::Local(1),
            },
        ).push(
            SymbolicAssertion {
                selector: Selector::Transition,
                lhs: Expr::Next(1),
                rhs: Expr::Sum(Box::new(Expr::Local(0)), Box::new(Expr::Local(1))),
            },
        ).push(
            SymbolicAssertion {
                selector: Selector::LastRow,
                lhs: Expr::Local(1),
                rhs: Expr::Constant(self.final_value),
            },
        )
    }

    /// The system's assertions as data, in the order in which `eval`
    /// records them.
    pub fn symbolic_constraints(&self) -> (list: Vec<SymbolicAssertion>)
        ensures
            list@ == self.spec_symbolic(),
    {
        let mut list: Vec<SymbolicAssertion> = Vec::new();
        list.push(
            SymbolicAssertion {
                selector: Selector::FirstRow,
                lhs: Expr::Local(0),
                rhs: Expr::Constant(0),
            },
        );
        list.push(
            SymbolicAssertion {
                selector: Selector::FirstRow,
                lhs: Expr::Local(1),
                rhs: Expr::Constant(1),
            },
        );
        list.push(
            SymbolicAssertion {
                selector: Selector::Transition,
                lhs: Expr::Next(0),
                rhs: Expr::Local(1),
            },
        );
        list.push(
            SymbolicAssertion {
                selector: Selector::Transition,
                lhs: Expr::Next(1),
                rhs: Expr::Sum(Box::new(Expr::Local(0)), Box::new(Expr::Local(1))),
            },
        );
        list.push(
            SymbolicAssertion {
                selector: Selector::LastRow,
                lhs: Expr::Local(1),
                rhs: Expr::Constant(self.final_value),
            },
        );
        assert(list@ =~= self.spec_symbolic());
        list
    }

    /// The assertions written down as data are the assertions that `eval`
    /// records: on every window, over every field, their representatives
    /// are those of `constraints`, and they name the two columns only.
    pub proof fn symbolic_matches_constraints(self, m: nat, local: Seq<nat>, next: Seq<nat>)
        requires
            m >= 2,
        ensures
            valuations(self.spec_symbolic(), m, local, next) == self.constraints(m, local, next),
            forall|k: int|
                0 <= k < self.spec_symbolic().len() ==> (#[trigger] self.spec_symbolic()[k]).fits(
                    2,
                ),
    {
        reveal_with_fuel(Expr::value, 3);
        reveal_with_fuel(Expr::fits, 3);
        let list = self.spec_symbolic();
        assert(list.len() == 5);
        assert(0nat % m == 0 && 1nat % m == 1) by (nonlinear_arith)
            requires
                m >= 2,
        ;
        assert(valuations(list, m, local, next) =~= self.constraints(m, local, next));
    }
}

} // verus!
