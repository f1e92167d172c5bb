//! Handing a table over the Mersenne field to code that works on the
//! `p3-matrix` crate's dense matrices.

use crate::field::Field;
use crate::mersenne31::M31;
use crate::mersenne31::MERSENNE_PRIME;
use crate::trace::Trace;
use p3_field::PrimeCharacteristicRing;
use p3_matrix::dense::DenseMatrix;
use p3_mersenne_31::Mersenne31;
use vstd::prelude::*;

verus! {

/// `p3_mersenne_31::Mersenne31`, an element of the Mersenne field, carried
/// through as an opaque value.
#[verifier::external_type_specification]
#[verifier::external_body]
pub struct ExMersenne31(Mersenne31);

/// `p3_matrix::dense::DenseMatrix`, a row-major matrix on a flat buffer,
/// carried through as an opaque value.
#[verifier::external_type_specification]
#[verifier::external_body]
#[verifier::reject_recursive_types(T)]
#[verifier::reject_recursive_types(V)]
pub struct ExDenseMatrix<T, V>(DenseMatrix<T, V>);

/// The cells of a dense matrix over the Mersenne field in row-major order,
/// each by its canonical representative.
pub uninterp spec fn matrix_cells(m: DenseMatrix<Mersenne31, Vec<Mersenne31>>) -> Seq<nat>;

/// The number of columns of a dense matrix over the Mersenne field.
pub uninterp spec fn matrix_width(m: DenseMatrix<Mersenne31, Vec<Mersenne31>>) -> nat;

/// Calls `DenseMatrix::new` on the elements that `Mersenne31::from_u32` makes
/// of `values`, one for one and in order. The constructor stores the buffer
/// and the width as given; it expects whole rows, which the `requires` asks
/// for. Each stored element is the class of its integer modulo the prime.
#[verifier::external_body]
fn dense_matrix_new(values: Vec<u32>, width: usize) -> (m: DenseMatrix<
    Mersenne31,
    Vec<Mersenne31>,
>)
    requires
        width > 0,
        values@.len() % (width as nat) == 0,
    ensures
        matrix_width(m) == width,
        matrix_cells(m) == Seq::new(
            values@.len(),
            |j: int| (values@[j] % MERSENNE_PRIME) as nat,
        ),
{
    DenseMatrix::new(values.into_iter().map(Mersenne31::from_u32).collect(), width)
}

/// The cells of a table in row-major order, by representatives.
pub open spec fn flat_values<F: Field>(trace: Trace<F>) -> Seq<nat> {
    Seq::new(trace.cells().len(), |j: int| trace.cells()[j].value())
}

/// The canonical representatives of the cells of `trace`, in row-major
/// order.
pub fn canonical_values(trace: &Trace<M31>) -> (out: Vec<u32>)
    ensures
        out@.len() == trace.cells().len(),
        forall|j: int| 0 <= j < out@.len() ==> #[trigger] out@[j] == trace.cells()[j].value(),
        forall|j: int| 0 <= j < out@.len() ==> #[trigger] out@[j] < MERSENNE_PRIME,
{
    let cells = trace.values();
    let mut out: Vec<u32> = Vec::with_capacity(cells.len());
    let mut j: usize = 0;
    while j < cells.len()
        invariant
            j <= cells@.len(),
            cells@ == trace.cells(),
            out@.len() == j,
            forall|k: int| 0 <= k < j ==> #[trigger] out@[k] == trace.cells()[k].value(),
            forall|k: int| 0 <= k < j ==> #[trigger] out@[k] < MERSENNE_PRIME,
        decreases cells@.len() - j,
    {
        out.push(cells[j].as_canonical_u32());
        j = j + 1;
    }
    out
}

/// The table as a dense row-major matrix over the Mersenne field: the same
/// width and the same cells in the same order.
pub fn to_row_major(trace: &Trace<M31>) -> (m: DenseMatrix<Mersenne31, Vec<Mersenne31>>)
    ensures
        matrix_width(m) == trace.spec_width(),
        matrix_cells(m) == flat_values(*trace),
{
    let width = trace.width();
    let height = trace.height();
    let values = canonical_values(trace);
    proof {
        assert((height * width) % (width as int) == 0) by (nonlinear_arith)
            requires
                width > 0,
                height >= 0,
        ;
    }
    let m = dense_matrix_new(values, width);
    assert(matrix_cells(m) =~= flat_values(*trace));
    m
}

} // verus!
