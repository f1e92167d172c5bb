//! Execution traces: rectangular tables of field elements, stored row by row.

use crate::field::Field;
use vstd::prelude::*;

verus! {

/// Why a flat buffer is not a table.
#[derive(Clone, Copy, Debug, PartialEq, Eq, Structural)]
pub enum TraceError {
    /// The declared width is zero.
    ZeroWidth,
    /// The number of cells is not a multiple of the width.
    RaggedRows,
}

/// A table of field elements with a fixed, positive width. It is built once
/// and only read afterwards.
pub struct Trace<F: Field> {
    values: Vec<F>,
    width: usize,
    height: usize,
}

/// The offset of a cell in a row-major buffer lies inside the buffer.
proof fn cell_offset_in_bounds(r: int, c: int, width: int, height: int)
    requires
        0 <= r < height,
        0 <= c < width,
    ensures
        0 <= r * width,
        r * width + c < (r + 1) * width,
        (r + 1) * width <= height * width,
        (r + 1) * width == r * width + width,
{
    assert(0 <= r * width) by (nonlinear_arith)
        requires
            0 <= r,
            0 <= width,
    ;
    assert((r + 1) * width == r * width + width) by (nonlinear_arith);
    assert((r + 1) * width <= height * width) by (nonlinear_arith)
        requires
            r + 1 <= height,
            0 <= width,
    ;
}

impl<F: Field> Trace<F> {
    #[verifier::type_invariant]
    spec fn well_formed(self) -> bool {
        &&& self.width > 0
        &&& self.values@.len() == self.height * self.width
    }

    /// The cells in row-major order.
    pub closed spec fn cells(self) -> Seq<F> {
        self.values@
    }

    /// The number of columns.
    pub closed spec fn spec_width(self) -> nat {
        self.width as nat
    }

    /// The number of rows.
    pub closed spec fn spec_height(self) -> nat {
        self.height as nat
    }

    /// The representative of the cell in row `r` and column `c`.
    pub open spec fn at(self, r: int, c: int) -> nat {
        self.cells()[r * self.spec_width() + c].value()
    }

    /// Makes a table of `values`, read as rows of `width` cells each.
    pub fn new(values: Vec<F>, width: usize) -> (t: Self)
        requires
            width > 0,
            values@.len() % (width as nat) == 0,
        ensures
            t.cells() == values@,
            t.spec_width() == width,
            t.spec_height() == values@.len() / (width as nat),
            t.cells().len() == t.spec_height() * t.spec_width(),
    {
        let height = values.len() / width;
        proof {
            vstd::arithmetic::div_mod::lemma_fundamental_div_mod(
                values@.len() as int,
                width as int,
            );
            assert(width * height == height * width) by (nonlinear_arith);
        }
        Trace { values, width, height }
    }

    /// Makes a table of `values` if they fill whole rows of a positive
    /// `width`, and says what is wrong otherwise.
    pub fn try_new(values: Vec<F>, width: usize) -> (res: Result<Self, TraceError>)
        ensures
            width == 0 ==> res == Err::<Self, TraceError>(TraceError::ZeroWidth),
            width > 0 && values@.len() % (width as nat) != 0 ==> res == Err::<Self, TraceError>(
                TraceError::RaggedRows,
            ),
            width > 0 && values@.len() % (width as nat) == 0 ==> res.is_ok()
                && res.unwrap().cells() == values@ && res.unwrap().spec_width() == width
                && res.unwrap().spec_height() == values@.len() / (width as nat),
    {
        if width == 0 {
            Err(TraceError::ZeroWidth)
        } else if values.len() % width != 0 {
            Err(TraceError::RaggedRows)
        } else {
            Ok(Trace::new(values, width))
        }
    }

    /// The number of columns.
    pub fn width(&self) -> (w: usize)
        ensures
            w == self.spec_width(),
            w > 0,
    {
        proof {
            use_type_invariant(self);
        }
        self.width
    }

    /// The number of rows.
    pub fn height(&self) -> (h: usize)
        ensures
            h == self.spec_height(),
            self.cells().len() == h * self.spec_width(),
            self@.len() == h,
    {
        proof {
            use_type_invariant(self);
        }
        self.height
    }

    /// The cell in row `r` and column `c`.
    pub fn get(&self, r: usize, c: usize) -> (x: F)
        requires
            r < self.spec_height(),
            c < self.spec_width(),
        ensures
            x == self.cells()[r * self.spec_width() + c],
            x.value() == self@[r as int][c as int],
    {
        let len = self.values.len();
        proof {
            use_type_invariant(self);
            cell_offset_in_bounds(r as int, c as int, self.width as int, self.height as int);
            assert(r * self.width + c < len);
        }
        self.values[r * self.width + c]
    }

    /// A copy of row `r`.
    pub fn row(&self, r: usize) -> (out: Vec<F>)
        requires
            r < self.spec_height(),
        ensures
            out@ == self.cells().subrange(
                r * self.spec_width(),
                r * self.spec_width() + self.spec_width(),
            ),
            out@.len() == self.spec_width(),
            forall|c: int| 0 <= c < self.spec_width() ==> (#[trigger] out@[c]).value() == self@[r as int][c],
    {
        let len = self.values.len();
        proof {
            use_type_invariant(self);
            cell_offset_in_bounds(r as int, 0, self.width as int, self.height as int);
            assert(r * self.width + self.width <= len);
        }
        let start: usize = r * self.width;
        let mut out: Vec<F> = Vec::with_capacity(self.width);
        let mut c: usize = 0;
        while c < self.width
            invariant
                self.well_formed(),
                r < self.height,
                start == r * self.width,
                start + self.width <= self.values@.len(),
                self.values@.len() == len,
                c <= self.width,
                out@ == self.values@.subrange(start as int, start + c),
            decreases self.width - c,
        {
            out.push(self.values[start + c]);
            c = c + 1;
            assert(out@ == self.values@.subrange(start as int, start + c));
        }
        out
    }

    /// The cells in row-major order.
    pub fn values(&self) -> (v: &Vec<F>)
        ensures
            v@ == self.cells(),
    {
        &self.values
    }
}

/// A table under construction: rows are appended one at a time, and sealing
/// turns the rows into a [`Trace`].
pub struct TraceBuilder<F: Field> {
    values: Vec<F>,
    width: usize,
    height: usize,
}

impl<F: Field> TraceBuilder<F> {
    #[verifier::type_invariant]
    spec fn well_formed(self) -> bool {
        &&& self.width > 0
        &&& self.values@.len() == self.height * self.width
    }

    /// The cells appended so far, in row-major order.
    pub closed spec fn cells(self) -> Seq<F> {
        self.values@
    }

    /// The number of columns of every row.
    pub closed spec fn spec_width(self) -> nat {
        self.width as nat
    }

    /// A builder without rows for tables of `width` columns; a width of
    /// zero is refused.
    pub fn new(width: usize) -> (res: Result<Self, TraceError>)
        ensures
            width == 0 ==> res == Err::<Self, TraceError>(TraceError::ZeroWidth),
            width > 0 ==> res.is_ok() && res.unwrap().spec_width() == width
                && res.unwrap().cells() == Seq::<F>::empty(),
    {
        if width == 0 {
            Err(TraceError::ZeroWidth)
        } else {
            assert(0 * width == 0);
            Ok(TraceBuilder { values: Vec::new(), width, height: 0 })
        }
    }

    /// Appends `row` as the next row. A row of another length than the
    /// width is refused, and the builder stays as it is.
    pub fn push_row(&mut self, row: &Vec<F>) -> (res: Result<(), TraceError>)
        ensures
            final(self).spec_width() == old(self).spec_width(),
            row@.len() != old(self).spec_width() ==> res == Err::<(), TraceError>(
                TraceError::RaggedRows,
            ) && final(self).cells() == old(self).cells(),
            row@.len() == old(self).spec_width() ==> res.is_ok() && final(self).cells() == old(
                self,
            ).cells() + row@,
    {
        proof {
            use_type_invariant(&*self);
        }
        if row.len() != self.width {
            return Err(TraceError::RaggedRows);
        }
        let width = self.width;
        let mut taken = TraceBuilder { values: Vec::new(), width, height: 0 };
        assert(0 * width == 0);
        std::mem::swap(self, &mut taken);
        let TraceBuilder { values, width, height } = taken;
        let mut values = values;
        let mut c: usize = 0;
        while c < row.len()
            invariant
                c <= row@.len(),
                values@ == old(self).values@ + row@.take(c as int),
            decreases row@.len() - c,
        {
            values.push(row[c]);
            c = c + 1;
            assert(row@.take(c as int) =~= row@.take(c - 1).push(row@[c - 1]));
            assert(values@ =~= old(self).values@ + row@.take(c as int));
        }
        assert(row@.take(c as int) =~= row@);
        let len = values.len();
        proof {
            assert((height + 1) * width == height * width + width) by (nonlinear_arith);
            assert(len == (height + 1) * width);
            assert(height + 1 <= (height + 1) * width) by (nonlinear_arith)
                requires
                    width > 0,
                    height >= 0,
            ;
        }
        *self = TraceBuilder { values, width, height: height + 1 };
        Ok(())
    }

    /// Ends construction: the rows appended so far, as a table.
    pub fn seal(self) -> (t: Trace<F>)
        ensures
            t.cells() == self.cells(),
            t.spec_width() == self.spec_width(),
            t.cells().len() == t.spec_height() * t.spec_width(),
    {
        proof {
            use_type_invariant(&self);
        }
        Trace { values: self.values, width: self.width, height: self.height }
    }
}

impl<F: Field> View for Trace<F> {
    type V = Seq<Seq<nat>>;

    /// The table as rows of canonical representatives.
    open spec fn view(&self) -> Seq<Seq<nat>> {
        Seq::new(
            self.spec_height(),
            |r: int| Seq::new(self.spec_width(), |c: int| self.at(r, c)),
        )
    }
}

} // verus!
