//! The grid of cells: a fixed width-by-height array of alive/dead flags,
//! stored row-major (`index = y*width + x`).

use vstd::prelude::*;

verus! {

/// Error returned when a cell coordinate lies outside the grid.
#[derive(Clone, Copy, Debug, PartialEq, Eq, Structural)]
pub struct OutOfBounds;

/// A fixed-size grid of cells, each alive or dead. Dimensions never
/// change after construction; exactly `width * height` cells exist.
pub struct GridState {
    width: usize,
    height: usize,
    cells: Vec<bool>,
}

impl GridState {
    /// The cells as a sequence, row-major.
    pub closed spec fn view(&self) -> Seq<bool> {
        self.cells@
    }

    /// Grid width in cells.
    pub closed spec fn w(&self) -> nat {
        self.width as nat
    }

    /// Grid height in cells.
    pub closed spec fn h(&self) -> nat {
        self.height as nat
    }

    /// Well-formedness: the cell array has exactly one entry per coordinate.
    pub open spec fn wf(&self) -> bool {
        self.view().len() == self.w() * self.h()
    }

    /// The cell at in-bounds coordinates `(x, y)`, row-major.
    pub open spec fn cell(&self, x: int, y: int) -> bool {
        self.view()[y * self.w() + x]
    }

    /// Creates an all-dead grid of the given dimensions.
    pub fn new(width: usize, height: usize) -> (g: GridState)
        requires
            width * height <= usize::MAX,
        ensures
            g.wf(),
            g.w() == width,
            g.h() == height,
            g.view() =~= Seq::new((width * height) as nat, |i: int| false),
    {
        let total: usize = width * height;
        let mut cells: Vec<bool> = Vec::new();
        let mut i: usize = 0;
        while i < total
            invariant
                i <= total,
                cells@.len() == i,
                forall|j: int| 0 <= j < i ==> !cells@[j],
            decreases total - i,
        {
            cells.push(false);
            i = i + 1;
        }
        GridState { width, height, cells }
    }

    /// The number of cells, `width * height`.
    pub fn cell_count(&self) -> (r: usize)
        requires
            self.wf(),
        ensures
            r == self.w() * self.h(),
    {
        self.cells.len()
    }

    /// Exact width, as an executable value.
    pub fn width(&self) -> (r: usize)
        ensures
            r == self.w(),
    {
        self.width
    }

    /// Exact height, as an executable value.
    pub fn height(&self) -> (r: usize)
        ensures
            r == self.h(),
    {
        self.height
    }

    /// Reads an in-bounds cell without the bounds check.
    pub fn cell_at(&self, x: usize, y: usize) -> (b: bool)
        requires
            self.wf(),
            x < self.w(),
            y < self.h(),
        ensures
            b == self.cell(x as int, y as int),
    {
        // the executable length bounds the row-major index by usize::MAX
        let _bound: usize = self.cells.len();
        proof {
            lemma_row_major_index_bound(self.w(), self.h(), x as nat, y as nat);
        }
        self.cells[y * self.width + x]
    }

    /// Reads the cell at `(x, y)`, or reports `OutOfBounds`; succeeds
    /// exactly when both coordinates are in bounds.
    pub fn get(&self, x: usize, y: usize) -> (r: Result<bool, OutOfBounds>)
        requires
            self.wf(),
        ensures
            r is Ok <==> x < self.w() && y < self.h(),
            r is Ok ==> r->Ok_0 == self.cell(x as int, y as int),
    {
        if x < self.width && y < self.height {
            Ok(self.cell_at(x, y))
        } else {
            Err(OutOfBounds)
        }
    }

    /// Writes the cell at `(x, y)`, or reports `OutOfBounds`; succeeds
    /// exactly when both coordinates are in bounds, and changes no other
    /// cell and never the dimensions.
    pub fn set(&mut self, x: usize, y: usize, alive: bool) -> (r: Result<(), OutOfBounds>)
        requires
            old(self).wf(),
        ensures
            final(self).wf(),
            final(self).w() == old(self).w(),
            final(self).h() == old(self).h(),
            r is Ok <==> x < old(self).w() && y < old(self).h(),
            r is Ok ==> final(self).view() =~= old(self).view().update(
                y * old(self).w() + x,
                alive,
            ),
            r is Err ==> final(self).view() =~= old(self).view(),
    {
        if x < self.width && y < self.height {
            // the executable length bounds the row-major index by usize::MAX
            let _bound: usize = self.cells.len();
            proof {
                lemma_row_major_index_bound(self.w(), self.h(), x as nat, y as nat);
            }
            let idx: usize = y * self.width + x;
            self.cells.set(idx, alive);
            Ok(())
        } else {
            Err(OutOfBounds)
        }
    }

    /// Replaces every cell at once from a row-major sequence of flags,
    /// leaving the dimensions untouched.
    pub fn overwrite(&mut self, bits: &Vec<bool>)
        requires
            old(self).wf(),
            bits@.len() == old(self).w() * old(self).h(),
        ensures
            final(self).wf(),
            final(self).w() == old(self).w(),
            final(self).h() == old(self).h(),
            final(self).view() =~= bits@,
    {
        let total: usize = bits.len();
        let mut cells: Vec<bool> = Vec::new();
        let mut i: usize = 0;
        while i < total
            invariant
                i <= total,
                total == bits@.len(),
                cells@.len() == i,
                forall|j: int| 0 <= j < i ==> cells@[j] == bits@[j],
            decreases total - i,
        {
            cells.push(bits[i]);
            i = i + 1;
        }
        self.cells = cells;
    }

    /// An independent copy of the grid, used as the immutable previous
    /// generation while the next one is computed.
    pub fn snapshot(&self) -> (g: GridState)
        requires
            self.wf(),
        ensures
            g.wf(),
            g.w() == self.w(),
            g.h() == self.h(),
            g.view() =~= self.view(),
    {
        let mut cells: Vec<bool> = Vec::new();
        let mut i: usize = 0;
        let total: usize = self.cells.len();
        while i < total
            invariant
                i <= total,
                total == self.cells@.len(),
                cells@.len() == i,
                forall|j: int| 0 <= j < i ==> cells@[j] == self.cells@[j],
            decreases total - i,
        {
            cells.push(self.cells[i]);
            i = i + 1;
        }
        GridState { width: self.width, height: self.height, cells }
    }
}

/// A row-major index of in-bounds coordinates stays below the cell count.
pub proof fn lemma_row_major_index_bound(w: nat, h: nat, x: nat, y: nat)
    by (nonlinear_arith)
    requires
        x < w,
        y < h,
    ensures
        y * w + x < w * h,
{
}

/// Row-major indexing is injective on in-bounds coordinates: two distinct
/// coordinate pairs never share an index.
pub proof fn lemma_row_major_index_injective(w: nat, x1: int, y1: int, x2: int, y2: int)
    requires
        0 <= x1 < w,
        0 <= x2 < w,
        y1 * w + x1 == y2 * w + x2,
    ensures
        x1 == x2,
        y1 == y2,
{
    let idx = y1 * w + x1;
    vstd::arithmetic::div_mod::lemma_fundamental_div_mod_converse(idx, w as int, y1, x1);
    vstd::arithmetic::div_mod::lemma_fundamental_div_mod_converse(idx, w as int, y2, x2);
}

/// The contrapositive: distinct in-bounds coordinate pairs have distinct
/// row-major indices.
pub proof fn lemma_row_major_index_distinct(w: nat, x1: int, y1: int, x2: int, y2: int)
    requires
        0 <= x1 < w,
        0 <= x2 < w,
        x1 != x2 || y1 != y2,
    ensures
        y1 * w + x1 != y2 * w + x2,
{
    if y1 * w + x1 == y2 * w + x2 {
        lemma_row_major_index_injective(w, x1, y1, x2, y2);
    }
}

} // verus!
