//! Dense rectangular grid storage with bounds metadata, contract-checked
//! "unchecked" element access, and the bulk row reordering operations the
//! board transitions are built from.
//!
//! The grid is modelled as a sequence of rows, each row a sequence of cells.
//! Rectangularity (every row as long as the declared column count) is a trust
//! boundary: the unchecked constructor does not establish it, and every
//! operation that depends on it states it as a precondition instead.

use vstd::pervasive::VecAdditionalExecFns;
use vstd::prelude::*;

use crate::tetromino::Cell;

verus! {

/// A row of `columns` cells, all empty.
pub open spec fn empty_row(columns: nat) -> Seq<Cell> {
    Seq::new(columns, |j: int| Cell::Empty)
}

/// A row of `columns` garbage cells with a single open cell at `column`.
pub open spec fn garbage_row(columns: nat, column: int) -> Seq<Cell> {
    Seq::new(columns, |j: int| if j == column { Cell::Empty } else { Cell::Garbage })
}

/// Dense rectangular storage: an ordered list of rows plus the column count
/// the grid was declared with.
///
/// The fields are public because `new_from_rows_unchecked` already lets a
/// caller build any value; well-formedness is carried by [`Self::wf`] as an
/// explicit precondition, never assumed.
pub struct BoardStorage<T> {
    pub columns: usize,
    pub storage: Vec<Vec<T>>,
}

impl<T> View for BoardStorage<T> {
    type V = Seq<Seq<T>>;

    open spec fn view(&self) -> Seq<Seq<T>> {
        Seq::new(self.storage@.len(), |i: int| self.storage@[i]@)
    }
}

impl<T> BoardStorage<T> {
    /// The column count the grid was declared with.
    pub open spec fn spec_columns(&self) -> int {
        self.columns as int
    }

    /// Rectangularity: every stored row is exactly `columns` long.
    pub open spec fn wf(&self) -> bool {
        forall|i: int| 0 <= i < self@.len() ==> (#[trigger] self@[i]).len() == self.spec_columns()
    }

    /// Constructs a grid from an ordered list of rows; the column count is
    /// taken from the first row (0 if there is none). Does **not** check that
    /// the rows all have that length: the caller is responsible, and the
    /// operations that need it require [`Self::wf`].
    pub fn new_from_rows_unchecked(v: Vec<Vec<T>>) -> (r: Self)
        ensures
            r@ == Seq::new(v@.len(), |i: int| v@[i]@),
            r.spec_columns() == if v@.len() == 0 {
                0int
            } else {
                v@[0]@.len() as int
            },
    {
        let columns = if v.len() > 0 {
            v[0].len()
        } else {
            0
        };
        let r = Self { columns, storage: v };
        proof {
            assert(r@ =~~= Seq::new(v@.len(), |i: int| v@[i]@));
        }
        r
    }

    /// The grid's bounds, as `(rows, columns)`.
    pub fn dimensions(&self) -> (r: (usize, usize))
        ensures
            r.0 == self@.len(),
            r.1 as int == self.spec_columns(),
    {
        (self.storage.len(), self.columns)
    }

    /// The location of the grid's origin.
    pub fn root(&self) -> (r: (usize, usize))
        ensures
            r == (0usize, 0usize),
    {
        (0, 0)
    }

    /// Reads the cell at (`row`, `column`). The location must be in bounds:
    /// that is the caller's obligation, stated here as a precondition rather
    /// than checked at run time.
    pub fn get_unchecked(&self, row: usize, column: usize) -> (r: &T)
        requires
            row < self@.len(),
            column < self@[row as int].len(),
        ensures
            *r == self@[row as int][column as int],
    {
        &self.storage[row][column]
    }

    /// Overwrites the cell at (`row`, `column`); bounds are the caller's
    /// obligation.
    pub fn set_unchecked(&mut self, row: usize, column: usize, value: T)
        requires
            row < old(self)@.len(),
            column < old(self)@[row as int].len(),
        ensures
            final(self)@ == old(self)@.update(
                row as int,
                old(self)@[row as int].update(column as int, value),
            ),
            final(self).spec_columns() == old(self).spec_columns(),
    {
        let row_ref = &mut self.storage[row];
        row_ref.set(column, value);
        proof {
            assert(self@ =~~= old(self)@.update(
                row as int,
                old(self)@[row as int].update(column as int, value),
            ));
        }
    }

    /// Overwrites the cell at (`row`, `column`) and returns the value that was
    /// there; bounds are the caller's obligation.
    pub fn replace_unchecked(&mut self, row: usize, column: usize, value: T) -> (r: T)
        requires
            row < old(self)@.len(),
            column < old(self)@[row as int].len(),
        ensures
            r == old(self)@[row as int][column as int],
            final(self)@ == old(self)@.update(
                row as int,
                old(self)@[row as int].update(column as int, value),
            ),
            final(self).spec_columns() == old(self).spec_columns(),
    {
        let row_ref = &mut self.storage[row];
        row_ref.push(value);
        let r = row_ref.swap_remove(column);
        proof {
            assert(row_ref@ =~= old(self)@[row as int].update(column as int, value));
            assert(self@ =~~= old(self)@.update(
                row as int,
                old(self)@[row as int].update(column as int, value),
            ));
        }
        r
    }
}

/// Builds a concrete all-empty row of the given width.
pub fn empty_row_vec(columns: usize) -> (r: Vec<Cell>)
    ensures
        r@ == empty_row(columns as nat),
{
    let mut r: Vec<Cell> = Vec::new();
    let mut j: usize = 0;
    while j < columns
        invariant
            j <= columns,
            r@.len() == j,
            forall|k: int| 0 <= k < j ==> r@[k] == Cell::Empty,
        decreases columns - j,
    {
        r.push(Cell::Empty);
        j += 1;
    }
    proof {
        assert(r@ =~= empty_row(columns as nat));
    }
    r
}

/// Builds a concrete garbage row of the given width with its open cell at
/// `column`.
pub fn garbage_row_vec(columns: usize, column: usize) -> (r: Vec<Cell>)
    ensures
        r@ == garbage_row(columns as nat, column as int),
{
    let mut r: Vec<Cell> = Vec::new();
    let mut j: usize = 0;
    while j < columns
        invariant
            j <= columns,
            r@.len() == j,
            forall|k: int| 0 <= k < j ==> r@[k] == garbage_row(columns as nat, column as int)[k],
        decreases columns - j,
    {
        if j == column {
            r.push(Cell::Empty);
        } else {
            r.push(Cell::Garbage);
        }
        j += 1;
    }
    proof {
        assert(r@ =~= garbage_row(columns as nat, column as int));
    }
    r
}

impl BoardStorage<Cell> {
    /// Removes row `l`'s position from the active window: the rows after `l`
    /// shift up by one and the vacated last row becomes all-empty. Row `l`'s
    /// original content is discarded; a caller that wants to undo this must
    /// save that row first.
    pub fn clear_line(&mut self, l: usize)
        requires
            old(self).wf(),
            l < old(self)@.len(),
        ensures
            final(self).wf(),
            final(self).spec_columns() == old(self).spec_columns(),
            final(self)@.len() == old(self)@.len(),
            final(self)@ == old(self)@.remove(l as int).push(
                empty_row(old(self).spec_columns() as nat),
            ),
    {
        let mut row = self.storage.remove(l);
        let columns = self.columns;
        proof {
            assert(old(self)@[l as int] == row@);
        }
        let mut j: usize = 0;
        while j < columns
            invariant
                j <= columns,
                row@.len() == columns,
                forall|k: int| 0 <= k < j ==> row@[k] == Cell::Empty,
            decreases columns - j,
        {
            row.set(j, Cell::Empty);
            j += 1;
        }
        proof {
            assert(row@ =~= empty_row(old(self).spec_columns() as nat));
        }
        self.storage.push(row);
        proof {
            assert(self@ =~~= old(self)@.remove(l as int).push(
                empty_row(old(self).spec_columns() as nat),
            ));
        }
    }

    /// Exact inverse of [`Self::clear_line`]: drops the last row (the
    /// all-empty one `clear_line` appended), shifts the rows from `l` on down
    /// by one, and writes `row` back in at index `l`.
    pub fn restore_line(&mut self, l: usize, row: Vec<Cell>)
        requires
            old(self).wf(),
            l < old(self)@.len(),
            row@.len() == old(self).spec_columns(),
        ensures
            final(self).wf(),
            final(self).spec_columns() == old(self).spec_columns(),
            final(self)@.len() == old(self)@.len(),
            final(self)@ == old(self)@.drop_last().insert(l as int, row@),
    {
        let _ = self.storage.pop();
        self.storage.insert(l, row);
        proof {
            assert(self@ =~~= old(self)@.drop_last().insert(l as int, row@));
        }
    }

    /// Injects `height` rows of garbage: the last `height` rows scroll off the
    /// end of the row list, the rest shift towards the end, and the first
    /// `height` positions are filled with garbage rows open at `column`.
    pub fn add_garbage(&mut self, column: usize, height: usize)
        requires
            old(self).wf(),
            height <= old(self)@.len(),
            column < old(self).spec_columns(),
        ensures
            final(self).wf(),
            final(self).spec_columns() == old(self).spec_columns(),
            final(self)@.len() == old(self)@.len(),
            final(self)@ == Seq::new(
                height as nat,
                |i: int| garbage_row(old(self).spec_columns() as nat, column as int),
            ) + old(self)@.take(old(self)@.len() - height),
    {
        let ghost orig = self.storage@;
        let mut i: usize = 0;
        while i < height
            invariant
                i <= height <= orig.len(),
                self.columns == old(self).columns,
                self.storage@ == orig.take(orig.len() - i),
            decreases height - i,
        {
            let _ = self.storage.pop();
            proof {
                assert(self.storage@ =~= orig.take(orig.len() - (i + 1)));
            }
            i += 1;
        }
        let ghost trimmed = self.storage@;
        let mut i: usize = 0;
        while i < height
            invariant
                i <= height,
                self.columns == old(self).columns,
                column < self.columns,
                self.storage@.len() == trimmed.len() + i,
                forall|k: int|
                    0 <= k < i ==> (#[trigger] self.storage@[k])@ == garbage_row(
                        self.columns as nat,
                        column as int,
                    ),
                forall|k: int|
                    i <= k < self.storage@.len() ==> #[trigger] self.storage@[k] == trimmed[k - i],
            decreases height - i,
        {
            let g = garbage_row_vec(self.columns, column);
            self.storage.insert(0, g);
            i += 1;
        }
        proof {
            assert(self@ =~~= Seq::new(
                height as nat,
                |i: int| garbage_row(old(self).spec_columns() as nat, column as int),
            ) + old(self)@.take(old(self)@.len() - height));
        }
    }

    /// Exact inverse of [`Self::add_garbage`]: the first `height` rows are
    /// removed and `height` all-empty rows are appended, restoring the prior
    /// positions of the surviving rows.
    pub fn remove_garbage(&mut self, height: usize)
        requires
            old(self).wf(),
            height <= old(self)@.len(),
        ensures
            final(self).wf(),
            final(self).spec_columns() == old(self).spec_columns(),
            final(self)@.len() == old(self)@.len(),
            final(self)@ == old(self)@.skip(height as int) + Seq::new(
                height as nat,
                |i: int| empty_row(old(self).spec_columns() as nat),
            ),
    {
        let ghost orig = self.storage@;
        let mut i: usize = 0;
        while i < height
            invariant
                i <= height <= orig.len(),
                self.columns == old(self).columns,
                self.storage@ == orig.skip(i as int),
            decreases height - i,
        {
            let _ = self.storage.remove(0);
            proof {
                assert(self.storage@ =~= orig.skip(i + 1));
            }
            i += 1;
        }
        let ghost trimmed = self.storage@;
        let mut i: usize = 0;
        while i < height
            invariant
                i <= height,
                self.columns == old(self).columns,
                self.storage@.len() == trimmed.len() + i,
                forall|k: int|
                    0 <= k < trimmed.len() ==> #[trigger] self.storage@[k] == trimmed[k],
                forall|k: int|
                    trimmed.len() <= k < self.storage@.len() ==> (#[trigger] self.storage@[k])@
                        == empty_row(self.columns as nat),
            decreases height - i,
        {
            let e = empty_row_vec(self.columns);
            self.storage.push(e);
            i += 1;
        }
        proof {
            assert(self@ =~~= old(self)@.skip(height as int) + Seq::new(
                height as nat,
                |i: int| empty_row(old(self).spec_columns() as nat),
            ));
        }
    }

    /// A copy of row `l`'s content.
    pub fn line(&self, l: usize) -> (r: Vec<Cell>)
        requires
            l < self@.len(),
        ensures
            r@ == self@[l as int],
    {
        let mut r: Vec<Cell> = Vec::new();
        let len = self.storage[l].len();
        let mut j: usize = 0;
        while j < len
            invariant
                j <= len,
                l < self.storage@.len(),
                len == self.storage@[l as int]@.len(),
                r@.len() == j,
                forall|k: int| 0 <= k < j ==> r@[k] == self.storage@[l as int]@[k],
            decreases len - j,
        {
            let c = self.storage[l][j];
            r.push(c);
            j += 1;
        }
        proof {
            assert(r@ =~= self@[l as int]);
        }
        r
    }
}

} // verus!
