//! The 2 by 2 block, the simplest pattern that a generation leaves unchanged.

use crate::cell::Cell;
use crate::grid::Grid;
use crate::ring::lemma_index_of_position;
use crate::ring::lemma_position_of_index;
use crate::ring::lemma_wrap_neighbors;
use crate::ring::ring_after;
use crate::ring::ring_before;
use vstd::prelude::*;

verus! {

impl Grid {
    /// Whether `(row, col)` is one of the four positions of the 2 by 2 block
    /// whose top left corner is `(top, left)`; the block's second row and
    /// column wrap around the torus.
    pub open spec fn in_block(self, top: int, left: int, row: int, col: int) -> bool {
        &&& row == top || row == ring_after(top, self.height as int)
        &&& col == left || col == ring_after(left, self.width as int)
    }

    /// The grid holds a 2 by 2 block of live cells with its top left corner
    /// at `(top, left)` and dead cells everywhere else.
    pub open spec fn is_block(self, top: int, left: int) -> bool {
        &&& self.valid()
        &&& 0 <= top < self.height
        &&& 0 <= left < self.width
        &&& forall|i: int|
            0 <= i < self.cells.len() ==> (#[trigger] self.cells[i] == Cell::Alive
                <==> self.in_block(top, left, i / (self.width as int), i % (self.width as int)))
    }

    /// In a block grid, the cell at a position inside the grid is alive
    /// exactly when the position belongs to the block.
    proof fn lemma_block_cell(self, top: int, left: int, row: int, col: int)
        requires
            self.is_block(top, left),
            0 <= row < self.height,
            0 <= col < self.width,
        ensures
            self.at(row, col).count() == if self.in_block(top, left, row, col) {
                1nat
            } else {
                0nat
            },
    {
        self.lemma_at_inside(row, col);
        lemma_index_of_position(row, col, self.width as int, self.height as int);
        let i = row * self.width + col;
        assert(self.cells[i] == Cell::Alive <==> self.in_block(top, left, row, col));
    }

    /// A 2 by 2 block of live cells on an otherwise dead grid of at least
    /// three rows and three columns is a still life: a generation leaves
    /// the grid unchanged.
    pub proof fn lemma_block_is_still_life(self, top: int, left: int)
        requires
            self.is_block(top, left),
            self.width >= 3,
            self.height >= 3,
        ensures
            self.step() == self,
    {
        let w = self.width as int;
        let h = self.height as int;
        assert forall|i: int| 0 <= i < self.cells.len() implies self.next_cell(i)
            == self.cells[i] by {
            lemma_position_of_index(i, w, h);
            let row = i / w;
            let col = i % w;
            let above = ring_before(row, h);
            let below = ring_after(row, h);
            let before = ring_before(col, w);
            let after = ring_after(col, w);
            lemma_wrap_neighbors(row, h);
            lemma_wrap_neighbors(col, w);
            self.lemma_neighbors_wrap_around(row, col);
            self.lemma_at_inside(row, col);
            self.lemma_block_cell(top, left, above, before);
            self.lemma_block_cell(top, left, above, col);
            self.lemma_block_cell(top, left, above, after);
            self.lemma_block_cell(top, left, row, before);
            self.lemma_block_cell(top, left, row, col);
            self.lemma_block_cell(top, left, row, after);
            self.lemma_block_cell(top, left, below, before);
            self.lemma_block_cell(top, left, below, col);
            self.lemma_block_cell(top, left, below, after);
        }
        assert(self.step().cells =~= self.cells);
    }
}

} // verus!
