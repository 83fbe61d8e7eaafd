//! The mathematical model of the simulation: a torus of cells and the
//! functions that say what counting, stepping and rendering mean on it.

use crate::cell::Cell;
use crate::ring::lemma_index_of_position;
use crate::ring::lemma_wrap_neighbors;
use crate::ring::ring_after;
use crate::ring::ring_before;
use vstd::prelude::*;

verus! {

/// A grid as a mathematical value: its dimensions and its cells in row-major
/// order.
pub struct Grid {
    pub width: nat,
    pub height: nat,
    pub cells: Seq<Cell>,
}

/// The state of the cell at linear index `i` in a freshly seeded grid: alive
/// where `i` is a multiple of 2 or of 7.
pub open spec fn seed_cell(i: int) -> Cell {
    if i % 2 == 0 || i % 7 == 0 {
        Cell::Alive
    } else {
        Cell::Dead
    }
}

impl Grid {
    /// Both dimensions are positive and there is exactly one cell per
    /// position.
    pub open spec fn valid(self) -> bool {
        &&& self.width > 0
        &&& self.height > 0
        &&& self.cells.len() == self.width * self.height
    }

    /// The row-major index of the position `(row, col)`, each coordinate
    /// wrapped onto the torus.
    pub open spec fn index(self, row: int, col: int) -> int {
        (row % (self.height as int)) * self.width + col % (self.width as int)
    }

    /// The cell at `(row, col)` on the torus.
    pub open spec fn at(self, row: int, col: int) -> Cell {
        self.cells[self.index(row, col)]
    }

    /// How many of the eight positions around `(row, col)` hold a live cell.
    pub open spec fn live_neighbors(self, row: int, col: int) -> nat {
        self.at(row - 1, col - 1).count() + self.at(row - 1, col).count() + self.at(
            row - 1,
            col + 1,
        ).count() + self.at(row, col - 1).count() + self.at(row, col + 1).count() + self.at(
            row + 1,
            col - 1,
        ).count() + self.at(row + 1, col).count() + self.at(row + 1, col + 1).count()
    }

    /// The state, one generation later, of the cell at linear index `i`.
    pub open spec fn next_cell(self, i: int) -> Cell {
        self.cells[i].next(self.live_neighbors(i / (self.width as int), i % (self.width as int)))
    }

    /// The grid one generation later: every cell replaced at once by what the
    /// rules make of it and its neighbours in the current generation.
    pub open spec fn step(self) -> Grid {
        Grid {
            width: self.width,
            height: self.height,
            cells: Seq::new(self.cells.len(), |i: int| self.next_cell(i)),
        }
    }

    /// The grid `n` generations later.
    pub open spec fn generation(self, n: nat) -> Grid
        decreases n,
    {
        if n == 0 {
            self
        } else {
            self.generation((n - 1) as nat).step()
        }
    }

    /// The grid that construction produces for the given dimensions.
    pub open spec fn seeded(width: nat, height: nat) -> Grid {
        Grid { width, height, cells: Seq::new(width * height, |i: int| seed_cell(i)) }
    }

    /// The glyphs of one row, left to right.
    pub open spec fn row_glyphs(self, row: int) -> Seq<char> {
        Seq::new(self.width, |col: int| self.cells[row * self.width + col].glyph())
    }

    /// The text of the first `rows` rows: each row's glyphs followed by a
    /// newline.
    pub open spec fn text_upto(self, rows: nat) -> Seq<char>
        decreases rows,
    {
        if rows == 0 {
            Seq::empty()
        } else {
            self.text_upto((rows - 1) as nat) + self.row_glyphs(rows - 1).push('\n')
        }
    }

    /// The rendered grid: all rows, top to bottom.
    pub open spec fn text(self) -> Seq<char> {
        self.text_upto(self.height)
    }

    /// A step keeps the dimensions and the number of cells, so a valid grid
    /// stays valid.
    pub proof fn lemma_step_keeps_dimensions(self)
        ensures
            self.step().width == self.width,
            self.step().height == self.height,
            self.step().cells.len() == self.cells.len(),
            self.valid() ==> self.step().valid(),
    {
    }

    /// After any number of generations a valid grid is still valid, with the
    /// dimensions it started with.
    pub proof fn lemma_generation_keeps_dimensions(self, n: nat)
        requires
            self.valid(),
        ensures
            self.generation(n).valid(),
            self.generation(n).width == self.width,
            self.generation(n).height == self.height,
        decreases n,
    {
        if n > 0 {
            self.lemma_generation_keeps_dimensions((n - 1) as nat);
            self.generation((n - 1) as nat).lemma_step_keeps_dimensions();
        }
    }

    /// A cell never has more than eight live neighbours.
    pub proof fn lemma_live_neighbors_at_most_eight(self, row: int, col: int)
        ensures
            self.live_neighbors(row, col) <= 8,
    {
    }

    /// Inside the grid, `at` reads the cell at the row-major index of the
    /// position.
    pub proof fn lemma_at_inside(self, row: int, col: int)
        requires
            self.valid(),
            0 <= row < self.height,
            0 <= col < self.width,
        ensures
            0 <= row * self.width + col < self.cells.len(),
            self.at(row, col) == self.cells[row * self.width + col],
    {
        lemma_index_of_position(row, col, self.width as int, self.height as int);
        lemma_wrap_neighbors(row, self.height as int);
        lemma_wrap_neighbors(col, self.width as int);
    }

    /// The grid is a torus: the neighbours of a cell on an edge are found on
    /// the opposite edge. For every position inside the grid, the live
    /// neighbours are counted in the rows before and after it on the ring of
    /// rows and in the columns before and after it on the ring of columns.
    pub proof fn lemma_neighbors_wrap_around(self, row: int, col: int)
        requires
            self.valid(),
            0 <= row < self.height,
            0 <= col < self.width,
        ensures
            self.live_neighbors(row, col) == ({
                let above = ring_before(row, self.height as int);
                let below = ring_after(row, self.height as int);
                let before = ring_before(col, self.width as int);
                let after = ring_after(col, self.width as int);
                self.at(above, before).count() + self.at(above, col).count() + self.at(
                    above,
                    after,
                ).count() + self.at(row, before).count() + self.at(row, after).count() + self.at(
                    below,
                    before,
                ).count() + self.at(below, col).count() + self.at(below, after).count()
            }),
    {
        let h = self.height as int;
        let w = self.width as int;
        lemma_wrap_neighbors(row, h);
        lemma_wrap_neighbors(col, w);
        lemma_wrap_neighbors(ring_before(row, h), h);
        lemma_wrap_neighbors(ring_after(row, h), h);
        lemma_wrap_neighbors(ring_before(col, w), w);
        lemma_wrap_neighbors(ring_after(col, w), w);
        assert(self.index(row - 1, col - 1) == self.index(ring_before(row, h), ring_before(col, w)));
        assert(self.index(row - 1, col) == self.index(ring_before(row, h), col));
        assert(self.index(row - 1, col + 1) == self.index(ring_before(row, h), ring_after(col, w)));
        assert(self.index(row, col - 1) == self.index(row, ring_before(col, w)));
        assert(self.index(row, col + 1) == self.index(row, ring_after(col, w)));
        assert(self.index(row + 1, col - 1) == self.index(ring_after(row, h), ring_before(col, w)));
        assert(self.index(row + 1, col) == self.index(ring_after(row, h), col));
        assert(self.index(row + 1, col + 1) == self.index(ring_after(row, h), ring_after(col, w)));
    }

    /// A live cell in the top left corner is a neighbour of the bottom left,
    /// the top right and the bottom right corner.
    pub proof fn lemma_corners_are_adjacent(self)
        requires
            self.valid(),
            self.at(0, 0) == Cell::Alive,
        ensures
            self.live_neighbors(self.height - 1, 0) >= 1,
            self.live_neighbors(0, self.width - 1) >= 1,
            self.live_neighbors(self.height - 1, self.width - 1) >= 1,
    {
        self.lemma_neighbors_wrap_around(self.height - 1, 0);
        self.lemma_neighbors_wrap_around(0, self.width - 1);
        self.lemma_neighbors_wrap_around(self.height - 1, self.width - 1);
    }

    /// The simulation is deterministic: grids constructed with the same
    /// dimensions start in the same state, and are in the same state, with
    /// the same rendering, after any number of generations.
    pub proof fn lemma_same_dimensions_same_history(
        width: nat,
        height: nat,
        other_width: nat,
        other_height: nat,
        n: nat,
    )
        requires
            width == other_width,
            height == other_height,
        ensures
            Grid::seeded(width, height) == Grid::seeded(other_width, other_height),
            Grid::seeded(width, height).generation(n) == Grid::seeded(
                other_width,
                other_height,
            ).generation(n),
            Grid::seeded(width, height).generation(n).text() == Grid::seeded(
                other_width,
                other_height,
            ).generation(n).text(),
    {
    }

    /// The text of the first `rows` rows has `width + 1` characters per row.
    pub proof fn lemma_text_upto_len(self, rows: nat)
        ensures
            self.text_upto(rows).len() == rows * (self.width + 1),
        decreases rows,
    {
        let line = self.width + 1;
        if rows > 0 {
            let above = (rows - 1) as nat;
            self.lemma_text_upto_len(above);
            assert(above * line + line == rows * line) by (nonlinear_arith)
                requires
                    above + 1 == rows,
            ;
        } else {
            assert(0 * line == 0);
        }
    }

    /// In the text of the first `rows` rows, the character at column `col`
    /// of line `row` is the glyph of the cell at that position, and the
    /// character after the last glyph of a line is a newline.
    pub proof fn lemma_text_upto_char(self, rows: nat, row: int, col: int)
        requires
            0 <= row < rows,
            0 <= col <= self.width,
        ensures
            0 <= row * (self.width + 1) + col < self.text_upto(rows).len(),
            self.text_upto(rows)[row * (self.width + 1) + col] == if col == self.width {
                '\n'
            } else {
                self.cells[row * self.width + col].glyph()
            },
        decreases rows,
    {
        let line = self.width + 1;
        let above = (rows - 1) as nat;
        let before = self.text_upto(above);
        self.lemma_text_upto_len(above);
        self.lemma_text_upto_len(rows);
        assert(above * line + line == rows * line) by (nonlinear_arith)
            requires
                above + 1 == rows,
        ;
        assert(0 <= row * line) by (nonlinear_arith)
            requires
                0 <= row,
                0 <= line,
        ;
        if row == rows - 1 {
            assert(self.text_upto(rows)[before.len() + col] == self.row_glyphs(rows - 1).push(
                '\n',
            )[col]);
        } else {
            assert(row * line + line <= above * line) by (nonlinear_arith)
                requires
                    row + 1 <= above,
                    0 <= line,
            ;
            self.lemma_text_upto_char(above, row, col);
        }
    }

    /// The rendered text has one line per row, each line made of one glyph
    /// per cell of that row, in order, and closed by a newline.
    pub proof fn lemma_text_shape(self, row: int, col: int)
        requires
            0 <= row < self.height,
            0 <= col <= self.width,
        ensures
            self.text().len() == self.height * (self.width + 1),
            self.text()[row * (self.width + 1) + col] == if col == self.width {
                '\n'
            } else {
                self.cells[row * self.width + col].glyph()
            },
    {
        self.lemma_text_upto_len(self.height);
        self.lemma_text_upto_char(self.height, row, col);
    }
}

} // verus!
