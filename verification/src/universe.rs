//! The executable simulation state and its operations.

use crate::cell::Cell;
use crate::grid::Grid;
use crate::grid::seed_cell;
use crate::ring::lemma_index_of_position;
use crate::ring::lemma_wrap_backward;
use vstd::prelude::*;

verus! {

/// Why a grid could not be constructed.
#[derive(Clone, Copy, Debug, PartialEq, Eq, Structural)]
pub enum GridError {
    /// A dimension is zero, or the cells given do not fill the grid exactly.
    InvalidDimensions,
}

/// The simulation state: a `width` by `height` torus of cells.
#[derive(Debug, PartialEq, Eq)]
pub struct Universe {
    width: u32,
    height: u32,
    cells: Vec<Cell>,
}

impl View for Universe {
    type V = Grid;

    closed spec fn view(&self) -> Grid {
        Grid { width: self.width as nat, height: self.height as nat, cells: self.cells@ }
    }
}

impl Universe {
    /// Every universe models a valid grid: positive dimensions and one cell
    /// per position.
    #[verifier::type_invariant]
    spec fn well_formed(&self) -> bool {
        self@.valid()
    }

    /// The cells of a freshly seeded grid with `count` positions.
    fn seed_cells(count: usize) -> (cells: Vec<Cell>)
        ensures
            cells@ == Seq::new(count as nat, |i: int| seed_cell(i)),
    {
        let mut cells: Vec<Cell> = Vec::new();
        for i in 0..count
            invariant
                cells@.len() == i,
                forall|j: int| 0 <= j < i ==> cells@[j] == seed_cell(j),
        {
            let cell = if i % 2 == 0 || i % 7 == 0 {
                Cell::Alive
            } else {
                Cell::Dead
            };
            cells.push(cell);
        }
        assert(cells@ =~= Seq::new(count as nat, |i: int| seed_cell(i)));
        cells
    }

    /// The standard 64 by 64 grid, seeded with the initial pattern.
    pub fn new() -> (universe: Universe)
        ensures
            universe@ == Grid::seeded(64, 64),
            universe@.valid(),
    {
        let width: u32 = 64;
        let height: u32 = 64;
        let cells = Self::seed_cells(64 * 64);
        Universe { width, height, cells }
    }

    /// A grid of the given dimensions, seeded with the initial pattern, or
    /// `InvalidDimensions` when a dimension is zero. The number of cells has
    /// to be one that the machine can address.
    pub fn with_dimensions(width: u32, height: u32) -> (result: Result<Universe, GridError>)
        requires
            width * height <= usize::MAX,
        ensures
            result is Ok <==> (width > 0 && height > 0),
            result is Err ==> result == Err::<Universe, GridError>(GridError::InvalidDimensions),
            result matches Ok(universe) ==> universe@ == Grid::seeded(width as nat, height as nat)
                && universe@.valid(),
    {
        if width == 0 || height == 0 {
            return Err(GridError::InvalidDimensions);
        }
        let cells = Self::seed_cells((width as usize) * (height as usize));
        Ok(Universe { width, height, cells })
    }

    /// A grid of the given dimensions holding the given cells in row-major
    /// order, or `InvalidDimensions` when a dimension is zero or the number
    /// of cells is not `width * height`.
    pub fn from_cells(width: u32, height: u32, cells: Vec<Cell>) -> (result: Result<
        Universe,
        GridError,
    >)
        ensures
            result is Ok <==> (width > 0 && height > 0 && cells@.len() == width * height),
            result is Err ==> result == Err::<Universe, GridError>(GridError::InvalidDimensions),
            result matches Ok(universe) ==> universe@ == (Grid {
                width: width as nat,
                height: height as nat,
                cells: cells@,
            }) && universe@.valid(),
    {
        if width == 0 || height == 0 {
            return Err(GridError::InvalidDimensions);
        }
        assert(width * height <= u64::MAX) by (nonlinear_arith)
            requires
                width <= u32::MAX,
                height <= u32::MAX,
        ;
        if cells.len() as u64 != (width as u64) * (height as u64) {
            return Err(GridError::InvalidDimensions);
        }
        Ok(Universe { width, height, cells })
    }

    /// The number of columns.
    pub fn width(&self) -> (width: u32)
        ensures
            width == self@.width,
            self@.valid(),
    {
        proof {
            use_type_invariant(self);
        }
        self.width
    }

    /// The number of rows.
    pub fn height(&self) -> (height: u32)
        ensures
            height == self@.height,
            self@.valid(),
    {
        proof {
            use_type_invariant(self);
        }
        self.height
    }

    /// The cells in row-major order.
    pub fn cells(&self) -> (cells: &Vec<Cell>)
        ensures
            cells@ == self@.cells,
            self@.valid(),
    {
        proof {
            use_type_invariant(self);
        }
        &self.cells
    }

    /// The row-major index of a position inside the grid.
    fn get_index(&self, row: u32, column: u32) -> (index: usize)
        requires
            row < self@.height,
            column < self@.width,
        ensures
            index == row * self@.width + column,
            index < self@.cells.len(),
    {
        proof {
            use_type_invariant(self);
            lemma_index_of_position(
                row as int,
                column as int,
                self.width as int,
                self.height as int,
            );
            assert(self.cells.len() <= usize::MAX);
        }
        (row as usize) * (self.width as usize) + (column as usize)
    }

    /// The cell reached from `(row, column)` by moving the given numbers of
    /// rows down and columns right, around the torus.
    fn cell_at_offset(&self, row: u32, row_offset: u32, column: u32, column_offset: u32) -> (cell:
        Cell)
        ensures
            cell == self@.at(row + row_offset, column + column_offset),
    {
        proof {
            use_type_invariant(self);
        }
        let neighbor_row = ((row as u64 + row_offset as u64) % (self.height as u64)) as u32;
        let neighbor_column = ((column as u64 + column_offset as u64) % (self.width as u64)) as u32;
        let index = self.get_index(neighbor_row, neighbor_column);
        self.cells[index]
    }

    /// The cell at `(row, column)`, each coordinate wrapped onto the torus.
    pub fn cell(&self, row: u32, column: u32) -> (cell: Cell)
        ensures
            cell == self@.at(row as int, column as int),
    {
        self.cell_at_offset(row, 0, column, 0)
    }

    /// How many of the eight neighbours of `(row, column)` are alive. The
    /// neighbours above and to the left are reached by moving `height - 1`
    /// rows down and `width - 1` columns right, which on a torus is one step
    /// back.
    pub fn live_neighbor_count(&self, row: u32, column: u32) -> (count: u8)
        ensures
            count == self@.live_neighbors(row as int, column as int),
            count <= 8,
    {
        proof {
            use_type_invariant(self);
            lemma_wrap_backward(row as int, self.height as int);
            lemma_wrap_backward(column as int, self.width as int);
        }
        let up = self.height - 1;
        let left = self.width - 1;
        let above = self.cell_at_offset(row, up, column, left).as_count() + self.cell_at_offset(
            row,
            up,
            column,
            0,
        ).as_count() + self.cell_at_offset(row, up, column, 1).as_count();
        let beside = self.cell_at_offset(row, 0, column, left).as_count() + self.cell_at_offset(
            row,
            0,
            column,
            1,
        ).as_count();
        let below = self.cell_at_offset(row, 1, column, left).as_count() + self.cell_at_offset(
            row,
            1,
            column,
            0,
        ).as_count() + self.cell_at_offset(row, 1, column, 1).as_count();
        above + beside + below
    }

    /// Advances the grid by one generation. Every cell of the new generation
    /// is computed from the current one, which is replaced only when the new
    /// one is complete.
    pub fn tick(&mut self)
        ensures
            final(self)@ == old(self)@.step(),
            final(self)@.valid(),
            final(self)@.width == old(self)@.width,
            final(self)@.height == old(self)@.height,
    {
        proof {
            use_type_invariant(&*self);
        }
        let mut next = self.cells.clone();
        assert(0 * self@.width == 0);
        for row in 0..self.height
            invariant
                *self == *old(self),
                self@.valid(),
                next@.len() == self@.cells.len(),
                forall|i: int| 0 <= i < row * self@.width ==> next@[i] == self@.next_cell(i),
        {
            for column in 0..self.width
                invariant
                    *self == *old(self),
                    self@.valid(),
                    row < self@.height,
                    next@.len() == self@.cells.len(),
                    forall|i: int|
                        0 <= i < row * self@.width + column ==> next@[i] == self@.next_cell(i),
            {
                let index = self.get_index(row, column);
                let cell = self.cells[index];
                let live_neighbors = self.live_neighbor_count(row, column);
                proof {
                    lemma_index_of_position(
                        row as int,
                        column as int,
                        self.width as int,
                        self.height as int,
                    );
                }
                next.set(index, cell.next_state(live_neighbors));
            }
            assert(row * self@.width + self@.width == (row + 1) * self@.width)
                by (nonlinear_arith);
        }
        assert(self@.height * self@.width == self@.width * self@.height) by (nonlinear_arith);
        assert(next@ =~= self@.step().cells);
        self.cells = next;
    }

    /// The grid as text: one line per row, one glyph per cell, every row
    /// closed by a newline.
    pub fn render(&self) -> (text: String)
        ensures
            text@ == self@.text(),
    {
        proof {
            use_type_invariant(self);
        }
        let mut text = String::new();
        for row in 0..self.height
            invariant
                self@.valid(),
                text@ == self@.text_upto(row as nat),
        {
            for column in 0..self.width
                invariant
                    self@.valid(),
                    row < self@.height,
                    text@ == self@.text_upto(row as nat) + self@.row_glyphs(row as int).take(
                        column as int,
                    ),
            {
                let index = self.get_index(row, column);
                text.append(self.cells[index].glyph_str());
                assert(self@.row_glyphs(row as int).take(column + 1) =~= self@.row_glyphs(
                    row as int,
                ).take(column as int).push(self@.cells[index as int].glyph()));
            }
            proof {
                reveal_strlit("\n");
                assert(self@.row_glyphs(row as int).take(self@.width as int) =~= self@.row_glyphs(
                    row as int,
                ));
            }
            text.append("\n");
            assert(text@ =~= self@.text_upto((row + 1) as nat));
        }
        text
    }
}

} // verus!
