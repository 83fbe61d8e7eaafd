//! The state of a single grid position.

use vstd::prelude::*;

verus! {

/// Glyph that renders a dead cell (a hollow square).
pub const DEAD_GLYPH: char = '\u{25FB}';

/// Glyph that renders a live cell (a filled square).
pub const ALIVE_GLYPH: char = '\u{25FC}';

/// One grid position: dead or alive.
#[derive(Clone, Copy, Debug, PartialEq, Eq, Structural)]
pub enum Cell {
    Dead,
    Alive,
}

impl Cell {
    /// What the cell adds to a neighbour count: 1 when alive, 0 when dead.
    pub open spec fn count(self) -> nat {
        match self {
            Cell::Dead => 0,
            Cell::Alive => 1,
        }
    }

    /// The glyph that stands for the cell in rendered text.
    pub open spec fn glyph(self) -> char {
        match self {
            Cell::Dead => DEAD_GLYPH,
            Cell::Alive => ALIVE_GLYPH,
        }
    }

    /// The cell's state one generation later, given how many of its eight
    /// neighbours are alive: alive exactly when three neighbours are alive,
    /// or when two are and the cell already lives.
    pub open spec fn next(self, live_neighbors: nat) -> Cell {
        if live_neighbors == 3 || (self == Cell::Alive && live_neighbors == 2) {
            Cell::Alive
        } else {
            Cell::Dead
        }
    }

    /// The numeric projection of the cell, for summing neighbours.
    pub fn as_count(self) -> (n: u8)
        ensures
            n == self.count(),
    {
        match self {
            Cell::Dead => 0,
            Cell::Alive => 1,
        }
    }

    /// The glyph that renders this cell, as a string of one character.
    pub fn glyph_str(self) -> (glyph: &'static str)
        ensures
            glyph@ == seq![self.glyph()],
    {
        proof {
            reveal_strlit("\u{25FB}");
            reveal_strlit("\u{25FC}");
        }
        match self {
            Cell::Dead => {
                assert("\u{25FB}"@ =~= seq![DEAD_GLYPH]);
                "\u{25FB}"
            },
            Cell::Alive => {
                assert("\u{25FC}"@ =~= seq![ALIVE_GLYPH]);
                "\u{25FC}"
            },
        }
    }

    /// Applies the rules of the game to one cell.
    pub fn next_state(self, live_neighbors: u8) -> (next: Cell)
        ensures
            next == self.next(live_neighbors as nat),
    {
        match self {
            Cell::Alive => {
                if live_neighbors < 2 {
                    Cell::Dead
                } else if live_neighbors == 2 || live_neighbors == 3 {
                    Cell::Alive
                } else {
                    Cell::Dead
                }
            },
            Cell::Dead => {
                if live_neighbors == 3 {
                    Cell::Alive
                } else {
                    Cell::Dead
                }
            },
        }
    }

    /// The rule table of the game, case by case: a live cell with fewer than
    /// two live neighbours dies, one with two or three lives on, one with more
    /// than three dies; a dead cell with exactly three live neighbours comes
    /// alive, and any other dead cell stays dead.
    pub proof fn lemma_rule_table(self, live_neighbors: nat)
        ensures
            self == Cell::Alive && live_neighbors < 2 ==> self.next(live_neighbors) == Cell::Dead,
            self == Cell::Alive && (live_neighbors == 2 || live_neighbors == 3) ==> self.next(
                live_neighbors,
            ) == Cell::Alive,
            self == Cell::Alive && live_neighbors > 3 ==> self.next(live_neighbors) == Cell::Dead,
            self == Cell::Dead && live_neighbors == 3 ==> self.next(live_neighbors) == Cell::Alive,
            self == Cell::Dead && live_neighbors != 3 ==> self.next(live_neighbors) == Cell::Dead,
    {
    }
}

} // verus!
