//! The grid of cells and its eight lines.

use vstd::prelude::*;
use crate::coord::{cell, Col, Coordinate, Row};
use crate::mark::{Cell, Mark};

verus! {

/// The 3×3 grid. Every grid of cell values is a board; that a mark is never
/// placed on an occupied cell is the engine's rule, not the board's.
#[derive(Clone, Copy, Debug, PartialEq, Eq)]
pub struct Board {
    pub cells: [[Cell; 3]; 3],
}

impl View for Board {
    type V = Map<Coordinate, Cell>;

    /// The board as a map from each of the nine cells to its value.
    open spec fn view(&self) -> Map<Coordinate, Cell> {
        Map::total(|c: Coordinate| self.cells@[c.row.spec_index()]@[c.col.spec_index()])
    }
}

/// The board on which nothing has been placed yet.
pub open spec fn empty_board() -> Map<Coordinate, Cell> {
    Map::total(|c: Coordinate| Cell::Empty)
}

/// The mark that holds all three of the cells `x`, `y`, `z`, if one does:
/// the three are equal and not empty.
pub open spec fn line_owner(
    board: Map<Coordinate, Cell>,
    x: Coordinate,
    y: Coordinate,
    z: Coordinate,
) -> Option<Mark> {
    match board[x] {
        Cell::Marked(m) => if board[y] == board[x] && board[z] == board[x] {
            Some(m)
        } else {
            None
        },
        Cell::Empty => None,
    }
}

/// The mark that holds the whole of row `row`, if one does.
pub open spec fn row_owner(board: Map<Coordinate, Cell>, row: Row) -> Option<Mark> {
    line_owner(board, cell(row, Col::One), cell(row, Col::Two), cell(row, Col::Three))
}

/// The mark that holds the whole of column `col`, if one does.
pub open spec fn col_owner(board: Map<Coordinate, Cell>, col: Col) -> Option<Mark> {
    line_owner(board, cell(Row::A, col), cell(Row::B, col), cell(Row::C, col))
}

/// The mark that holds the diagonal from the top left to the bottom right,
/// if one does.
pub open spec fn diagonal_owner(board: Map<Coordinate, Cell>) -> Option<Mark> {
    line_owner(board, cell(Row::A, Col::One), cell(Row::B, Col::Two), cell(Row::C, Col::Three))
}

/// The mark that holds the diagonal from the top right to the bottom left,
/// if one does.
pub open spec fn anti_diagonal_owner(board: Map<Coordinate, Cell>) -> Option<Mark> {
    line_owner(board, cell(Row::A, Col::Three), cell(Row::B, Col::Two), cell(Row::C, Col::One))
}

/// Some row, column or diagonal is entirely marked `m`.
pub open spec fn has_line(board: Map<Coordinate, Cell>, m: Mark) -> bool {
    ||| exists|row: Row| row_owner(board, row) == Some(m)
    ||| exists|col: Col| col_owner(board, col) == Some(m)
    ||| diagonal_owner(board) == Some(m)
    ||| anti_diagonal_owner(board) == Some(m)
}

impl Board {
    /// The board with every cell empty.
    pub fn empty() -> (b: Board)
        ensures
            b@ == empty_board(),
    {
        let b = Board { cells: [[Cell::Empty; 3]; 3] };
        assert(b@ =~= empty_board());
        b
    }

    /// The value of the cell at `c`.
    pub fn get(&self, c: Coordinate) -> (x: Cell)
        ensures
            x == self@[c],
    {
        self.cells[c.row.index()][c.col.index()]
    }

    /// Gives the cell at `c` the value `x`, whatever it held before.
    pub fn set(&mut self, c: Coordinate, x: Cell)
        ensures
            final(self)@ == old(self)@.insert(c, x),
    {
        self.cells[c.row.index()][c.col.index()] = x;
        assert(self@ =~= old(self)@.insert(c, x));
    }

    /// The mark that holds all three of the cells `x`, `y`, `z`, if one does.
    pub fn line_owner(&self, x: Coordinate, y: Coordinate, z: Coordinate) -> (r: Option<Mark>)
        ensures
            r == line_owner(self@, x, y, z),
    {
        let first = self.get(x);
        match first {
            Cell::Marked(m) => if self.get(y) == first && self.get(z) == first {
                Some(m)
            } else {
                None
            },
            Cell::Empty => None,
        }
    }

    /// The mark that holds the whole of row `row`, if one does.
    pub fn row_owner(&self, row: Row) -> (r: Option<Mark>)
        ensures
            r == row_owner(self@, row),
    {
        self.line_owner(
            Coordinate { row, col: Col::One },
            Coordinate { row, col: Col::Two },
            Coordinate { row, col: Col::Three },
        )
    }

    /// The mark that holds the whole of column `col`, if one does.
    pub fn col_owner(&self, col: Col) -> (r: Option<Mark>)
        ensures
            r == col_owner(self@, col),
    {
        self.line_owner(
            Coordinate { row: Row::A, col },
            Coordinate { row: Row::B, col },
            Coordinate { row: Row::C, col },
        )
    }

    /// The mark that holds the diagonal from the top left to the bottom
    /// right, if one does.
    pub fn diagonal_owner(&self) -> (r: Option<Mark>)
        ensures
            r == diagonal_owner(self@),
    {
        self.line_owner(
            Coordinate { row: Row::A, col: Col::One },
            Coordinate { row: Row::B, col: Col::Two },
            Coordinate { row: Row::C, col: Col::Three },
        )
    }

    /// The mark that holds the diagonal from the top right to the bottom
    /// left, if one does.
    pub fn anti_diagonal_owner(&self) -> (r: Option<Mark>)
        ensures
            r == anti_diagonal_owner(self@),
    {
        self.line_owner(
            Coordinate { row: Row::A, col: Col::Three },
            Coordinate { row: Row::B, col: Col::Two },
            Coordinate { row: Row::C, col: Col::One },
        )
    }
}

} // verus!
