//! Cell coordinates and their two-character labels.

use vstd::prelude::*;
use vstd::string::*;

verus! {

/// The only way a move can be refused.
#[derive(Clone, Copy, Debug, PartialEq, Eq, Structural)]
pub enum MoveError {
    /// The label names no cell of the grid, or the cell is already marked.
    InvalidCell,
}

/// A row of the grid, labelled `a`, `b`, `c` from top to bottom.
#[derive(Clone, Copy, Debug, PartialEq, Eq, Hash, Structural)]
pub enum Row {
    A,
    B,
    C,
}

/// A column of the grid, labelled `1`, `2`, `3` from left to right.
#[derive(Clone, Copy, Debug, PartialEq, Eq, Hash, Structural)]
pub enum Col {
    One,
    Two,
    Three,
}

/// One of the nine cells of the grid.
#[derive(Clone, Copy, Debug, PartialEq, Eq, Hash, Structural)]
pub struct Coordinate {
    pub row: Row,
    pub col: Col,
}

impl Row {
    /// The position of the row, counted from the top.
    pub open spec fn spec_index(self) -> int {
        match self {
            Row::A => 0,
            Row::B => 1,
            Row::C => 2,
        }
    }

    /// The character that labels the row.
    pub open spec fn spec_label(self) -> char {
        match self {
            Row::A => 'a',
            Row::B => 'b',
            Row::C => 'c',
        }
    }

    /// The position of the row, counted from the top.
    pub fn index(self) -> (i: usize)
        ensures
            i == self.spec_index(),
    {
        match self {
            Row::A => 0,
            Row::B => 1,
            Row::C => 2,
        }
    }

    /// The character that labels the row.
    #[verifier::when_used_as_spec(spec_label)]
    pub fn label(self) -> (ch: char)
        ensures
            ch == self.spec_label(),
    {
        match self {
            Row::A => 'a',
            Row::B => 'b',
            Row::C => 'c',
        }
    }

    /// The row that `ch` labels, if it labels one.
    pub open spec fn spec_from_label(ch: char) -> Option<Row> {
        if ch == 'a' {
            Some(Row::A)
        } else if ch == 'b' {
            Some(Row::B)
        } else if ch == 'c' {
            Some(Row::C)
        } else {
            None
        }
    }

    /// The row that `ch` labels, if it labels one.
    #[verifier::when_used_as_spec(spec_from_label)]
    pub fn from_label(ch: char) -> (r: Option<Row>)
        ensures
            r == Row::spec_from_label(ch),
    {
        if ch == 'a' {
            Some(Row::A)
        } else if ch == 'b' {
            Some(Row::B)
        } else if ch == 'c' {
            Some(Row::C)
        } else {
            None
        }
    }
}

impl Col {
    /// The position of the column, counted from the left.
    pub open spec fn spec_index(self) -> int {
        match self {
            Col::One => 0,
            Col::Two => 1,
            Col::Three => 2,
        }
    }

    /// The character that labels the column.
    pub open spec fn spec_label(self) -> char {
        match self {
            Col::One => '1',
            Col::Two => '2',
            Col::Three => '3',
        }
    }

    /// The position of the column, counted from the left.
    pub fn index(self) -> (i: usize)
        ensures
            i == self.spec_index(),
    {
        match self {
            Col::One => 0,
            Col::Two => 1,
            Col::Three => 2,
        }
    }

    /// The character that labels the column.
    #[verifier::when_used_as_spec(spec_label)]
    pub fn label(self) -> (ch: char)
        ensures
            ch == self.spec_label(),
    {
        match self {
            Col::One => '1',
            Col::Two => '2',
            Col::Three => '3',
        }
    }

    /// The column that `ch` labels, if it labels one.
    pub open spec fn spec_from_label(ch: char) -> Option<Col> {
        if ch == '1' {
            Some(Col::One)
        } else if ch == '2' {
            Some(Col::Two)
        } else if ch == '3' {
            Some(Col::Three)
        } else {
            None
        }
    }

    /// The column that `ch` labels, if it labels one.
    #[verifier::when_used_as_spec(spec_from_label)]
    pub fn from_label(ch: char) -> (r: Option<Col>)
        ensures
            r == Col::spec_from_label(ch),
    {
        if ch == '1' {
            Some(Col::One)
        } else if ch == '2' {
            Some(Col::Two)
        } else if ch == '3' {
            Some(Col::Three)
        } else {
            None
        }
    }
}

/// The cell in row `row` and column `col`.
pub open spec fn cell(row: Row, col: Col) -> Coordinate {
    Coordinate { row, col }
}

/// The cell that a label names: a row letter followed by a column digit, and
/// nothing else. Any other text names no cell.
pub open spec fn cell_of_label(label: Seq<char>) -> Option<Coordinate> {
    if label.len() != 2 {
        None
    } else {
        match (Row::spec_from_label(label[0]), Col::spec_from_label(label[1])) {
            (Some(row), Some(col)) => Some(cell(row, col)),
            _ => None,
        }
    }
}

impl Coordinate {
    /// The position of the cell when the grid is read row by row.
    pub open spec fn spec_index(self) -> int {
        3 * self.row.spec_index() + self.col.spec_index()
    }

    /// The label of the cell: its row letter, then its column digit.
    pub open spec fn spec_label(self) -> Seq<char> {
        seq![self.row.spec_label(), self.col.spec_label()]
    }

    /// The label of the cell as text.
    pub fn label(self) -> (s: &'static str)
        ensures
            s@ == self.spec_label(),
    {
        proof {
            reveal_strlit("a1");
            reveal_strlit("a2");
            reveal_strlit("a3");
            reveal_strlit("b1");
            reveal_strlit("b2");
            reveal_strlit("b3");
            reveal_strlit("c1");
            reveal_strlit("c2");
            reveal_strlit("c3");
        }
        let s = match (self.row, self.col) {
            (Row::A, Col::One) => "a1",
            (Row::A, Col::Two) => "a2",
            (Row::A, Col::Three) => "a3",
            (Row::B, Col::One) => "b1",
            (Row::B, Col::Two) => "b2",
            (Row::B, Col::Three) => "b3",
            (Row::C, Col::One) => "c1",
            (Row::C, Col::Two) => "c2",
            (Row::C, Col::Three) => "c3",
        };
        assert(s@ =~= self.spec_label());
        s
    }

    /// Reads a cell label. This is the one way from text to a coordinate.
    pub fn parse(label: &str) -> (r: Result<Coordinate, MoveError>)
        ensures
            r == match cell_of_label(label@) {
                Some(c) => Ok(c),
                None => Err(MoveError::InvalidCell),
            },
    {
        if label.unicode_len() != 2 {
            return Err(MoveError::InvalidCell);
        }
        match (Row::from_label(label.get_char(0)), Col::from_label(label.get_char(1))) {
            (Some(row), Some(col)) => Ok(Coordinate { row, col }),
            _ => Err(MoveError::InvalidCell),
        }
    }
}

/// Reading the label of a cell gives that cell back.
pub proof fn lemma_label_round_trip(c: Coordinate)
    ensures
        cell_of_label(c.spec_label()) == Some(c),
{
}

/// A text names a cell only if it is that cell's label.
pub proof fn lemma_label_unique(label: Seq<char>, c: Coordinate)
    requires
        cell_of_label(label) == Some(c),
    ensures
        label == c.spec_label(),
{
    assert(label =~= c.spec_label());
}

} // verus!
