//! What a position amounts to: a win, a draw, or a game still in progress.

use vstd::prelude::*;
use crate::board::{
    anti_diagonal_owner, col_owner, diagonal_owner, has_line, row_owner, Board,
};
use crate::coord::{Col, Coordinate, Row};
use crate::free_cells::FreeCellSet;
use crate::mark::{Cell, Mark};

verus! {

/// The result of evaluating a position. It is never stored: it is computed
/// anew after each move.
#[derive(Clone, Copy, Debug, PartialEq, Eq, Structural)]
pub enum Outcome {
    /// No line is complete and a cell is still free.
    InProgress,
    /// A line is entirely marked with this mark.
    Win(Mark),
    /// No line is complete and no cell is free.
    Draw,
}

/// `a` if it holds a mark, else `b`.
pub open spec fn first_of(a: Option<Mark>, b: Option<Mark>) -> Option<Mark> {
    if a is Some {
        a
    } else {
        b
    }
}

/// The owner of the first complete row, from the top.
pub open spec fn rows_winner(board: Map<Coordinate, Cell>) -> Option<Mark> {
    first_of(
        row_owner(board, Row::A),
        first_of(row_owner(board, Row::B), row_owner(board, Row::C)),
    )
}

/// The owner of the first complete column, from the left.
pub open spec fn cols_winner(board: Map<Coordinate, Cell>) -> Option<Mark> {
    first_of(
        col_owner(board, Col::One),
        first_of(col_owner(board, Col::Two), col_owner(board, Col::Three)),
    )
}

/// The owner of the first complete line, where rows come before columns and
/// columns before the two diagonals.
pub open spec fn winner(board: Map<Coordinate, Cell>) -> Option<Mark> {
    first_of(
        rows_winner(board),
        first_of(
            cols_winner(board),
            first_of(diagonal_owner(board), anti_diagonal_owner(board)),
        ),
    )
}

/// The outcome of a position: a win for the owner of the first complete
/// line; without one, a draw if no cell is free; else the game goes on.
pub open spec fn outcome(board: Map<Coordinate, Cell>, free: Seq<Coordinate>) -> Outcome {
    match winner(board) {
        Some(m) => Outcome::Win(m),
        None => if free.len() == 0 {
            Outcome::Draw
        } else {
            Outcome::InProgress
        },
    }
}

impl Outcome {
    /// Whether the game is over.
    pub open spec fn spec_is_terminal(self) -> bool {
        !(self is InProgress)
    }

    /// The line of text that announces the outcome.
    pub open spec fn spec_status(self) -> Seq<char> {
        match self {
            Outcome::Win(Mark::X) => "x won!"@,
            Outcome::Win(Mark::O) => "o won!"@,
            Outcome::Draw => "its a draw"@,
            Outcome::InProgress => "nil"@,
        }
    }

    /// The line of text that announces the outcome.
    pub fn status(self) -> (s: &'static str)
        ensures
            s@ == self.spec_status(),
    {
        match self {
            Outcome::Win(Mark::X) => "x won!",
            Outcome::Win(Mark::O) => "o won!",
            Outcome::Draw => "its a draw",
            Outcome::InProgress => "nil",
        }
    }

    /// Whether the game is over.
    #[verifier::when_used_as_spec(spec_is_terminal)]
    pub fn is_terminal(self) -> (b: bool)
        ensures
            b == self.spec_is_terminal(),
    {
        match self {
            Outcome::InProgress => false,
            _ => true,
        }
    }
}

/// Evaluates a position. The result depends on the board and on whether a
/// cell is free, and on nothing else.
pub fn game_logic(board: &Board, free_cells: &FreeCellSet) -> (o: Outcome)
    ensures
        o == outcome(board@, free_cells@),
{
    let rows = [Row::A, Row::B, Row::C];
    let mut i: usize = 0;
    while i < 3
        invariant
            i <= 3,
            rows@ =~= seq![Row::A, Row::B, Row::C],
            forall|j: int| 0 <= j < i ==> row_owner(board@, #[trigger] rows@[j]) is None,
        decreases 3 - i,
    {
        if let Some(m) = board.row_owner(rows[i]) {
            return Outcome::Win(m);
        }
        i += 1;
    }
    assert(rows@[0] == Row::A && rows@[1] == Row::B && rows@[2] == Row::C);
    let cols = [Col::One, Col::Two, Col::Three];
    let mut k: usize = 0;
    while k < 3
        invariant
            k <= 3,
            cols@ =~= seq![Col::One, Col::Two, Col::Three],
            rows_winner(board@) is None,
            forall|j: int| 0 <= j < k ==> col_owner(board@, #[trigger] cols@[j]) is None,
        decreases 3 - k,
    {
        if let Some(m) = board.col_owner(cols[k]) {
            return Outcome::Win(m);
        }
        k += 1;
    }
    assert(cols@[0] == Col::One && cols@[1] == Col::Two && cols@[2] == Col::Three);
    if let Some(m) = board.diagonal_owner() {
        return Outcome::Win(m);
    }
    if let Some(m) = board.anti_diagonal_owner() {
        return Outcome::Win(m);
    }
    if free_cells.is_empty() {
        Outcome::Draw
    } else {
        Outcome::InProgress
    }
}

/// The first complete line is a complete line: the winner holds one, and
/// there is a winner as soon as either mark holds one.
pub proof fn lemma_winner_holds_line(board: Map<Coordinate, Cell>)
    ensures
        winner(board) matches Some(m) ==> has_line(board, m),
        winner(board) is None <==> !has_line(board, Mark::X) && !has_line(board, Mark::O),
{
    if winner(board) is None {
        assert forall|m: Mark| !has_line(board, m) by {
            assert forall|row: Row| row_owner(board, row) != Some(m) by {
                assert(row == Row::A || row == Row::B || row == Row::C);
            }
            assert forall|col: Col| col_owner(board, col) != Some(m) by {
                assert(col == Col::One || col == Col::Two || col == Col::Three);
            }
        }
    } else {
        let m = winner(board)->0;
        assert(has_line(board, m)) by {
            if rows_winner(board) is Some {
                let row = if row_owner(board, Row::A) is Some {
                    Row::A
                } else if row_owner(board, Row::B) is Some {
                    Row::B
                } else {
                    Row::C
                };
                assert(row_owner(board, row) == Some(m));
            } else if cols_winner(board) is Some {
                let col = if col_owner(board, Col::One) is Some {
                    Col::One
                } else if col_owner(board, Col::Two) is Some {
                    Col::Two
                } else {
                    Col::Three
                };
                assert(col_owner(board, col) == Some(m));
            }
        }
        assert(m == Mark::X || m == Mark::O);
    }
}

/// The outcome is a win exactly when some line is complete, and then for a
/// mark that holds one; a draw exactly when no line is complete and no cell
/// is free; and the game is in progress otherwise.
pub proof fn lemma_outcome_cases(board: Map<Coordinate, Cell>, free: Seq<Coordinate>)
    ensures
        outcome(board, free) matches Outcome::Win(m) ==> has_line(board, m),
        outcome(board, free) is Win <==> has_line(board, Mark::X) || has_line(board, Mark::O),
        outcome(board, free) is Draw <==> free.len() == 0 && !has_line(board, Mark::X) && !has_line(
            board,
            Mark::O,
        ),
        outcome(board, free) is InProgress <==> free.len() != 0 && !has_line(board, Mark::X)
            && !has_line(board, Mark::O),
{
    lemma_winner_holds_line(board);
}

/// Where the two marks do not both hold a line, the outcome is a win for `m`
/// if and only if `m` holds a line.
pub proof fn lemma_win_iff_line(board: Map<Coordinate, Cell>, free: Seq<Coordinate>, m: Mark)
    requires
        !(has_line(board, Mark::X) && has_line(board, Mark::O)),
    ensures
        outcome(board, free) == Outcome::Win(m) <==> has_line(board, m),
{
    lemma_winner_holds_line(board);
}

} // verus!
