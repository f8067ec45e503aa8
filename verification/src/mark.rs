//! Marks, cell values and the assignment of marks to the two players.

use vstd::prelude::*;
use vstd::string::*;

verus! {

/// The symbol a player places in a cell.
#[derive(Clone, Copy, Debug, PartialEq, Eq, Hash, Structural)]
pub enum Mark {
    X,
    O,
}

/// The value of one cell of the board.
#[derive(Clone, Copy, Debug, PartialEq, Eq, Hash, Structural)]
pub enum Cell {
    Empty,
    Marked(Mark),
}

/// The one error of the side choice that opens a game. It is fatal: no game
/// is played after it.
#[derive(Clone, Copy, Debug, PartialEq, Eq, Structural)]
pub enum StartupError {
    /// The text entered names neither of the two marks.
    InvalidSideChoice,
}

impl Mark {
    /// The mark of the opponent.
    pub open spec fn spec_other(self) -> Mark {
        match self {
            Mark::X => Mark::O,
            Mark::O => Mark::X,
        }
    }

    /// The character a mark is drawn with.
    pub open spec fn spec_symbol(self) -> char {
        match self {
            Mark::X => 'x',
            Mark::O => 'o',
        }
    }

    /// The mark of the opponent.
    #[verifier::when_used_as_spec(spec_other)]
    pub fn other(self) -> (m: Mark)
        ensures
            m == self.spec_other(),
            m != self,
    {
        match self {
            Mark::X => Mark::O,
            Mark::O => Mark::X,
        }
    }

    /// The character a mark is drawn with.
    #[verifier::when_used_as_spec(spec_symbol)]
    pub fn symbol(self) -> (ch: char)
        ensures
            ch == self.spec_symbol(),
    {
        match self {
            Mark::X => 'x',
            Mark::O => 'o',
        }
    }
}

impl Cell {
    /// The character a cell is drawn with: `_` while it is empty, else the
    /// symbol of its mark.
    pub open spec fn spec_symbol(self) -> char {
        match self {
            Cell::Empty => '_',
            Cell::Marked(m) => m.spec_symbol(),
        }
    }

    /// The character a cell is drawn with.
    #[verifier::when_used_as_spec(spec_symbol)]
    pub fn symbol(self) -> (ch: char)
        ensures
            ch == self.spec_symbol(),
    {
        match self {
            Cell::Empty => '_',
            Cell::Marked(m) => m.symbol(),
        }
    }

    /// Whether the cell holds no mark.
    pub fn is_empty(self) -> (b: bool)
        ensures
            b == (self is Empty),
    {
        match self {
            Cell::Empty => true,
            Cell::Marked(_) => false,
        }
    }
}

/// Which mark the human plays and which the computer. The two always differ,
/// and stay as they are for the whole game.
#[derive(Clone, Copy, Debug, PartialEq, Eq, Structural)]
pub struct PlayerAssignment {
    /// The mark of the human player. The computer has the other one.
    pub human: Mark,
}

/// The side that a text entered by the human names: `x` or `o`, in either
/// case, and nothing else.
pub open spec fn side_of(choice: Seq<char>) -> Option<Mark> {
    if choice.len() != 1 {
        None
    } else if choice[0] == 'x' || choice[0] == 'X' {
        Some(Mark::X)
    } else if choice[0] == 'o' || choice[0] == 'O' {
        Some(Mark::O)
    } else {
        None
    }
}

impl PlayerAssignment {
    /// The mark of the computer: the one the human did not take.
    pub open spec fn spec_computer(self) -> Mark {
        self.human.spec_other()
    }

    /// The assignment in which the human plays `human`.
    pub fn new(human: Mark) -> (p: PlayerAssignment)
        ensures
            p == (PlayerAssignment { human }),
    {
        PlayerAssignment { human }
    }

    /// The mark of the computer.
    #[verifier::when_used_as_spec(spec_computer)]
    pub fn computer(self) -> (m: Mark)
        ensures
            m == self.spec_computer(),
            m != self.human,
    {
        self.human.other()
    }

    /// Reads the human's choice of side. The human gets the mark the text
    /// names, the computer the other one.
    pub fn parse(choice: &str) -> (r: Result<PlayerAssignment, StartupError>)
        ensures
            r == match side_of(choice@) {
                Some(human) => Ok(PlayerAssignment { human }),
                None => Err(StartupError::InvalidSideChoice),
            },
    {
        if choice.unicode_len() != 1 {
            return Err(StartupError::InvalidSideChoice);
        }
        let ch = choice.get_char(0);
        if ch == 'x' || ch == 'X' {
            Ok(PlayerAssignment::new(Mark::X))
        } else if ch == 'o' || ch == 'O' {
            Ok(PlayerAssignment::new(Mark::O))
        } else {
            Err(StartupError::InvalidSideChoice)
        }
    }
}

} // verus!
