//! The game engine: a board and the set of its free cells, kept in step.

use rand::rngs::ThreadRng;
use vstd::prelude::*;
use crate::board::{empty_board, Board};
use crate::coord::{cell_of_label, Coordinate, MoveError};
use crate::free_cells::{all_cells, in_reading_order, lemma_without, without, FreeCellSet};
use crate::mark::{Cell, Mark, PlayerAssignment};
use crate::outcome::{game_logic, outcome, Outcome};
use crate::random::random_below;

verus! {

/// What an engine holds, as plain mathematics.
pub struct EngineState {
    pub board: Map<Coordinate, Cell>,
    pub free: Seq<Coordinate>,
    pub players: PlayerAssignment,
}

impl EngineState {
    /// A cell is free if and only if the board holds no mark there.
    pub open spec fn complementary(self) -> bool {
        forall|c: Coordinate| #[trigger] self.free.contains(c) <==> self.board[c] is Empty
    }

    /// The state is one an engine can be in: the board has a value for every
    /// cell, the free cells stand in reading order, and they are exactly the
    /// empty cells of the board.
    pub open spec fn wf(self) -> bool {
        &&& self.board.dom() == Set::<Coordinate>::full()
        &&& in_reading_order(self.free)
        &&& self.complementary()
    }

    /// The state at the start of a game: nothing placed, every cell free.
    pub open spec fn initial(players: PlayerAssignment) -> EngineState {
        EngineState { board: empty_board(), free: all_cells(), players }
    }

    /// The state after `mark` was asked for at `c`: placed there if the cell
    /// was free, and nothing changed if it was not.
    pub open spec fn place(self, c: Coordinate, mark: Mark) -> EngineState {
        if self.free.contains(c) {
            EngineState {
                board: self.board.insert(c, Cell::Marked(mark)),
                free: without(self.free, c),
                players: self.players,
            }
        } else {
            self
        }
    }

    /// The state after `mark` was asked for at the cell that `label` names:
    /// nothing changes if it names none.
    pub open spec fn apply(self, label: Seq<char>, mark: Mark) -> EngineState {
        match cell_of_label(label) {
            Some(c) => self.place(c, mark),
            None => self,
        }
    }

    /// Whether a move at the cell that `label` names is accepted.
    pub open spec fn accepts(self, label: Seq<char>) -> bool {
        cell_of_label(label) matches Some(c) && self.free.contains(c)
    }

    /// The outcome of the state.
    pub open spec fn outcome(self) -> Outcome {
        outcome(self.board, self.free)
    }

    /// The state after each of `moves` was asked for in turn.
    pub open spec fn play(self, moves: Seq<(Coordinate, Mark)>) -> EngineState
        decreases moves.len(),
    {
        if moves.len() == 0 {
            self
        } else {
            self.play(moves.drop_last()).place(moves.last().0, moves.last().1)
        }
    }
}

/// The engine of one game. It owns the board and the free cells and changes
/// them together, one cell per accepted move.
#[derive(Debug)]
pub struct GameEngine {
    board: Board,
    free: FreeCellSet,
    players: PlayerAssignment,
}

impl View for GameEngine {
    type V = EngineState;

    closed spec fn view(&self) -> EngineState {
        EngineState { board: self.board@, free: self.free@, players: self.players }
    }
}

impl GameEngine {
    #[verifier::type_invariant]
    spec fn inv(self) -> bool {
        self@.wf()
    }

    /// The engine at the start of a game.
    pub fn new(players: PlayerAssignment) -> (e: GameEngine)
        ensures
            e@ == EngineState::initial(players),
            e@.wf(),
    {
        let e = GameEngine { board: Board::empty(), free: FreeCellSet::full(), players };
        proof {
            lemma_initial_wf(players);
        }
        e
    }

    /// An engine with nothing left to play on: every cell holds a mark and
    /// no cell is free. It stands in for the engine while a move is being
    /// made.
    fn spent(players: PlayerAssignment) -> (e: GameEngine)
        ensures
            e@.board == Map::total(|c: Coordinate| Cell::Marked(Mark::X)),
            e@.free == Seq::<Coordinate>::empty(),
            e@.players == players,
            e@.wf(),
    {
        let board = Board { cells: [[Cell::Marked(Mark::X); 3]; 3] };
        let e = GameEngine { board, free: FreeCellSet::empty(), players };
        assert(e@.board =~= Map::total(|c: Coordinate| Cell::Marked(Mark::X)));
        e
    }

    /// The board.
    pub fn board(&self) -> (b: &Board)
        ensures
            b@ == self@.board,
            self@.wf(),
    {
        proof {
            use_type_invariant(self);
        }
        &self.board
    }

    /// The free cells.
    pub fn free_cells(&self) -> (f: &FreeCellSet)
        ensures
            f@ == self@.free,
            self@.wf(),
    {
        proof {
            use_type_invariant(self);
        }
        &self.free
    }

    /// Who plays which mark.
    pub fn players(&self) -> (p: PlayerAssignment)
        ensures
            p == self@.players,
    {
        self.players
    }

    /// Places `mark` at `c` if the cell is free, and takes the cell out of
    /// the free cells. An occupied cell is refused and nothing changes.
    pub fn place(&mut self, c: Coordinate, mark: Mark) -> (r: Result<(), MoveError>)
        ensures
            final(self)@ == old(self)@.place(c, mark),
            final(self)@.wf(),
            r == if old(self)@.free.contains(c) {
                Ok(())
            } else {
                Err(MoveError::InvalidCell)
            },
            old(self)@.board[c] is Marked ==> r == Err::<(), MoveError>(MoveError::InvalidCell)
                && final(self)@ == old(self)@,
            r is Ok ==> final(self)@.free.len() == old(self)@.free.len() - 1,
    {
        proof {
            use_type_invariant(&*self);
            lemma_place_shrinks(self@, c, mark);
        }
        if !self.free.contains(c) {
            return Err(MoveError::InvalidCell);
        }
        let mut taken = GameEngine::spent(self.players);
        std::mem::swap(self, &mut taken);
        let GameEngine { mut board, mut free, players } = taken;
        board.set(c, Cell::Marked(mark));
        free.remove(c);
        proof {
            lemma_place_wf(old(self)@, c, mark);
        }
        *self = GameEngine { board, free, players };
        Ok(())
    }

    /// Reads `cell` as a label and places `mark` there. A text that names no
    /// cell of the grid and a cell that is not free are refused alike, and
    /// then nothing changes.
    pub fn apply_move(&mut self, cell: &str, mark: Mark) -> (r: Result<(), MoveError>)
        ensures
            final(self)@ == old(self)@.apply(cell@, mark),
            final(self)@.wf(),
            r == if old(self)@.accepts(cell@) {
                Ok(())
            } else {
                Err(MoveError::InvalidCell)
            },
            cell_of_label(cell@) is None ==> r == Err::<(), MoveError>(MoveError::InvalidCell)
                && final(self)@ == old(self)@,
            cell_of_label(cell@) matches Some(c) && old(self)@.board[c] is Marked ==> r
                == Err::<(), MoveError>(MoveError::InvalidCell) && final(self)@ == old(self)@,
            r is Ok ==> final(self)@.free.len() == old(self)@.free.len() - 1,
    {
        proof {
            use_type_invariant(&*self);
        }
        match Coordinate::parse(cell) {
            Ok(c) => self.place(c, mark),
            Err(e) => Err(e),
        }
    }

    /// The outcome of the game as it stands.
    pub fn evaluate(&self) -> (o: Outcome)
        ensures
            o == self@.outcome(),
    {
        game_logic(&self.board, &self.free)
    }

    /// The free cell at position `i` of the free cells.
    pub fn free_cell_at(&self, i: usize) -> (r: Option<Coordinate>)
        ensures
            r == if i < self@.free.len() { Some(self@.free[i as int]) } else { None },
            r matches Some(c) ==> self@.free.contains(c) && self@.board[c] is Empty,
    {
        proof {
            use_type_invariant(self);
            if i < self@.free.len() {
                assert(self@.free.contains(self@.free[i as int]));
            }
        }
        self.free.get(i)
    }

    /// Draws one of the free cells at random. There must be one.
    pub fn choose_random_free_cell(&self, rng: &mut ThreadRng) -> (c: Coordinate)
        requires
            self@.free.len() > 0,
        ensures
            self@.free.contains(c),
            self@.board[c] is Empty,
    {
        proof {
            use_type_invariant(self);
        }
        let i = random_below(rng, self.free.len());
        let r = self.free_cell_at(i);
        r.unwrap()
    }
}

/// At the start of a game the free cells are the empty cells.
pub proof fn lemma_initial_wf(players: PlayerAssignment)
    ensures
        EngineState::initial(players).wf(),
{
    let s = EngineState::initial(players);
    assert forall|c: Coordinate| #[trigger] s.free.contains(c) <==> s.board[c] is Empty by {
        assert(s.free[c.spec_index()] == c);
    }
}

/// A move keeps the free cells the empty cells, whether it is accepted or
/// not.
pub proof fn lemma_place_wf(s: EngineState, c: Coordinate, mark: Mark)
    requires
        s.wf(),
    ensures
        s.place(c, mark).wf(),
{
    if s.free.contains(c) {
        lemma_without(s.free, c);
        let t = s.place(c, mark);
        assert(t.board.dom() =~= Set::<Coordinate>::full());
        assert forall|d: Coordinate| #[trigger] t.free.contains(d) <==> t.board[d] is Empty by {
            assert(s.free.contains(d) <==> s.board[d] is Empty);
        }
    }
}

/// An accepted move takes exactly one cell out of the free cells, the cell
/// moved on, and no cell ever comes back into them.
pub proof fn lemma_place_shrinks(s: EngineState, c: Coordinate, mark: Mark)
    requires
        s.wf(),
    ensures
        s.free.contains(c) ==> s.place(c, mark).free.len() == s.free.len() - 1,
        !s.place(c, mark).free.contains(c),
        forall|d: Coordinate| #[trigger] s.place(c, mark).free.contains(d) ==> s.free.contains(d),
        forall|d: Coordinate|
            d != c && s.free.contains(d) ==> #[trigger] s.place(c, mark).free.contains(d),
{
    if s.free.contains(c) {
        lemma_without(s.free, c);
    }
}

/// A mark, once placed, stays: no move changes a cell that holds one.
pub proof fn lemma_marks_stay(s: EngineState, c: Coordinate, mark: Mark, d: Coordinate)
    requires
        s.wf(),
        s.board[d] is Marked,
    ensures
        s.place(c, mark).board[d] == s.board[d],
{
    assert(s.free.contains(d) <==> s.board[d] is Empty);
}

/// After any sequence of moves from a state in which the free cells are the
/// empty cells, they still are.
pub proof fn lemma_play_wf(s: EngineState, moves: Seq<(Coordinate, Mark)>)
    requires
        s.wf(),
    ensures
        s.play(moves).wf(),
        s.play(moves).complementary(),
    decreases moves.len(),
{
    if moves.len() > 0 {
        lemma_play_wf(s, moves.drop_last());
        lemma_place_wf(s.play(moves.drop_last()), moves.last().0, moves.last().1);
    }
}

} // verus!
