//! The turn-taking state machine of a game between a human and a computer
//! that moves at random. The machine decides; whoever drives it asks the
//! human, shows the board and waits.

use rand::rngs::ThreadRng;
use vstd::prelude::*;
use crate::board::{anti_diagonal_owner, col_owner, diagonal_owner, has_line, row_owner};
use crate::coord::{cell_of_label, Col, Coordinate, MoveError, Row};
use crate::engine::{lemma_initial_wf, lemma_place_wf, EngineState, GameEngine};
use crate::mark::{side_of, Cell, Mark, PlayerAssignment, StartupError};
use crate::outcome::{lemma_outcome_cases, lemma_win_iff_line, Outcome};

verus! {

/// Where a game stands.
#[derive(Clone, Copy, Debug, PartialEq, Eq, Structural)]
pub enum Phase {
    /// Nothing exists yet: the human has to pick a side.
    ChoosingSides,
    /// It is the human's turn.
    AwaitingHumanMove,
    /// It is the computer's turn.
    AwaitingComputerMove,
    /// The game is over. Nothing leads out of this phase.
    Terminal,
}

/// What happened outside the machine.
#[derive(Debug)]
pub enum Event {
    /// The human answered the question for a side with this text.
    SideChosen(String),
    /// The human answered the question for a cell with this text.
    CellEntered(String),
    /// The computer drew this cell, or had no cell to draw from.
    ComputerChose(Option<Coordinate>),
}

/// What the driver of the machine has to do next.
#[derive(Clone, Copy, Debug, PartialEq, Eq, Structural)]
pub enum Action {
    /// Ask the human for a side.
    AskSide,
    /// Show the board and ask the human for a cell.
    AskCell,
    /// Tell the human that the cell was refused, then ask again.
    Reject(MoveError),
    /// Let the computer move.
    ComputerToMove,
    /// Show the final board and the outcome, and stop.
    Finish(Outcome),
    /// Give up before any game was played.
    Abort(StartupError),
}

/// What a loop holds, as plain mathematics.
pub struct LoopState {
    pub phase: Phase,
    pub engine: Option<EngineState>,
}

/// The state and the action after a move was made on `engine`: the game is
/// over if the outcome says so, else it is the turn that `next` names.
pub open spec fn settle(engine: EngineState, next: Phase) -> (LoopState, Action) {
    let state = LoopState {
        phase: if engine.outcome().is_terminal() {
            Phase::Terminal
        } else {
            next
        },
        engine: Some(engine),
    };
    (state, state.pending())
}

impl LoopState {
    /// The state before the human has picked a side.
    pub open spec fn initial() -> LoopState {
        LoopState { phase: Phase::ChoosingSides, engine: None }
    }

    /// The state is one a loop can be in. There is an engine from the moment
    /// the sides are chosen; while a move is awaited the game is in progress;
    /// in the terminal phase it is over; and the two marks never both hold a
    /// line.
    pub open spec fn wf(self) -> bool {
        match self.engine {
            None => self.phase is ChoosingSides,
            Some(e) => {
                &&& e.wf()
                &&& !(self.phase is ChoosingSides)
                &&& self.phase is Terminal <==> e.outcome().is_terminal()
                &&& !(has_line(e.board, Mark::X) && has_line(e.board, Mark::O))
            },
        }
    }

    /// What the loop waits for in this state.
    pub open spec fn pending(self) -> Action {
        match self.phase {
            Phase::ChoosingSides => Action::AskSide,
            Phase::AwaitingHumanMove => Action::AskCell,
            Phase::AwaitingComputerMove => Action::ComputerToMove,
            Phase::Terminal => Action::Finish(self.engine->0.outcome()),
        }
    }

    /// The transition function: the state after `event`, and what to do
    /// next. An event that the phase does not wait for changes nothing.
    pub open spec fn step(self, event: Event) -> (LoopState, Action) {
        match (self.phase, event) {
            (Phase::ChoosingSides, Event::SideChosen(text)) => match side_of(text@) {
                Some(human) => (
                    LoopState {
                        phase: Phase::AwaitingHumanMove,
                        engine: Some(EngineState::initial(PlayerAssignment { human })),
                    },
                    Action::AskCell,
                ),
                None => (self, Action::Abort(StartupError::InvalidSideChoice)),
            },
            (Phase::AwaitingHumanMove, Event::CellEntered(text)) => {
                let e = self.engine->0;
                if e.accepts(text@) {
                    settle(e.apply(text@, e.players.human), Phase::AwaitingComputerMove)
                } else {
                    (self, Action::Reject(MoveError::InvalidCell))
                }
            },
            (Phase::AwaitingComputerMove, Event::ComputerChose(choice)) => {
                let e = self.engine->0;
                if e.free.len() == 0 {
                    settle(e, Phase::AwaitingHumanMove)
                } else {
                    match choice {
                        Some(c) => if e.free.contains(c) {
                            settle(e.place(c, e.players.spec_computer()), Phase::AwaitingHumanMove)
                        } else {
                            (self, self.pending())
                        },
                        None => (self, self.pending()),
                    }
                }
            },
            _ => (self, self.pending()),
        }
    }
}

/// One game, from the choice of sides to its end.
#[derive(Debug)]
pub struct GameLoop {
    phase: Phase,
    engine: Option<GameEngine>,
}

impl View for GameLoop {
    type V = LoopState;

    closed spec fn view(&self) -> LoopState {
        LoopState {
            phase: self.phase,
            engine: match self.engine {
                Some(e) => Some(e@),
                None => None,
            },
        }
    }
}

impl GameLoop {
    #[verifier::type_invariant]
    spec fn inv(self) -> bool {
        self@.wf()
    }

    /// A loop in which the human has yet to pick a side.
    pub fn new() -> (g: GameLoop)
        ensures
            g@ == LoopState::initial(),
            g@.wf(),
    {
        GameLoop { phase: Phase::ChoosingSides, engine: None }
    }

    /// The phase the game is in.
    pub fn phase(&self) -> (p: Phase)
        ensures
            p == self@.phase,
            self@.wf(),
    {
        proof {
            use_type_invariant(self);
        }
        self.phase
    }

    /// The engine, once the sides are chosen.
    pub fn engine(&self) -> (e: Option<&GameEngine>)
        ensures
            match e {
                Some(engine) => self@.engine == Some(engine@),
                None => self@.engine is None,
            },
            self@.wf(),
    {
        proof {
            use_type_invariant(self);
        }
        self.engine.as_ref()
    }

    /// What the loop waits for.
    pub fn pending(&self) -> (a: Action)
        ensures
            a == self@.pending(),
    {
        proof {
            use_type_invariant(self);
        }
        match (self.phase, &self.engine) {
            (Phase::Terminal, Some(engine)) => Action::Finish(engine.evaluate()),
            (Phase::AwaitingComputerMove, _) => Action::ComputerToMove,
            (Phase::AwaitingHumanMove, _) => Action::AskCell,
            _ => Action::AskSide,
        }
    }

    /// Takes the loop from one state to the next.
    pub fn step(&mut self, event: Event) -> (action: Action)
        ensures
            (final(self)@, action) == old(self)@.step(event),
            final(self)@.wf(),
    {
        proof {
            use_type_invariant(&*self);
            lemma_step_wf(self@, event);
        }
        let mut taken = GameLoop::new();
        std::mem::swap(self, &mut taken);
        let GameLoop { phase, engine } = taken;
        match (phase, engine, event) {
            (Phase::ChoosingSides, None, Event::SideChosen(text)) => {
                match PlayerAssignment::parse(text.as_str()) {
                    Ok(players) => {
                        *self = GameLoop {
                            phase: Phase::AwaitingHumanMove,
                            engine: Some(GameEngine::new(players)),
                        };
                        Action::AskCell
                    },
                    // The loop already stands where it stood: no side chosen.
                    Err(e) => Action::Abort(e),
                }
            },
            (Phase::AwaitingHumanMove, Some(mut engine), Event::CellEntered(text)) => {
                let mark = engine.players().human;
                match engine.apply_move(text.as_str(), mark) {
                    Ok(()) => {
                        let o = engine.evaluate();
                        if o.is_terminal() {
                            *self = GameLoop { phase: Phase::Terminal, engine: Some(engine) };
                            Action::Finish(o)
                        } else {
                            *self = GameLoop {
                                phase: Phase::AwaitingComputerMove,
                                engine: Some(engine),
                            };
                            Action::ComputerToMove
                        }
                    },
                    Err(e) => {
                        *self = GameLoop { phase, engine: Some(engine) };
                        Action::Reject(e)
                    },
                }
            },
            (Phase::AwaitingComputerMove, Some(mut engine), Event::ComputerChose(choice)) => {
                let moved = if engine.free_cells().is_empty() {
                    true
                } else {
                    match choice {
                        Some(c) => {
                            let mark = engine.players().computer();
                            engine.place(c, mark).is_ok()
                        },
                        None => false,
                    }
                };
                if moved {
                    let o = engine.evaluate();
                    if o.is_terminal() {
                        *self = GameLoop { phase: Phase::Terminal, engine: Some(engine) };
                        Action::Finish(o)
                    } else {
                        *self = GameLoop { phase: Phase::AwaitingHumanMove, engine: Some(engine) };
                        Action::AskCell
                    }
                } else {
                    *self = GameLoop { phase, engine: Some(engine) };
                    Action::ComputerToMove
                }
            },
            (phase, engine, _) => {
                *self = GameLoop { phase, engine };
                self.pending()
            },
        }
    }

    /// The computer's turn: draws a free cell, if there is one to draw and
    /// the computer is to move, and takes the step that follows from it.
    /// Returns the cell drawn with the action.
    pub fn computer_turn(&mut self, rng: &mut ThreadRng) -> (r: (Option<Coordinate>, Action))
        ensures
            (final(self)@, r.1) == old(self)@.step(Event::ComputerChose(r.0)),
            final(self)@.wf(),
            r.0 is Some <==> old(self)@.phase is AwaitingComputerMove && old(self)@.engine->0.free.len()
                > 0,
            r.0 matches Some(c) ==> old(self)@.engine->0.free.contains(c),
            old(self)@.phase is AwaitingComputerMove ==> final(self)@.phase is AwaitingHumanMove
                || final(self)@.phase is Terminal,
    {
        proof {
            use_type_invariant(&*self);
        }
        let choice = match (self.phase, &self.engine) {
            (Phase::AwaitingComputerMove, Some(engine)) => {
                if engine.free_cells().is_empty() {
                    None
                } else {
                    Some(engine.choose_random_free_cell(rng))
                }
            },
            _ => None,
        };
        let action = self.step(Event::ComputerChose(choice));
        (choice, action)
    }
}

/// A mark placed on a board without a complete line completes no line of
/// the other mark.
pub proof fn lemma_only_mover_wins(e: EngineState, c: Coordinate, mark: Mark)
    requires
        !has_line(e.board, Mark::X),
        !has_line(e.board, Mark::O),
    ensures
        !has_line(e.place(c, mark).board, mark.spec_other()),
{
    let t = e.place(c, mark);
    let other = mark.spec_other();
    if e.free.contains(c) && has_line(t.board, other) {
        assert(t.board[c] == Cell::Marked(mark));
        assert forall|d: Coordinate| t.board[d] == Cell::Marked(other) implies e.board[d]
            == Cell::Marked(other) by {
            assert(d != c);
        }
        if exists|row: Row| row_owner(t.board, row) == Some(other) {
            let row = choose|row: Row| row_owner(t.board, row) == Some(other);
            assert(row_owner(e.board, row) == Some(other));
        } else if exists|col: Col| col_owner(t.board, col) == Some(other) {
            let col = choose|col: Col| col_owner(t.board, col) == Some(other);
            assert(col_owner(e.board, col) == Some(other));
        } else if diagonal_owner(t.board) == Some(other) {
            assert(diagonal_owner(e.board) == Some(other));
        } else {
            assert(anti_diagonal_owner(e.board) == Some(other));
        }
        assert(has_line(e.board, other));
    }
}

/// Nothing leads out of the terminal phase: whatever the event, the state
/// stays as it is and the action is to finish with the same outcome.
pub proof fn lemma_terminal_absorbing(s: LoopState, event: Event)
    requires
        s.phase is Terminal,
    ensures
        s.step(event) == (s, Action::Finish(s.engine->0.outcome())),
{
}

/// A cell that the engine does not accept from the human leaves the state
/// as it is: the board, the free cells and the turn.
pub proof fn lemma_rejected_move_keeps_state(s: LoopState, text: String)
    requires
        s.phase is AwaitingHumanMove,
        !s.engine->0.accepts(text@),
    ensures
        s.step(Event::CellEntered(text)) == (s, Action::Reject(MoveError::InvalidCell)),
{
}

/// In every state of a loop the outcome is a win for `m` if and only if `m`
/// holds a line.
pub proof fn lemma_loop_win_iff_line(s: LoopState, m: Mark)
    requires
        s.wf(),
        s.engine is Some,
    ensures
        s.engine->0.outcome() == Outcome::Win(m) <==> has_line(s.engine->0.board, m),
{
    lemma_win_iff_line(s.engine->0.board, s.engine->0.free, m);
}

/// Every step takes a loop state to a loop state.
pub proof fn lemma_step_wf(s: LoopState, event: Event)
    requires
        s.wf(),
    ensures
        s.step(event).0.wf(),
{
    match (s.phase, event) {
        (Phase::ChoosingSides, Event::SideChosen(text)) => {
            if let Some(human) = side_of(text@) {
                let e = EngineState::initial(PlayerAssignment { human });
                lemma_initial_wf(PlayerAssignment { human });
                lemma_outcome_cases(e.board, e.free);
            }
        },
        (Phase::AwaitingHumanMove, Event::CellEntered(text)) => {
            let e = s.engine->0;
            if e.accepts(text@) {
                let c = cell_of_label(text@)->0;
                lemma_outcome_cases(e.board, e.free);
                lemma_place_wf(e, c, e.players.human);
                lemma_only_mover_wins(e, c, e.players.human);
            }
        },
        (Phase::AwaitingComputerMove, Event::ComputerChose(choice)) => {
            let e = s.engine->0;
            lemma_outcome_cases(e.board, e.free);
            if e.free.len() != 0 {
                if let Some(c) = choice {
                    lemma_place_wf(e, c, e.players.spec_computer());
                    lemma_only_mover_wins(e, c, e.players.spec_computer());
                }
            }
        },
        _ => {},
    }
}

} // verus!
