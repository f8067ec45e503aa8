use tictactoe::board::Board;
use tictactoe::coord::{Col, Coordinate, Row};
use tictactoe::free_cells::FreeCellSet;
use tictactoe::mark::{Cell, Mark};
use tictactoe::outcome::{game_logic, Outcome};

const E: Cell = Cell::Empty;
const X: Cell = Cell::Marked(Mark::X);
const O: Cell = Cell::Marked(Mark::O);

fn free_of(board: &Board) -> FreeCellSet {
    let mut free = FreeCellSet::full();
    for row in [Row::A, Row::B, Row::C] {
        for col in [Col::One, Col::Two, Col::Three] {
            let c = Coordinate { row, col };
            if board.get(c) != Cell::Empty {
                free.remove(c);
            }
        }
    }
    free
}

fn evaluate(cells: [[Cell; 3]; 3]) -> Outcome {
    let board = Board { cells };
    game_logic(&board, &free_of(&board))
}

#[test]
fn empty_board_is_in_progress() {
    assert_eq!(evaluate([[E, E, E], [E, E, E], [E, E, E]]), Outcome::InProgress);
    assert_eq!(game_logic(&Board::empty(), &FreeCellSet::full()), Outcome::InProgress);
}

#[test]
fn each_row_wins() {
    for mark in [Mark::X, Mark::O] {
        let m = Cell::Marked(mark);
        assert_eq!(evaluate([[m, m, m], [E, E, E], [E, E, E]]), Outcome::Win(mark));
        assert_eq!(evaluate([[E, E, E], [m, m, m], [E, E, E]]), Outcome::Win(mark));
        assert_eq!(evaluate([[E, E, E], [E, E, E], [m, m, m]]), Outcome::Win(mark));
    }
}

#[test]
fn each_column_wins() {
    for mark in [Mark::X, Mark::O] {
        let m = Cell::Marked(mark);
        assert_eq!(evaluate([[m, E, E], [m, E, E], [m, E, E]]), Outcome::Win(mark));
        assert_eq!(evaluate([[E, m, E], [E, m, E], [E, m, E]]), Outcome::Win(mark));
        assert_eq!(evaluate([[E, E, m], [E, E, m], [E, E, m]]), Outcome::Win(mark));
    }
}

#[test]
fn each_diagonal_wins() {
    for mark in [Mark::X, Mark::O] {
        let m = Cell::Marked(mark);
        assert_eq!(evaluate([[m, E, E], [E, m, E], [E, E, m]]), Outcome::Win(mark));
        assert_eq!(evaluate([[E, E, m], [E, m, E], [m, E, E]]), Outcome::Win(mark));
    }
}

#[test]
fn mixed_line_does_not_win() {
    assert_eq!(evaluate([[X, X, O], [E, E, E], [E, E, E]]), Outcome::InProgress);
    assert_eq!(evaluate([[X, E, E], [O, E, E], [X, E, E]]), Outcome::InProgress);
    assert_eq!(evaluate([[X, E, E], [E, O, E], [E, E, X]]), Outcome::InProgress);
    assert_eq!(evaluate([[E, E, O], [E, O, E], [X, E, E]]), Outcome::InProgress);
}

#[test]
fn two_in_a_line_does_not_win() {
    assert_eq!(evaluate([[X, X, E], [E, E, E], [E, E, E]]), Outcome::InProgress);
    assert_eq!(evaluate([[E, O, E], [E, O, E], [E, E, E]]), Outcome::InProgress);
    assert_eq!(evaluate([[X, E, E], [E, X, E], [E, E, E]]), Outcome::InProgress);
}

#[test]
fn full_board_without_line_is_a_draw() {
    assert_eq!(evaluate([[X, O, X], [X, O, O], [O, X, X]]), Outcome::Draw);
    assert_eq!(evaluate([[O, X, O], [O, X, X], [X, O, O]]), Outcome::Draw);
}

#[test]
fn full_board_with_line_is_a_win() {
    assert_eq!(evaluate([[X, O, O], [O, X, O], [O, O, X]]), Outcome::Win(Mark::X));
    assert_eq!(evaluate([[X, X, O], [X, O, X], [O, O, X]]), Outcome::Win(Mark::O));
}

#[test]
fn rows_come_before_columns_and_columns_before_diagonals() {
    // Positions no game reaches: both marks hold a line.
    assert_eq!(evaluate([[X, X, X], [O, O, O], [E, E, E]]), Outcome::Win(Mark::X));
    assert_eq!(evaluate([[O, O, O], [X, X, X], [E, E, E]]), Outcome::Win(Mark::O));
    assert_eq!(evaluate([[E, E, E], [O, O, O], [X, X, X]]), Outcome::Win(Mark::O));
    assert_eq!(evaluate([[O, X, E], [O, X, E], [O, X, E]]), Outcome::Win(Mark::O));
    assert_eq!(evaluate([[E, X, O], [E, X, O], [E, X, O]]), Outcome::Win(Mark::X));
    assert_eq!(evaluate([[O, E, X], [O, E, X], [X, X, X]]), Outcome::Win(Mark::X));
    assert_eq!(evaluate([[O, O, X], [X, X, O], [X, X, X]]), Outcome::Win(Mark::X));
}

#[test]
fn draw_depends_on_the_free_cells_alone() {
    let board = Board { cells: [[X, O, X], [X, O, O], [O, X, X]] };
    assert_eq!(game_logic(&board, &FreeCellSet::empty()), Outcome::Draw);
    assert_eq!(game_logic(&board, &FreeCellSet::full()), Outcome::InProgress);
    assert_eq!(game_logic(&Board::empty(), &FreeCellSet::empty()), Outcome::Draw);
    let won = Board { cells: [[X, X, X], [E, E, E], [E, E, E]] };
    assert_eq!(game_logic(&won, &FreeCellSet::empty()), Outcome::Win(Mark::X));
    assert_eq!(game_logic(&won, &FreeCellSet::full()), Outcome::Win(Mark::X));
}

#[test]
fn line_owners() {
    let board = Board { cells: [[X, X, X], [O, X, O], [O, E, X]] };
    assert_eq!(board.row_owner(Row::A), Some(Mark::X));
    assert_eq!(board.row_owner(Row::B), None);
    assert_eq!(board.row_owner(Row::C), None);
    assert_eq!(board.col_owner(Col::One), None);
    assert_eq!(board.col_owner(Col::Two), None);
    assert_eq!(board.col_owner(Col::Three), None);
    assert_eq!(board.diagonal_owner(), Some(Mark::X));
    assert_eq!(board.anti_diagonal_owner(), None);
    let board = Board { cells: [[E, X, O], [X, O, O], [O, X, O]] };
    assert_eq!(board.col_owner(Col::Three), Some(Mark::O));
    assert_eq!(board.anti_diagonal_owner(), Some(Mark::O));
    assert_eq!(board.diagonal_owner(), None);
    assert_eq!(Board::empty().row_owner(Row::A), None);
    assert_eq!(Board::empty().diagonal_owner(), None);
}

#[test]
fn board_get_and_set() {
    let mut board = Board::empty();
    let c = Coordinate { row: Row::B, col: Col::Three };
    assert_eq!(board.get(c), Cell::Empty);
    board.set(c, X);
    assert_eq!(board.get(c), X);
    assert_eq!(board.cells, [[E, E, E], [E, E, X], [E, E, E]]);
    board.set(c, O);
    assert_eq!(board.cells, [[E, E, E], [E, E, O], [E, E, E]]);
}

#[test]
fn status_lines() {
    assert_eq!(Outcome::Win(Mark::X).status(), "x won!");
    assert_eq!(Outcome::Win(Mark::O).status(), "o won!");
    assert_eq!(Outcome::Draw.status(), "its a draw");
    assert_eq!(Outcome::InProgress.status(), "nil");
}

#[test]
fn terminal_outcomes() {
    assert!(Outcome::Win(Mark::X).is_terminal());
    assert!(Outcome::Win(Mark::O).is_terminal());
    assert!(Outcome::Draw.is_terminal());
    assert!(!Outcome::InProgress.is_terminal());
}
