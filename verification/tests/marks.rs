use tictactoe::mark::{Cell, Mark, PlayerAssignment, StartupError};

#[test]
fn other_mark() {
    assert_eq!(Mark::X.other(), Mark::O);
    assert_eq!(Mark::O.other(), Mark::X);
}

#[test]
fn symbols() {
    assert_eq!(Mark::X.symbol(), 'x');
    assert_eq!(Mark::O.symbol(), 'o');
    assert_eq!(Cell::Empty.symbol(), '_');
    assert_eq!(Cell::Marked(Mark::X).symbol(), 'x');
    assert_eq!(Cell::Marked(Mark::O).symbol(), 'o');
}

#[test]
fn empty_cells() {
    assert!(Cell::Empty.is_empty());
    assert!(!Cell::Marked(Mark::X).is_empty());
    assert!(!Cell::Marked(Mark::O).is_empty());
}

#[test]
fn side_x_in_either_case() {
    for text in ["x", "X"] {
        let p = PlayerAssignment::parse(text).unwrap();
        assert_eq!(p.human, Mark::X);
        assert_eq!(p.computer(), Mark::O);
    }
}

#[test]
fn side_o_in_either_case() {
    for text in ["o", "O"] {
        let p = PlayerAssignment::parse(text).unwrap();
        assert_eq!(p.human, Mark::O);
        assert_eq!(p.computer(), Mark::X);
    }
}

#[test]
fn other_text_is_no_side() {
    for text in ["", "y", "0", "xo", "xx", " x", "x ", "x\n", "ox", "×"] {
        assert_eq!(PlayerAssignment::parse(text), Err(StartupError::InvalidSideChoice));
    }
}

#[test]
fn the_two_players_differ() {
    for human in [Mark::X, Mark::O] {
        let p = PlayerAssignment::new(human);
        assert_eq!(p.human, human);
        assert_ne!(p.computer(), p.human);
    }
}
