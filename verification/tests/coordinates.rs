use tictactoe::coord::{Col, Coordinate, MoveError, Row};

const ROWS: [Row; 3] = [Row::A, Row::B, Row::C];
const COLS: [Col; 3] = [Col::One, Col::Two, Col::Three];

#[test]
fn labels_of_the_nine_cells() {
    let expected = ["a1", "a2", "a3", "b1", "b2", "b3", "c1", "c2", "c3"];
    let mut i = 0;
    for row in ROWS {
        for col in COLS {
            assert_eq!(Coordinate { row, col }.label(), expected[i]);
            i += 1;
        }
    }
}

#[test]
fn parse_gives_back_the_cell_of_a_label() {
    for row in ROWS {
        for col in COLS {
            let c = Coordinate { row, col };
            assert_eq!(Coordinate::parse(c.label()), Ok(c));
        }
    }
}

#[test]
fn parse_reads_row_then_column() {
    assert_eq!(Coordinate::parse("a3"), Ok(Coordinate { row: Row::A, col: Col::Three }));
    assert_eq!(Coordinate::parse("c1"), Ok(Coordinate { row: Row::C, col: Col::One }));
    assert_eq!(Coordinate::parse("b2"), Ok(Coordinate { row: Row::B, col: Col::Two }));
}

#[test]
fn parse_refuses_cells_outside_the_grid() {
    for label in ["d1", "a4", "a0", "z9", "c0", "d4"] {
        assert_eq!(Coordinate::parse(label), Err(MoveError::InvalidCell));
    }
}

#[test]
fn parse_refuses_malformed_labels() {
    for label in ["", "a", "1", "1a", "a11", "aa", "11", "A1", "B2", " a1", "a1 ", "a 1", "a1\n", "é1", "a١"] {
        assert_eq!(Coordinate::parse(label), Err(MoveError::InvalidCell));
    }
}

#[test]
fn row_and_column_labels() {
    assert_eq!(Row::A.label(), 'a');
    assert_eq!(Row::B.label(), 'b');
    assert_eq!(Row::C.label(), 'c');
    assert_eq!(Col::One.label(), '1');
    assert_eq!(Col::Two.label(), '2');
    assert_eq!(Col::Three.label(), '3');
    assert_eq!(Row::from_label('b'), Some(Row::B));
    assert_eq!(Row::from_label('d'), None);
    assert_eq!(Row::from_label('1'), None);
    assert_eq!(Col::from_label('3'), Some(Col::Three));
    assert_eq!(Col::from_label('4'), None);
    assert_eq!(Col::from_label('a'), None);
}

#[test]
fn row_and_column_positions() {
    assert_eq!(Row::A.index(), 0);
    assert_eq!(Row::B.index(), 1);
    assert_eq!(Row::C.index(), 2);
    assert_eq!(Col::One.index(), 0);
    assert_eq!(Col::Two.index(), 1);
    assert_eq!(Col::Three.index(), 2);
}
