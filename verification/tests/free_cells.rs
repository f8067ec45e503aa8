use tictactoe::coord::{Col, Coordinate, Row};
use tictactoe::free_cells::FreeCellSet;

fn at(row: Row, col: Col) -> Coordinate {
    Coordinate { row, col }
}

#[test]
fn full_set_holds_the_nine_cells_in_reading_order() {
    let s = FreeCellSet::full();
    assert_eq!(s.len(), 9);
    assert!(!s.is_empty());
    let labels: Vec<&str> = s.cells().iter().map(|c| c.label()).collect();
    assert_eq!(labels, vec!["a1", "a2", "a3", "b1", "b2", "b3", "c1", "c2", "c3"]);
}

#[test]
fn empty_set_holds_nothing() {
    let s = FreeCellSet::empty();
    assert_eq!(s.len(), 0);
    assert!(s.is_empty());
    assert_eq!(s.get(0), None);
    assert!(!s.contains(at(Row::A, Col::One)));
    assert_eq!(s.position(at(Row::A, Col::One)), None);
}

#[test]
fn remove_takes_out_the_cell_and_keeps_the_order() {
    let mut s = FreeCellSet::full();
    assert!(s.remove(at(Row::B, Col::One)));
    assert_eq!(s.len(), 8);
    assert!(!s.contains(at(Row::B, Col::One)));
    assert_eq!(s.position(at(Row::B, Col::One)), None);
    assert_eq!(s.position(at(Row::A, Col::Three)), Some(2));
    assert_eq!(s.position(at(Row::B, Col::Two)), Some(3));
    assert_eq!(s.get(3), Some(at(Row::B, Col::Two)));
    assert_eq!(s.get(7), Some(at(Row::C, Col::Three)));
    assert_eq!(s.get(8), None);
}

#[test]
fn remove_of_an_absent_cell_changes_nothing() {
    let mut s = FreeCellSet::full();
    assert!(s.remove(at(Row::C, Col::Three)));
    let before = s.cells().clone();
    assert!(!s.remove(at(Row::C, Col::Three)));
    assert_eq!(*s.cells(), before);
    assert_eq!(s.len(), 8);
}

#[test]
fn removing_every_cell_empties_the_set() {
    let mut s = FreeCellSet::full();
    for row in [Row::C, Row::A, Row::B] {
        for col in [Col::Two, Col::Three, Col::One] {
            assert!(s.contains(at(row, col)));
            assert!(s.remove(at(row, col)));
        }
    }
    assert!(s.is_empty());
}
