//! The cells on which no mark has been placed yet.

use vstd::prelude::*;
use crate::coord::{cell, Col, Coordinate, Row};

verus! {

/// The set of unmarked cells, kept in the order in which the grid is read:
/// row by row, each row from left to right. Cells only ever leave it.
#[derive(Debug)]
pub struct FreeCellSet {
    cells: Vec<Coordinate>,
}

impl View for FreeCellSet {
    type V = Seq<Coordinate>;

    /// The free cells, in order. No cell occurs twice.
    closed spec fn view(&self) -> Seq<Coordinate> {
        self.cells@
    }
}

/// All nine cells, row by row.
pub open spec fn all_cells() -> Seq<Coordinate> {
    seq![
        cell(Row::A, Col::One),
        cell(Row::A, Col::Two),
        cell(Row::A, Col::Three),
        cell(Row::B, Col::One),
        cell(Row::B, Col::Two),
        cell(Row::B, Col::Three),
        cell(Row::C, Col::One),
        cell(Row::C, Col::Two),
        cell(Row::C, Col::Three),
    ]
}

/// The cells of `free` stand in the order in which the grid is read. A
/// sequence in that order holds no cell twice.
pub open spec fn in_reading_order(free: Seq<Coordinate>) -> bool {
    forall|i: int, j: int|
        0 <= i < j < free.len() ==> (#[trigger] free[i]).spec_index()
            < (#[trigger] free[j]).spec_index()
}

/// What is left of `free` once `c` has been taken out of it.
pub open spec fn without(free: Seq<Coordinate>, c: Coordinate) -> Seq<Coordinate> {
    if free.contains(c) {
        free.remove(free.index_of(c))
    } else {
        free
    }
}

/// A sequence in reading order holds no cell twice.
pub proof fn lemma_reading_order_no_duplicates(free: Seq<Coordinate>)
    requires
        in_reading_order(free),
    ensures
        free.no_duplicates(),
{
    assert forall|i: int, j: int| 0 <= i < free.len() && 0 <= j < free.len() && i != j implies free[i]
        != free[j] by {
        if i < j {
            assert(free[i].spec_index() < free[j].spec_index());
        } else {
            assert(free[j].spec_index() < free[i].spec_index());
        }
    }
}

/// Taking a free cell out leaves the others, in the order they had.
pub proof fn lemma_without(free: Seq<Coordinate>, c: Coordinate)
    requires
        in_reading_order(free),
        free.contains(c),
    ensures
        in_reading_order(without(free, c)),
        without(free, c).len() == free.len() - 1,
        forall|d: Coordinate| #[trigger] without(free, c).contains(d) <==> free.contains(d) && d != c,
{
    lemma_reading_order_no_duplicates(free);
    let pos = free.index_of(c);
    let rest = free.remove(pos);
    free.remove_ensures(pos);
    assert forall|i: int, j: int| 0 <= i < j < rest.len() implies (#[trigger] rest[i]).spec_index()
        < (#[trigger] rest[j]).spec_index() by {
        let ii = if i < pos { i } else { i + 1 };
        let jj = if j < pos { j } else { j + 1 };
        assert(rest[i] == free[ii] && rest[j] == free[jj]);
    }
    assert forall|d: Coordinate| #[trigger] rest.contains(d) <==> free.contains(d) && d != c by {
        if rest.contains(d) {
            let i = choose|i: int| 0 <= i < rest.len() && rest[i] == d;
            let ii = if i < pos { i } else { i + 1 };
            assert(free[ii] == d);
        }
        if free.contains(d) && d != c {
            let k = choose|k: int| 0 <= k < free.len() && free[k] == d;
            let i = if k < pos { k } else { k - 1 };
            assert(rest[i] == d);
        }
    }
}

impl FreeCellSet {
    #[verifier::type_invariant]
    spec fn inv(self) -> bool {
        in_reading_order(self.cells@)
    }

    /// The set of all nine cells, as it is at the start of a game.
    pub fn full() -> (s: FreeCellSet)
        ensures
            s@ == all_cells(),
    {
        let mut cells: Vec<Coordinate> = Vec::new();
        cells.push(Coordinate { row: Row::A, col: Col::One });
        cells.push(Coordinate { row: Row::A, col: Col::Two });
        cells.push(Coordinate { row: Row::A, col: Col::Three });
        cells.push(Coordinate { row: Row::B, col: Col::One });
        cells.push(Coordinate { row: Row::B, col: Col::Two });
        cells.push(Coordinate { row: Row::B, col: Col::Three });
        cells.push(Coordinate { row: Row::C, col: Col::One });
        cells.push(Coordinate { row: Row::C, col: Col::Two });
        cells.push(Coordinate { row: Row::C, col: Col::Three });
        assert(cells@ =~= all_cells());
        FreeCellSet { cells }
    }

    /// The set with no cell in it.
    pub fn empty() -> (s: FreeCellSet)
        ensures
            s@ == Seq::<Coordinate>::empty(),
    {
        FreeCellSet { cells: Vec::new() }
    }

    /// The number of free cells.
    pub fn len(&self) -> (n: usize)
        ensures
            n == self@.len(),
            in_reading_order(self@),
    {
        proof {
            use_type_invariant(self);
        }
        self.cells.len()
    }

    /// The free cells, in order.
    pub fn cells(&self) -> (v: &Vec<Coordinate>)
        ensures
            v@ == self@,
            in_reading_order(self@),
    {
        proof {
            use_type_invariant(self);
        }
        &self.cells
    }

    /// Whether no cell is free.
    pub fn is_empty(&self) -> (b: bool)
        ensures
            b == (self@.len() == 0),
    {
        self.cells.len() == 0
    }

    /// The free cell at position `i`.
    pub fn get(&self, i: usize) -> (r: Option<Coordinate>)
        ensures
            r == if i < self@.len() { Some(self@[i as int]) } else { None },
    {
        if i < self.cells.len() {
            Some(self.cells[i])
        } else {
            None
        }
    }

    /// Where `c` stands among the free cells, if it is free.
    pub fn position(&self, c: Coordinate) -> (r: Option<usize>)
        ensures
            in_reading_order(self@),
            match r {
                Some(i) => self@.contains(c) && i == self@.index_of(c),
                None => !self@.contains(c),
            },
    {
        proof {
            use_type_invariant(self);
            lemma_reading_order_no_duplicates(self@);
        }
        let mut i: usize = 0;
        while i < self.cells.len()
            invariant
                i <= self.cells@.len(),
                self.cells@.no_duplicates(),
                in_reading_order(self.cells@),
                forall|j: int| 0 <= j < i ==> self.cells@[j] != c,
            decreases self.cells@.len() - i,
        {
            if self.cells[i] == c {
                return Some(i);
            }
            i += 1;
        }
        None
    }

    /// Whether `c` is free.
    pub fn contains(&self, c: Coordinate) -> (b: bool)
        ensures
            b == self@.contains(c),
    {
        self.position(c).is_some()
    }

    /// Takes `c` out of the set. Says whether it was in it.
    pub fn remove(&mut self, c: Coordinate) -> (was_free: bool)
        ensures
            was_free == old(self)@.contains(c),
            final(self)@ == without(old(self)@, c),
            in_reading_order(final(self)@),
    {
        proof {
            use_type_invariant(&*self);
        }
        match self.position(c) {
            Some(pos) => {
                proof {
                    lemma_without(self@, c);
                }
                let mut cells: Vec<Coordinate> = Vec::new();
                std::mem::swap(&mut cells, &mut self.cells);
                cells.remove(pos);
                self.cells = cells;
                true
            },
            None => false,
        }
    }
}

} // verus!
