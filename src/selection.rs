use vstd::prelude::*;
use crate::board::Square;

verus! {

/// Holds at most one selected square. No validation is done here.
pub struct Selection {
    square: Option<Square>,
}

impl View for Selection {
    type V = Option<Square>;

    closed spec fn view(&self) -> Option<Square> {
        self.square
    }
}

impl Selection {
    /// A selection holding no square.
    pub fn new() -> (r: Selection)
        ensures
            r@ == None::<Square>,
    {
        Selection { square: None }
    }

    /// The selected square, if any.
    pub fn get(&self) -> (r: Option<Square>)
        ensures
            r == self@,
    {
        self.square
    }

    /// Replaces the selection with `square`.
    pub fn set(&mut self, square: Option<Square>)
        ensures
            final(self)@ == square,
    {
        self.square = square;
    }
}

} // verus!
