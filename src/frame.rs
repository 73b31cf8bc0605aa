use vstd::prelude::*;
use crate::board::{standard_cells, BoardState};
use crate::render::{frame_commands, render_frame, DrawCommand};
use crate::selection::Selection;

verus! {

/// Per-tick state of the front end: the board snapshot source, the time
/// that the last tick took, and the selected square.
pub struct ChessState {
    pub board: BoardState,
    /// Duration of the last tick, in nanoseconds.
    pub dt_nanos: u128,
    pub pos_selected: Selection,
}

impl ChessState {
    pub open spec fn wf(&self) -> bool {
        self.board.wf()
    }

    /// A new game at the standard starting position, with nothing selected
    /// and no elapsed time.
    pub fn new() -> (r: ChessState)
        ensures
            r.wf(),
            r.board@ == standard_cells(),
            r.dt_nanos == 0,
            r.pos_selected@ == None::<crate::board::Square>,
    {
        ChessState { board: BoardState::standard(), dt_nanos: 0, pos_selected: Selection::new() }
    }

    /// The update step: records the duration of the last tick and changes
    /// nothing else.
    pub fn update(&mut self, dt_nanos: u128)
        ensures
            final(self).dt_nanos == dt_nanos,
            final(self).board@ == old(self).board@,
            final(self).pos_selected@ == old(self).pos_selected@,
    {
        self.dt_nanos = dt_nanos;
    }

    /// The draw step: the commands of one full frame of the current board.
    pub fn draw(&self) -> (r: Vec<DrawCommand>)
        requires
            self.wf(),
        ensures
            r@ == frame_commands(self.board@),
    {
        render_frame(&self.board, &self.pos_selected)
    }
}

} // verus!
