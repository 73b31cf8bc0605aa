use vstd::prelude::*;

verus! {

/// The side a piece belongs to.
#[derive(Clone, Copy, Debug, PartialEq, Eq, Structural, Hash)]
pub enum PieceColor {
    White,
    Black,
}

/// The kind of a piece.
#[derive(Clone, Copy, Debug, PartialEq, Eq, Structural, Hash)]
pub enum PieceType {
    King,
    Queen,
    Bishop,
    Knight,
    Rook,
    Pawn,
}

/// A piece: its side and its kind.
#[derive(Clone, Copy, Debug, PartialEq, Eq, Structural, Hash)]
pub struct Piece {
    pub color: PieceColor,
    pub piece_type: PieceType,
}

/// A board square: `x` is the file, `y` the rank, each in `[0, 8)`.
#[derive(Clone, Copy, Debug, PartialEq, Eq, Structural, Hash)]
pub struct Square {
    pub x: i8,
    pub y: i8,
}

impl Square {
    pub open spec fn valid(self) -> bool {
        0 <= self.x < 8 && 0 <= self.y < 8
    }

    /// Linear index of the square: `rank * 8 + file`.
    pub open spec fn index(self) -> int {
        self.y * 8 + self.x
    }
}

/// The square with linear index `idx`.
pub open spec fn square_of_index(idx: int) -> Square {
    Square { x: (idx % 8) as i8, y: (idx / 8) as i8 }
}

/// The kind of piece that stands on `file` in the back rank at the start.
pub open spec fn back_rank_type(file: int) -> PieceType {
    if file == 0 || file == 7 {
        PieceType::Rook
    } else if file == 1 || file == 6 {
        PieceType::Knight
    } else if file == 2 || file == 5 {
        PieceType::Bishop
    } else if file == 3 {
        PieceType::Queen
    } else {
        PieceType::King
    }
}

/// What stands on `(file, rank)` in the standard starting position.
pub open spec fn standard_piece_at(file: int, rank: int) -> Option<Piece> {
    if rank == 0 {
        Some(Piece { color: PieceColor::White, piece_type: back_rank_type(file) })
    } else if rank == 1 {
        Some(Piece { color: PieceColor::White, piece_type: PieceType::Pawn })
    } else if rank == 6 {
        Some(Piece { color: PieceColor::Black, piece_type: PieceType::Pawn })
    } else if rank == 7 {
        Some(Piece { color: PieceColor::Black, piece_type: back_rank_type(file) })
    } else {
        None
    }
}

/// The standard starting position, cell by cell in index order.
pub open spec fn standard_cells() -> Seq<Option<Piece>> {
    Seq::new(64, |i: int| standard_piece_at(i % 8, i / 8))
}

/// A snapshot of board occupancy: for each of the 64 cells, in index order,
/// the piece standing there, if any.
pub struct BoardState {
    cells: Vec<Option<Piece>>,
}

impl View for BoardState {
    type V = Seq<Option<Piece>>;

    closed spec fn view(&self) -> Seq<Option<Piece>> {
        self.cells@
    }
}

/// The kind of piece that stands on `file` in the back rank at the start.
fn back_rank_piece(file: i8) -> (r: PieceType)
    requires
        0 <= file < 8,
    ensures
        r == back_rank_type(file as int),
{
    if file == 0 || file == 7 {
        PieceType::Rook
    } else if file == 1 || file == 6 {
        PieceType::Knight
    } else if file == 2 || file == 5 {
        PieceType::Bishop
    } else if file == 3 {
        PieceType::Queen
    } else {
        PieceType::King
    }
}

impl BoardState {
    pub open spec fn wf(&self) -> bool {
        self@.len() == 64
    }

    /// A board with no pieces.
    pub fn empty() -> (r: BoardState)
        ensures
            r.wf(),
            forall|i: int| 0 <= i < 64 ==> r@[i] is None,
    {
        let mut cells: Vec<Option<Piece>> = Vec::new();
        let mut i: usize = 0;
        while i < 64
            invariant
                i <= 64,
                cells@.len() == i,
                forall|j: int| 0 <= j < i ==> cells@[j] is None,
            decreases 64 - i,
        {
            cells.push(None);
            i = i + 1;
        }
        BoardState { cells }
    }

    /// The standard starting position of a new game.
    pub fn standard() -> (r: BoardState)
        ensures
            r.wf(),
            r@ == standard_cells(),
    {
        let mut cells: Vec<Option<Piece>> = Vec::new();
        let mut i: i8 = 0;
        while i < 64
            invariant
                0 <= i <= 64,
                cells@.len() == i,
                forall|j: int| 0 <= j < i ==> cells@[j] == standard_piece_at(j % 8, j / 8),
            decreases 64 - i,
        {
            let file: i8 = i % 8;
            let rank: i8 = i / 8;
            let cell = if rank == 0 {
                Some(Piece { color: PieceColor::White, piece_type: back_rank_piece(file) })
            } else if rank == 1 {
                Some(Piece { color: PieceColor::White, piece_type: PieceType::Pawn })
            } else if rank == 6 {
                Some(Piece { color: PieceColor::Black, piece_type: PieceType::Pawn })
            } else if rank == 7 {
                Some(Piece { color: PieceColor::Black, piece_type: back_rank_piece(file) })
            } else {
                None
            };
            cells.push(cell);
            i = i + 1;
        }
        assert(cells@ =~= standard_cells());
        BoardState { cells }
    }

    /// The piece on `square`, if any.
    pub fn get(&self, square: &Square) -> (r: Option<Piece>)
        requires
            self.wf(),
            square.valid(),
        ensures
            r == self@[square.index()],
    {
        let idx: usize = (square.y as usize) * 8 + (square.x as usize);
        self.cells[idx]
    }

    /// Puts `piece` on `square` (or clears it, for `None`).
    pub fn set(&mut self, square: &Square, piece: Option<Piece>)
        requires
            old(self).wf(),
            square.valid(),
        ensures
            final(self).wf(),
            final(self)@ == old(self)@.update(square.index(), piece),
    {
        let idx: usize = (square.y as usize) * 8 + (square.x as usize);
        self.cells.set(idx, piece);
    }
}

} // verus!
