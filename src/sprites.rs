use vstd::prelude::*;
use crate::board::{Piece, PieceColor, PieceType};

verus! {

/// Position of a piece kind within one side's six sprites.
pub open spec fn type_slot(t: PieceType) -> int {
    match t {
        PieceType::King => 0,
        PieceType::Queen => 1,
        PieceType::Bishop => 2,
        PieceType::Knight => 3,
        PieceType::Rook => 4,
        PieceType::Pawn => 5,
    }
}

/// Slot of a piece's sprite: white sprites first, then black ones.
pub open spec fn sprite_slot(p: Piece) -> int {
    match p.color {
        PieceColor::White => type_slot(p.piece_type),
        PieceColor::Black => 6 + type_slot(p.piece_type),
    }
}

/// Slot of the sprite for `piece` among the twelve.
pub fn sprite_index(piece: Piece) -> (r: usize)
    ensures
        r == sprite_slot(piece),
        r < 12,
{
    let t: usize = match piece.piece_type {
        PieceType::King => 0,
        PieceType::Queen => 1,
        PieceType::Bishop => 2,
        PieceType::Knight => 3,
        PieceType::Rook => 4,
        PieceType::Pawn => 5,
    };
    match piece.color {
        PieceColor::White => t,
        PieceColor::Black => 6 + t,
    }
}

/// The twelve (color, kind) combinations, each at its sprite slot.
pub fn all_pieces() -> (r: Vec<Piece>)
    ensures
        r@.len() == 12,
        forall|i: int| 0 <= i < 12 ==> sprite_slot(#[trigger] r@[i]) == i,
{
    let types = [
        PieceType::King,
        PieceType::Queen,
        PieceType::Bishop,
        PieceType::Knight,
        PieceType::Rook,
        PieceType::Pawn,
    ];
    let mut r: Vec<Piece> = Vec::new();
    let mut i: usize = 0;
    while i < 12
        invariant
            i <= 12,
            r@.len() == i,
            types@ == seq![PieceType::King, PieceType::Queen, PieceType::Bishop, PieceType::Knight,
                PieceType::Rook, PieceType::Pawn],
            forall|j: int| 0 <= j < i ==> sprite_slot(#[trigger] r@[j]) == j,
        decreases 12 - i,
    {
        let color = if i < 6 { PieceColor::White } else { PieceColor::Black };
        let t = types[i % 6];
        r.push(Piece { color, piece_type: t });
        i = i + 1;
    }
    r
}

/// One sprite handle for each (color, kind) combination.
pub struct SpriteSet<H> {
    handles: Vec<H>,
}

impl<H> View for SpriteSet<H> {
    type V = Seq<H>;

    closed spec fn view(&self) -> Seq<H> {
        self.handles@
    }
}

impl<H> SpriteSet<H> {
    pub open spec fn wf(&self) -> bool {
        self@.len() == 12
    }

    /// Builds the set from twelve handles laid out by sprite slot (the order
    /// of `all_pieces`); `None` for any other count.
    pub fn from_handles(handles: Vec<H>) -> (r: Option<SpriteSet<H>>)
        ensures
            r is Some <==> handles@.len() == 12,
            r matches Some(s) ==> s.wf() && s@ == handles@,
    {
        if handles.len() == 12 {
            Some(SpriteSet { handles })
        } else {
            None
        }
    }

    /// The sprite of `piece`.
    pub fn get(&self, piece: Piece) -> (r: &H)
        requires
            self.wf(),
        ensures
            *r == self@[sprite_slot(piece)],
    {
        &self.handles[sprite_index(piece)]
    }
}

} // verus!
