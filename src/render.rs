use vstd::prelude::*;
use crate::board::{BoardState, Piece, Square};
use crate::geometry::{cell_rect, decompose, file_of, index_rect, rank_of, Rect};
use crate::selection::Selection;

verus! {

/// The background shade of a board cell.
#[derive(Clone, Copy, Debug, PartialEq, Eq, Structural, Hash)]
pub enum CellColor {
    Light,
    Dark,
}

/// One drawing command of a frame.
#[derive(Clone, Copy, Debug, PartialEq, Eq, Structural)]
pub enum DrawCommand {
    /// A filled quad of the given shade covering `rect`.
    Background { rect: Rect, color: CellColor },
    /// The sprite of `piece`, stretched over `rect`.
    Sprite { rect: Rect, piece: Piece },
}

/// Checkerboard shade: light where `file + rank` is even, dark elsewhere.
pub open spec fn cell_color(file: int, rank: int) -> CellColor {
    if (file + rank) % 2 == 0 {
        CellColor::Light
    } else {
        CellColor::Dark
    }
}

/// The background command of the cell with index `idx`.
pub open spec fn background_command(idx: int) -> DrawCommand {
    DrawCommand::Background { rect: index_rect(idx), color: cell_color(file_of(idx), rank_of(idx)) }
}

/// The commands of one cell: its background, then its piece's sprite if any.
pub open spec fn cell_commands(idx: int, cell: Option<Piece>) -> Seq<DrawCommand> {
    match cell {
        None => seq![background_command(idx)],
        Some(p) => seq![background_command(idx), DrawCommand::Sprite { rect: index_rect(idx), piece: p }],
    }
}

/// The commands of the first `n` cells of `cells`, in index order.
pub open spec fn frame_prefix(cells: Seq<Option<Piece>>, n: nat) -> Seq<DrawCommand>
    decreases n,
{
    if n == 0 {
        seq![]
    } else {
        frame_prefix(cells, (n - 1) as nat) + cell_commands(n - 1, cells[n - 1])
    }
}

/// The full frame drawn for a snapshot.
pub open spec fn frame_commands(cells: Seq<Option<Piece>>) -> Seq<DrawCommand> {
    frame_prefix(cells, 64)
}

/// Number of background commands in `s`.
pub open spec fn background_count(s: Seq<DrawCommand>) -> nat
    decreases s.len(),
{
    if s.len() == 0 {
        0
    } else {
        background_count(s.drop_last()) + if s.last() is Background { 1nat } else { 0nat }
    }
}

/// Number of sprite commands in `s`.
pub open spec fn sprite_count(s: Seq<DrawCommand>) -> nat
    decreases s.len(),
{
    if s.len() == 0 {
        0
    } else {
        sprite_count(s.drop_last()) + if s.last() is Sprite { 1nat } else { 0nat }
    }
}

/// Number of occupied cells among the first `n` of `cells`.
pub open spec fn occupied_count(cells: Seq<Option<Piece>>, n: nat) -> nat
    decreases n,
{
    if n == 0 {
        0
    } else {
        occupied_count(cells, (n - 1) as nat) + if cells[n - 1] is Some { 1nat } else { 0nat }
    }
}

/// Background shade of the cell at `file`, `rank`.
pub fn background_color(file: i32, rank: i32) -> (r: CellColor)
    requires
        0 <= file < 8,
        0 <= rank < 8,
    ensures
        r == cell_color(file as int, rank as int),
{
    if (file + rank) % 2 == 0 {
        CellColor::Light
    } else {
        CellColor::Dark
    }
}

/// Builds the draw commands of one frame: for each cell in ascending index
/// order, its background quad, then the sprite of the piece on it, if any.
/// The selection is accepted for highlighting and does not change the frame.
pub fn render_frame(board: &BoardState, _selection: &Selection) -> (r: Vec<DrawCommand>)
    requires
        board.wf(),
    ensures
        r@ == frame_commands(board@),
{
    let mut out: Vec<DrawCommand> = Vec::new();
    let mut idx: i32 = 0;
    while idx < 64
        invariant
            0 <= idx <= 64,
            board.wf(),
            out@ == frame_prefix(board@, idx as nat),
        decreases 64 - idx,
    {
        let (file, rank) = decompose(idx);
        let rect = cell_rect(file, rank);
        let color = background_color(file, rank);
        out.push(DrawCommand::Background { rect, color });
        let square = Square { x: file as i8, y: rank as i8 };
        match board.get(&square) {
            Some(piece) => {
                out.push(DrawCommand::Sprite { rect, piece });
            },
            None => {},
        }
        assert(out@ =~= frame_prefix(board@, (idx + 1) as nat));
        idx = idx + 1;
    }
    out
}

/// Counting commands distributes over concatenation.
pub proof fn lemma_counts_concat(a: Seq<DrawCommand>, b: Seq<DrawCommand>)
    ensures
        background_count(a + b) == background_count(a) + background_count(b),
        sprite_count(a + b) == sprite_count(a) + sprite_count(b),
    decreases b.len(),
{
    if b.len() > 0 {
        lemma_counts_concat(a, b.drop_last());
        assert((a + b).drop_last() =~= a + b.drop_last());
    }
}

/// One cell gives one background, and one sprite if it is occupied.
proof fn lemma_cell_counts(idx: int, cell: Option<Piece>)
    ensures
        background_count(cell_commands(idx, cell)) == 1,
        sprite_count(cell_commands(idx, cell)) == if cell is Some { 1nat } else { 0nat },
{
    let c = cell_commands(idx, cell);
    let b = seq![background_command(idx)];
    assert(b.drop_last() =~= Seq::<DrawCommand>::empty());
    assert(background_count(Seq::<DrawCommand>::empty()) == 0);
    assert(sprite_count(Seq::<DrawCommand>::empty()) == 0);
    assert(b.last() == background_command(idx));
    assert(background_count(b) == 1 && sprite_count(b) == 0);
    if cell is Some {
        assert(c.drop_last() =~= b);
    }
}

/// The first `n` cells give `n` backgrounds and one sprite per occupied cell.
pub proof fn lemma_prefix_counts(cells: Seq<Option<Piece>>, n: nat)
    requires
        n <= cells.len(),
    ensures
        background_count(frame_prefix(cells, n)) == n,
        sprite_count(frame_prefix(cells, n)) == occupied_count(cells, n),
    decreases n,
{
    if n > 0 {
        let m = (n - 1) as nat;
        lemma_prefix_counts(cells, m);
        let c = cell_commands(m as int, cells[m as int]);
        lemma_counts_concat(frame_prefix(cells, m), c);
        lemma_cell_counts(m as int, cells[m as int]);
    }
}

/// Every frame holds exactly one background per cell, 64 in all, and
/// exactly one sprite per occupied cell.
pub proof fn lemma_frame_counts(cells: Seq<Option<Piece>>)
    requires
        cells.len() == 64,
    ensures
        background_count(frame_commands(cells)) == 64,
        sprite_count(frame_commands(cells)) == occupied_count(cells, 64),
{
    lemma_prefix_counts(cells, 64);
}

/// Distinct cells have distinct rectangles.
pub proof fn lemma_index_rect_injective(i: int, j: int)
    requires
        0 <= i < 64,
        0 <= j < 64,
        index_rect(i) == index_rect(j),
    ensures
        i == j,
{
}

/// In the first `n` cells' commands, each sprite stands at the rectangle of a
/// cell holding that very piece, each occupied cell has its sprite, and no two
/// sprites share a rectangle.
pub proof fn lemma_prefix_sprites(cells: Seq<Option<Piece>>, n: nat)
    requires
        cells.len() == 64,
        n <= 64,
    ensures
        forall|k: int| 0 <= k < frame_prefix(cells, n).len() && (#[trigger] frame_prefix(cells, n)[k]) is Sprite
            ==> exists|i: int| 0 <= i < n && #[trigger] index_rect(i) == frame_prefix(cells, n)[k]->Sprite_rect
                && cells[i] == Some(frame_prefix(cells, n)[k]->Sprite_piece),
        forall|i: int| 0 <= i < n && (#[trigger] cells[i]) is Some
            ==> frame_prefix(cells, n).contains(DrawCommand::Sprite { rect: index_rect(i), piece: cells[i]->0 }),
        forall|k1: int, k2: int| 0 <= k1 < k2 < frame_prefix(cells, n).len()
            && (#[trigger] frame_prefix(cells, n)[k1]) is Sprite && (#[trigger] frame_prefix(cells, n)[k2]) is Sprite
            ==> frame_prefix(cells, n)[k1]->Sprite_rect != frame_prefix(cells, n)[k2]->Sprite_rect,
    decreases n,
{
    if n > 0 {
        let m = (n - 1) as nat;
        lemma_prefix_sprites(cells, m);
        let a = frame_prefix(cells, m);
        let c = cell_commands(m as int, cells[m as int]);
        let f = frame_prefix(cells, n);
        assert(f == a + c);
        assert forall|k: int| 0 <= k < f.len() && (#[trigger] f[k]) is Sprite implies exists|i: int|
            0 <= i < n && #[trigger] index_rect(i) == f[k]->Sprite_rect && cells[i] == Some(f[k]->Sprite_piece) by {
            if k < a.len() {
                assert(f[k] == a[k]);
            } else {
                assert(f[k] == c[k - a.len()]);
                assert(index_rect(m as int) == f[k]->Sprite_rect);
            }
        }
        assert forall|i: int| 0 <= i < n && (#[trigger] cells[i]) is Some implies f.contains(
            DrawCommand::Sprite { rect: index_rect(i), piece: cells[i]->0 }) by {
            let d = DrawCommand::Sprite { rect: index_rect(i), piece: cells[i]->0 };
            if i < m {
                let k = choose|k: int| 0 <= k < a.len() && a[k] == d;
                assert(f[k] == d);
            } else {
                assert(f[a.len() as int + 1] == d);
            }
        }
        assert forall|k1: int, k2: int| 0 <= k1 < k2 < f.len() && (#[trigger] f[k1]) is Sprite
            && (#[trigger] f[k2]) is Sprite implies f[k1]->Sprite_rect != f[k2]->Sprite_rect by {
            if k2 < a.len() {
                assert(f[k1] == a[k1] && f[k2] == a[k2]);
            } else if k1 < a.len() {
                assert(f[k1] == a[k1]);
                assert(f[k2] == c[k2 - a.len()]);
                assert(a[k1] is Sprite);
                let i = choose|i: int| 0 <= i < m && #[trigger] index_rect(i) == a[k1]->Sprite_rect
                    && cells[i] == Some(a[k1]->Sprite_piece);
                if f[k1]->Sprite_rect == f[k2]->Sprite_rect {
                    lemma_index_rect_injective(i, m as int);
                }
            } else {
                assert(f[k1] == c[k1 - a.len()] && f[k2] == c[k2 - a.len()]);
            }
        }
    }
}

/// Each sprite of a frame stands at the rectangle of a cell holding that
/// piece, each occupied cell gets its sprite, and no two sprites share a
/// rectangle.
pub proof fn lemma_frame_sprites(cells: Seq<Option<Piece>>)
    requires
        cells.len() == 64,
    ensures
        forall|k: int| 0 <= k < frame_commands(cells).len() && (#[trigger] frame_commands(cells)[k]) is Sprite
            ==> exists|i: int| 0 <= i < 64 && #[trigger] index_rect(i) == frame_commands(cells)[k]->Sprite_rect
                && cells[i] == Some(frame_commands(cells)[k]->Sprite_piece),
        forall|i: int| 0 <= i < 64 && (#[trigger] cells[i]) is Some
            ==> frame_commands(cells).contains(DrawCommand::Sprite { rect: index_rect(i), piece: cells[i]->0 }),
        forall|k1: int, k2: int| 0 <= k1 < k2 < frame_commands(cells).len()
            && (#[trigger] frame_commands(cells)[k1]) is Sprite && (#[trigger] frame_commands(cells)[k2]) is Sprite
            ==> frame_commands(cells)[k1]->Sprite_rect != frame_commands(cells)[k2]->Sprite_rect,
{
    lemma_prefix_sprites(cells, 64);
}

/// The checkerboard alternates along both axes.
pub proof fn lemma_parity_alternates(file: int, rank: int)
    requires
        0 <= file < 8,
        0 <= rank < 8,
    ensures
        file + 1 < 8 ==> cell_color(file + 1, rank) != cell_color(file, rank),
        rank + 1 < 8 ==> cell_color(file, rank + 1) != cell_color(file, rank),
{
}

} // verus!
