use vstd::prelude::*;

verus! {

/// Number of cells along each side of the board.
pub const GRID_SIZE: i32 = 8;

/// Side length of one square cell, in pixels.
pub const GRID_CELL_SIZE: i32 = 128;

/// Side length of the whole board, in pixels.
pub const BOARD_PIXELS: i32 = 1024;

/// An axis-aligned screen rectangle in pixel units.
#[derive(Clone, Copy, Debug, PartialEq, Eq, Structural)]
pub struct Rect {
    pub x: i32,
    pub y: i32,
    pub w: i32,
    pub h: i32,
}

/// The rectangle of the cell at `file`, `rank`.
pub open spec fn cell_rect_spec(file: int, rank: int) -> Rect {
    Rect {
        x: (file * GRID_CELL_SIZE) as i32,
        y: (rank * GRID_CELL_SIZE) as i32,
        w: GRID_CELL_SIZE,
        h: GRID_CELL_SIZE,
    }
}

/// The file of a linear cell index.
pub open spec fn file_of(idx: int) -> int {
    idx % GRID_SIZE as int
}

/// The rank of a linear cell index.
pub open spec fn rank_of(idx: int) -> int {
    idx / GRID_SIZE as int
}

/// The rectangle of the cell with linear index `idx`.
pub open spec fn index_rect(idx: int) -> Rect {
    cell_rect_spec(file_of(idx), rank_of(idx))
}

/// Whether the pixel `(px, py)` lies in `r` (half-open on the far edges).
pub open spec fn contains(r: Rect, px: int, py: int) -> bool {
    r.x <= px < r.x + r.w && r.y <= py < r.y + r.h
}

/// Whether the pixel `(px, py)` lies on the board.
pub open spec fn on_board(px: int, py: int) -> bool {
    0 <= px < BOARD_PIXELS && 0 <= py < BOARD_PIXELS
}

impl Rect {
    /// A cell-sized rectangle with its origin at `(x, y)`.
    pub fn new(x: i32, y: i32) -> (r: Rect)
        ensures
            r == (Rect { x, y, w: GRID_CELL_SIZE, h: GRID_CELL_SIZE }),
    {
        Rect { x, y, w: GRID_CELL_SIZE, h: GRID_CELL_SIZE }
    }
}

/// Horizontal pixel offset of a file.
pub fn x(file: i32) -> (r: i32)
    requires
        0 <= file < GRID_SIZE,
    ensures
        r == file * GRID_CELL_SIZE,
{
    file * GRID_CELL_SIZE
}

/// Vertical pixel offset of a rank.
pub fn y(rank: i32) -> (r: i32)
    requires
        0 <= rank < GRID_SIZE,
    ensures
        r == rank * GRID_CELL_SIZE,
{
    rank * GRID_CELL_SIZE
}

/// Maps a file and a rank to the screen rectangle of that cell.
pub fn cell_rect(file: i32, rank: i32) -> (r: Rect)
    requires
        0 <= file < GRID_SIZE,
        0 <= rank < GRID_SIZE,
    ensures
        r == cell_rect_spec(file as int, rank as int),
{
    Rect::new(x(file), y(rank))
}

/// Splits a linear cell index into `(file, rank)`.
pub fn decompose(idx: i32) -> (r: (i32, i32))
    requires
        0 <= idx < GRID_SIZE * GRID_SIZE,
    ensures
        r.0 == file_of(idx as int),
        r.1 == rank_of(idx as int),
        0 <= r.0 < GRID_SIZE,
        0 <= r.1 < GRID_SIZE,
        idx == r.1 * GRID_SIZE + r.0,
{
    (idx % GRID_SIZE, idx / GRID_SIZE)
}

/// The screen rectangle of the cell with linear index `idx`.
pub fn rect_of_index(idx: i32) -> (r: Rect)
    requires
        0 <= idx < GRID_SIZE * GRID_SIZE,
    ensures
        r == index_rect(idx as int),
{
    let (file, rank) = decompose(idx);
    cell_rect(file, rank)
}

/// Decomposing an index and mapping it gives a cell-sized rectangle whose
/// origin is the file and rank scaled by the cell size.
pub proof fn lemma_index_rect_origin(idx: int)
    requires
        0 <= idx < 64,
    ensures
        index_rect(idx).x == (idx % 8) * GRID_CELL_SIZE,
        index_rect(idx).y == (idx / 8) * GRID_CELL_SIZE,
        index_rect(idx).w == GRID_CELL_SIZE,
        index_rect(idx).h == GRID_CELL_SIZE,
{
}

/// Cells with distinct indices share no pixel.
pub proof fn lemma_cells_disjoint(i: int, j: int, px: int, py: int)
    requires
        0 <= i < 64,
        0 <= j < 64,
        i != j,
    ensures
        !(contains(index_rect(i), px, py) && contains(index_rect(j), px, py)),
{
    if contains(index_rect(i), px, py) && contains(index_rect(j), px, py) {
        assert(i % 8 == j % 8 && i / 8 == j / 8);
    }
}

/// The cells together cover exactly the board: a pixel lies in some cell
/// if and only if it lies on the board, and `covering_index` names that cell.
pub proof fn lemma_cells_cover(px: int, py: int)
    ensures
        on_board(px, py) ==> 0 <= covering_index(px, py) < 64
            && contains(index_rect(covering_index(px, py)), px, py),
        (exists|i: int| 0 <= i < 64 && #[trigger] contains(index_rect(i), px, py)) ==> on_board(px, py),
{
    if on_board(px, py) {
        let i = covering_index(px, py);
        assert(i % 8 == px / 128 && i / 8 == py / 128);
    }
}

/// The index of the cell that holds the on-board pixel `(px, py)`.
pub open spec fn covering_index(px: int, py: int) -> int {
    (py / GRID_CELL_SIZE as int) * GRID_SIZE as int + px / GRID_CELL_SIZE as int
}

} // verus!
