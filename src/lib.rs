//! Board geometry, draw-command generation and selection state for an
//! 8x8 board-game front end.
pub mod board;
pub mod frame;
pub mod geometry;
pub mod render;
pub mod selection;
pub mod sprites;

pub use board::{BoardState, Piece, PieceColor, PieceType, Square};
pub use geometry::{cell_rect, decompose, rect_of_index, x, y, Rect, BOARD_PIXELS, GRID_CELL_SIZE, GRID_SIZE};
pub use render::{background_color, render_frame, CellColor, DrawCommand};
pub use selection::Selection;
pub use frame::ChessState;
pub use sprites::{all_pieces, sprite_index, SpriteSet};
