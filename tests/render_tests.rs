use chess_gui::{
    all_pieces, background_color, cell_rect, decompose, rect_of_index, render_frame, sprite_index, x, y,
    BoardState, CellColor, ChessState, DrawCommand, Piece, PieceColor, PieceType, Rect, Selection,
    SpriteSet, Square, BOARD_PIXELS, GRID_CELL_SIZE,
};

fn backgrounds(cmds: &[DrawCommand]) -> usize {
    cmds.iter().filter(|c| matches!(c, DrawCommand::Background { .. })).count()
}

fn sprites(cmds: &[DrawCommand]) -> Vec<(Rect, Piece)> {
    cmds.iter()
        .filter_map(|c| match c {
            DrawCommand::Sprite { rect, piece } => Some((*rect, *piece)),
            _ => None,
        })
        .collect()
}

#[test]
fn every_index_maps_to_scaled_origin() {
    for idx in 0..64 {
        let (file, rank) = decompose(idx);
        assert_eq!(file, idx % 8);
        assert_eq!(rank, idx / 8);
        let r = rect_of_index(idx);
        assert_eq!(r, Rect { x: file * GRID_CELL_SIZE, y: rank * GRID_CELL_SIZE, w: GRID_CELL_SIZE, h: GRID_CELL_SIZE });
        assert_eq!(r, cell_rect(file, rank));
    }
    assert_eq!(rect_of_index(12), Rect { x: 512, y: 128, w: 128, h: 128 });
    assert_eq!(x(7), 896);
    assert_eq!(y(3), 384);
    assert_eq!(Rect::new(5, 9), Rect { x: 5, y: 9, w: 128, h: 128 });
}

#[test]
fn cells_tile_board_without_overlap() {
    let mut hits = vec![0u32; 64];
    for py in (0..BOARD_PIXELS).step_by(16) {
        for px in (0..BOARD_PIXELS).step_by(16) {
            let mut count = 0;
            for idx in 0..64 {
                let r = rect_of_index(idx);
                if r.x <= px && px < r.x + r.w && r.y <= py && py < r.y + r.h {
                    count += 1;
                    hits[idx as usize] += 1;
                }
            }
            assert_eq!(count, 1);
        }
    }
    assert!(hits.iter().all(|&h| h == 64));
    assert_eq!(GRID_CELL_SIZE * 8, BOARD_PIXELS);
}

#[test]
fn checkerboard_parity() {
    assert_eq!(background_color(0, 0), CellColor::Light);
    assert_eq!(background_color(1, 0), CellColor::Dark);
    assert_eq!(background_color(0, 1), CellColor::Dark);
    assert_eq!(background_color(1, 1), CellColor::Light);
    for f in 0..8 {
        for r in 0..8 {
            let expect = if (f + r) % 2 == 0 { CellColor::Light } else { CellColor::Dark };
            assert_eq!(background_color(f, r), expect);
            if f + 1 < 8 {
                assert_ne!(background_color(f + 1, r), background_color(f, r));
            }
            if r + 1 < 8 {
                assert_ne!(background_color(f, r + 1), background_color(f, r));
            }
        }
    }
}

#[test]
fn empty_board_draws_only_backgrounds() {
    let board = BoardState::empty();
    let cmds = render_frame(&board, &Selection::new());
    assert_eq!(cmds.len(), 64);
    assert_eq!(backgrounds(&cmds), 64);
    assert_eq!(sprites(&cmds).len(), 0);
    for (idx, c) in cmds.iter().enumerate() {
        let i = idx as i32;
        let color = if (i % 8 + i / 8) % 2 == 0 { CellColor::Light } else { CellColor::Dark };
        assert_eq!(*c, DrawCommand::Background { rect: rect_of_index(i), color });
    }
}

#[test]
fn single_white_pawn_draws_one_sprite() {
    let mut board = BoardState::empty();
    let pawn = Piece { color: PieceColor::White, piece_type: PieceType::Pawn };
    board.set(&Square { x: 4, y: 1 }, Some(pawn));
    assert_eq!(board.get(&Square { x: 4, y: 1 }), Some(pawn));
    let cmds = render_frame(&board, &Selection::new());
    assert_eq!(backgrounds(&cmds), 64);
    let s = sprites(&cmds);
    assert_eq!(s, vec![(Rect { x: 512, y: 128, w: 128, h: 128 }, pawn)]);
    assert_eq!(s[0].0, cell_rect(4, 1));
    // The sprite follows its own cell's background.
    let pos = cmds.iter().position(|c| matches!(c, DrawCommand::Sprite { .. })).unwrap();
    assert_eq!(cmds[pos - 1], DrawCommand::Background { rect: cell_rect(4, 1), color: CellColor::Dark });
}

#[test]
fn cleared_square_draws_nothing() {
    let mut board = BoardState::empty();
    let sq = Square { x: 0, y: 7 };
    board.set(&sq, Some(Piece { color: PieceColor::Black, piece_type: PieceType::Rook }));
    board.set(&sq, None);
    assert_eq!(board.get(&sq), None);
    assert_eq!(sprites(&render_frame(&board, &Selection::new())).len(), 0);
}

#[test]
fn selection_set_and_get() {
    let mut sel = Selection::new();
    assert_eq!(sel.get(), None);
    let sq = Square { x: 2, y: 5 };
    sel.set(Some(sq));
    assert_eq!(sel.get(), Some(sq));
    sel.set(None);
    assert_eq!(sel.get(), None);
}

#[test]
fn selection_does_not_change_frame() {
    let board = BoardState::standard();
    let mut sel = Selection::new();
    let plain = render_frame(&board, &sel);
    sel.set(Some(Square { x: 4, y: 1 }));
    assert_eq!(render_frame(&board, &sel), plain);
}

#[test]
fn standard_start_draws_thirty_two_sprites() {
    let board = BoardState::standard();
    let cmds = render_frame(&board, &Selection::new());
    assert_eq!(backgrounds(&cmds), 64);
    let s = sprites(&cmds);
    assert_eq!(s.len(), 32);
    let back = [
        PieceType::Rook,
        PieceType::Knight,
        PieceType::Bishop,
        PieceType::Queen,
        PieceType::King,
        PieceType::Bishop,
        PieceType::Knight,
        PieceType::Rook,
    ];
    for (rect, piece) in &s {
        let file = rect.x / GRID_CELL_SIZE;
        let rank = rect.y / GRID_CELL_SIZE;
        let expected = match rank {
            0 => Piece { color: PieceColor::White, piece_type: back[file as usize] },
            1 => Piece { color: PieceColor::White, piece_type: PieceType::Pawn },
            6 => Piece { color: PieceColor::Black, piece_type: PieceType::Pawn },
            7 => Piece { color: PieceColor::Black, piece_type: back[file as usize] },
            _ => panic!("sprite on an empty rank"),
        };
        assert_eq!(*piece, expected);
    }
    for i in 0..s.len() {
        for j in (i + 1)..s.len() {
            assert_ne!(s[i].0, s[j].0);
        }
    }
    assert_eq!(
        board.get(&Square { x: 4, y: 7 }),
        Some(Piece { color: PieceColor::Black, piece_type: PieceType::King })
    );
    assert_eq!(
        board.get(&Square { x: 3, y: 0 }),
        Some(Piece { color: PieceColor::White, piece_type: PieceType::Queen })
    );
    assert_eq!(board.get(&Square { x: 3, y: 4 }), None);
}

#[test]
fn frame_driver_update_and_draw() {
    let mut state = ChessState::new();
    assert_eq!(state.dt_nanos, 0);
    assert_eq!(state.pos_selected.get(), None);
    state.update(16_666_667);
    assert_eq!(state.dt_nanos, 16_666_667);
    let cmds = state.draw();
    assert_eq!(cmds, render_frame(&BoardState::standard(), &Selection::new()));
    assert_eq!(sprites(&cmds).len(), 32);
}

#[test]
fn sprite_set_lookup_is_total() {
    let pieces = all_pieces();
    assert_eq!(pieces.len(), 12);
    for (i, p) in pieces.iter().enumerate() {
        assert_eq!(sprite_index(*p), i);
    }
    assert_eq!(sprite_index(Piece { color: PieceColor::White, piece_type: PieceType::King }), 0);
    assert_eq!(sprite_index(Piece { color: PieceColor::Black, piece_type: PieceType::Pawn }), 11);
    let names: Vec<String> = pieces.iter().map(|p| format!("{:?}{:?}", p.color, p.piece_type)).collect();
    let set = SpriteSet::from_handles(names.clone()).unwrap();
    for p in &pieces {
        assert_eq!(set.get(*p), &format!("{:?}{:?}", p.color, p.piece_type));
    }
    assert!(SpriteSet::from_handles(vec![0u8; 11]).is_none());
    assert!(SpriteSet::from_handles(vec![0u8; 13]).is_none());
}
