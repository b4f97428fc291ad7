use chess_ui::game::{GameEffect, GodotGame, SelectionState};
use chess_ui::moves::{GodotMove, GodotSpecialMove};
use chess_ui::pieces::{GodotPiece, GodotPieceColor, GodotPieceKind};
use chess_ui::square::GodotSquare;

use GodotPieceColor::{Black, White};
use GodotPieceKind::{Bishop, King, Knight, Pawn, Queen, Rook};

fn sq(file: u8, rank: u8) -> GodotSquare {
    GodotSquare { file, rank }
}

fn normal(origin: GodotSquare, destination: GodotSquare) -> GodotMove {
    GodotMove {
        origin,
        destination,
        promotion_piece: None,
        special: GodotSpecialMove::Normal,
    }
}

fn promotion(origin: GodotSquare, destination: GodotSquare, kind: GodotPieceKind) -> GodotMove {
    GodotMove {
        origin,
        destination,
        promotion_piece: Some(kind),
        special: GodotSpecialMove::Promotion,
    }
}

fn standard_start() -> Vec<(GodotSquare, GodotPieceColor, GodotPieceKind)> {
    let back = [Rook, Knight, Bishop, Queen, King, Bishop, Knight, Rook];
    let mut pieces = Vec::new();
    for (file, kind) in back.iter().enumerate() {
        pieces.push((sq(file as u8, 0), White, *kind));
        pieces.push((sq(file as u8, 7), Black, *kind));
    }
    for file in 0u8..8 {
        pieces.push((sq(file, 1), White, Pawn));
        pieces.push((sq(file, 6), Black, Pawn));
    }
    pieces
}

fn piece_on(game: &GodotGame, square: GodotSquare) -> Option<GodotPiece> {
    let i = square.get_field_index(&game.player_color);
    game.board.piece_at(i)
}

#[test]
fn start_position_is_laid_out_and_idle() {
    let game = GodotGame::start_from_position(White, White, &standard_start());
    assert_eq!(game.selection, SelectionState::Idle);
    assert!(!game.legal_moves.built);
    assert_eq!(game.turn, White);
    assert_eq!(piece_on(&game, sq(4, 0)), Some(GodotPiece { color: White, kind: King }));
    assert_eq!(piece_on(&game, sq(4, 1)), Some(GodotPiece { color: White, kind: Pawn }));
    assert_eq!(piece_on(&game, sq(3, 7)), Some(GodotPiece { color: Black, kind: Queen }));
    assert_eq!(piece_on(&game, sq(4, 4)), None);
}

#[test]
fn clicking_empty_square_keeps_idle() {
    let mut game = GodotGame::start_from_position(White, White, &standard_start());
    let effects = game.on_click(&sq(4, 4));
    assert_eq!(effects, vec![GameEffect::ClearHelpers]);
    assert_eq!(game.selection, SelectionState::Idle);
    assert_eq!(game.turn, White);
}

#[test]
fn clicking_opponent_piece_keeps_idle() {
    let mut game = GodotGame::start_from_position(White, White, &standard_start());
    let effects = game.on_click(&sq(4, 6));
    assert_eq!(effects, vec![GameEffect::ClearHelpers]);
    assert_eq!(game.selection, SelectionState::Idle);
}

#[test]
fn first_selection_fetches_legal_moves_once() {
    let e2 = sq(4, 1);
    let e3 = sq(4, 2);
    let e4 = sq(4, 3);
    let mut game = GodotGame::start_from_position(White, White, &standard_start());

    let effects = game.on_click(&e2);
    assert_eq!(effects, vec![GameEffect::ClearHelpers, GameEffect::FetchLegalMoves]);
    assert_eq!(game.selection, SelectionState::Idle);
    assert_eq!(game.pending_click, Some(e2));

    let effects = game.provide_legal_moves(vec![normal(e2, e3), normal(e2, e4)]);
    assert!(game.legal_moves.built);
    assert_eq!(game.pending_click, None);
    assert_eq!(game.selection, SelectionState::Selected { origin: e2, kind: Pawn });
    assert_eq!(
        effects,
        vec![
            GameEffect::ShowSelection(e2),
            GameEffect::ShowHelpers(vec![e3, e4]),
        ]
    );
}

#[test]
fn pawn_double_step_relocates_and_flips_turn() {
    // Standard start, White to move: e2 then e4.
    let e2 = sq(4, 1);
    let e4 = sq(4, 3);
    let mut game = GodotGame::start_from_position(White, White, &standard_start());
    game.on_click(&e2);
    game.provide_legal_moves(vec![normal(e2, sq(4, 2)), normal(e2, e4)]);

    let effects = game.on_click(&e4);
    assert_eq!(
        effects,
        vec![
            GameEffect::ClearHelpers,
            GameEffect::MovePiece(e2, e4),
            GameEffect::EnginePlayMove(normal(e2, e4)),
            GameEffect::PlayMoveSound,
            GameEffect::HideSelection,
            GameEffect::HidePromotionChooser,
        ]
    );
    assert_eq!(piece_on(&game, e2), None);
    assert_eq!(piece_on(&game, e4), Some(GodotPiece { color: White, kind: Pawn }));
    assert_eq!(game.turn, Black);
    assert_eq!(game.selection, SelectionState::Idle);
    assert!(!game.legal_moves.built);
}

#[test]
fn reselecting_own_piece_changes_origin_in_one_event() {
    let e2 = sq(4, 1);
    let d2 = sq(3, 1);
    let d3 = sq(3, 2);
    let mut game = GodotGame::start_from_position(White, White, &standard_start());
    game.on_click(&e2);
    game.provide_legal_moves(vec![normal(e2, sq(4, 2)), normal(d2, d3)]);
    assert_eq!(game.selection, SelectionState::Selected { origin: e2, kind: Pawn });

    let effects = game.on_click(&d2);
    assert_eq!(game.selection, SelectionState::Selected { origin: d2, kind: Pawn });
    assert_eq!(
        effects,
        vec![
            GameEffect::ClearHelpers,
            GameEffect::ShowSelection(d2),
            GameEffect::ShowHelpers(vec![d3]),
        ]
    );
}

#[test]
fn click_without_matching_move_cancels_selection() {
    let e2 = sq(4, 1);
    let mut game = GodotGame::start_from_position(White, White, &standard_start());
    game.on_click(&e2);
    game.provide_legal_moves(vec![normal(e2, sq(4, 2)), normal(e2, sq(4, 3))]);

    // h5 is empty and no cached move goes there.
    let effects = game.on_click(&sq(7, 4));
    assert_eq!(effects, vec![GameEffect::ClearHelpers, GameEffect::HideSelection]);
    assert_eq!(game.selection, SelectionState::Idle);
    assert_eq!(game.turn, White);
    assert_eq!(piece_on(&game, e2), Some(GodotPiece { color: White, kind: Pawn }));
}

#[test]
fn capture_removes_piece_and_plays_capture_sound() {
    let e4 = sq(4, 3);
    let d5 = sq(3, 4);
    let pieces = vec![(e4, White, Pawn), (d5, Black, Pawn)];
    let mut game = GodotGame::start_from_position(White, White, &pieces);
    game.on_click(&e4);
    game.provide_legal_moves(vec![normal(e4, d5), normal(e4, sq(4, 4))]);

    let effects = game.on_click(&d5);
    assert_eq!(
        effects,
        vec![
            GameEffect::ClearHelpers,
            GameEffect::RemovePieceAt(d5),
            GameEffect::MovePiece(e4, d5),
            GameEffect::EnginePlayMove(normal(e4, d5)),
            GameEffect::PlayCaptureSound,
            GameEffect::HideSelection,
            GameEffect::HidePromotionChooser,
        ]
    );
    assert_eq!(piece_on(&game, e4), None);
    assert_eq!(piece_on(&game, d5), Some(GodotPiece { color: White, kind: Pawn }));
    assert_eq!(game.turn, Black);
}

#[test]
fn end_turn_invalidates_index_and_clears_selection() {
    let e2 = sq(4, 1);
    let mut game = GodotGame::start_from_position(White, White, &standard_start());
    game.on_click(&e2);
    game.provide_legal_moves(vec![normal(e2, sq(4, 2))]);
    assert!(game.legal_moves.built);

    let effects = game.end_turn();
    assert_eq!(effects, vec![GameEffect::HideSelection, GameEffect::HidePromotionChooser]);
    assert_eq!(game.selection, SelectionState::Idle);
    assert!(!game.legal_moves.built);
    assert!(game.legal_moves.lookup(&e2).is_empty());
    assert_eq!(game.turn, Black);
}

#[test]
fn promotion_flow_selects_knight_at_distance_one() {
    // A pawn one rank from promotion: click origin, click the promotion
    // square, then click the same file one rank away from it.
    let e7 = sq(4, 6);
    let e8 = sq(4, 7);
    let pieces = vec![(e7, White, Pawn), (sq(0, 0), White, King)];
    let mut game = GodotGame::start_from_position(White, White, &pieces);
    game.on_click(&e7);
    game.provide_legal_moves(vec![
        promotion(e7, e8, Queen),
        promotion(e7, e8, Rook),
        promotion(e7, e8, Bishop),
        promotion(e7, e8, Knight),
    ]);

    let effects = game.on_click(&e8);
    assert_eq!(
        effects,
        vec![GameEffect::ClearHelpers, GameEffect::ShowPromotionChooser(e8)]
    );
    assert_eq!(
        game.selection,
        SelectionState::AwaitingPromotion { origin: e7, target_square: e8 }
    );
    assert_eq!(game.turn, White);

    // Rank distance 1 from the target selects the knight.
    let effects = game.on_click(&sq(4, 6));
    let chosen = promotion(e7, e8, Knight);
    assert_eq!(
        effects,
        vec![
            GameEffect::ClearHelpers,
            GameEffect::MovePiece(e7, e8),
            GameEffect::PlacePiece(e8, White, Knight),
            GameEffect::EnginePlayMove(chosen),
            GameEffect::PlayMoveSound,
            GameEffect::HideSelection,
            GameEffect::HidePromotionChooser,
        ]
    );
    assert_eq!(piece_on(&game, e8), Some(GodotPiece { color: White, kind: Knight }));
    assert_eq!(piece_on(&game, e7), None);
    // The turn flips once, not twice.
    assert_eq!(game.turn, Black);
    assert_eq!(game.selection, SelectionState::Idle);
}

#[test]
fn promotion_distance_table_is_fixed() {
    // Distance 0 selects the queen, 2 the rook, 3 the bishop.
    for (click_rank, expected) in [(7u8, Queen), (5u8, Rook), (4u8, Bishop)] {
        let e7 = sq(4, 6);
        let e8 = sq(4, 7);
        let pieces = vec![(e7, White, Pawn)];
        let mut game = GodotGame::start_from_position(White, White, &pieces);
        game.on_click(&e7);
        game.provide_legal_moves(vec![promotion(e7, e8, Queen)]);
        game.on_click(&e8);

        game.on_click(&sq(4, click_rank));
        assert_eq!(
            piece_on(&game, e8),
            Some(GodotPiece { color: White, kind: expected })
        );
        assert_eq!(game.turn, Black);
    }
}

#[test]
fn promotion_capture_plays_capture_sound() {
    let e7 = sq(4, 6);
    let e8 = sq(4, 7);
    let pieces = vec![(e7, White, Pawn), (e8, Black, Rook)];
    let mut game = GodotGame::start_from_position(White, White, &pieces);
    game.on_click(&e7);
    game.provide_legal_moves(vec![promotion(e7, e8, Queen)]);
    game.on_click(&e8);

    let effects = game.on_click(&e8);
    let chosen = promotion(e7, e8, Queen);
    assert_eq!(
        effects,
        vec![
            GameEffect::ClearHelpers,
            GameEffect::RemovePieceAt(e8),
            GameEffect::MovePiece(e7, e8),
            GameEffect::PlacePiece(e8, White, Queen),
            GameEffect::EnginePlayMove(chosen),
            GameEffect::PlayCaptureSound,
            GameEffect::HideSelection,
            GameEffect::HidePromotionChooser,
        ]
    );
    assert_eq!(piece_on(&game, e8), Some(GodotPiece { color: White, kind: Queen }));
}

#[test]
fn promotion_cancelled_by_click_off_the_chooser() {
    let e7 = sq(4, 6);
    let e8 = sq(4, 7);
    let pieces = vec![(e7, White, Pawn)];
    let mut game = GodotGame::start_from_position(White, White, &pieces);
    game.on_click(&e7);
    game.provide_legal_moves(vec![promotion(e7, e8, Queen)]);
    game.on_click(&e8);

    // A different file cancels the flow without mutating the board.
    let effects = game.on_click(&sq(3, 7));
    assert_eq!(
        effects,
        vec![
            GameEffect::ClearHelpers,
            GameEffect::HideSelection,
            GameEffect::HidePromotionChooser,
        ]
    );
    assert_eq!(game.selection, SelectionState::Idle);
    assert!(!game.legal_moves.built);
    assert_eq!(piece_on(&game, e7), Some(GodotPiece { color: White, kind: Pawn }));
    assert_eq!(piece_on(&game, e8), None);
    assert_eq!(game.turn, White);
}

#[test]
fn promotion_cancelled_by_distance_beyond_three() {
    let e7 = sq(4, 6);
    let e8 = sq(4, 7);
    let pieces = vec![(e7, White, Pawn)];
    let mut game = GodotGame::start_from_position(White, White, &pieces);
    game.on_click(&e7);
    game.provide_legal_moves(vec![promotion(e7, e8, Queen)]);
    game.on_click(&e8);

    // Same file, but four ranks away from the target: cancel.
    game.on_click(&sq(4, 3));
    assert_eq!(game.selection, SelectionState::Idle);
    assert_eq!(piece_on(&game, e8), None);
    assert_eq!(game.turn, White);
}

#[test]
fn castling_kingside_relocates_king_and_rook() {
    let e1 = sq(4, 0);
    let g1 = sq(6, 0);
    let f1 = sq(5, 0);
    let h1 = sq(7, 0);
    let pieces = vec![(e1, White, King), (h1, White, Rook)];
    let mut game = GodotGame::start_from_position(White, White, &pieces);
    let mv = GodotMove {
        origin: e1,
        destination: g1,
        promotion_piece: None,
        special: GodotSpecialMove::Castling,
    };
    let effects = game.apply_move(&mv);
    assert_eq!(
        effects,
        vec![
            GameEffect::MovePiece(e1, g1),
            GameEffect::MovePiece(h1, f1),
            GameEffect::EnginePlayMove(mv),
            GameEffect::PlayMoveSound,
        ]
    );
    assert_eq!(piece_on(&game, g1), Some(GodotPiece { color: White, kind: King }));
    assert_eq!(piece_on(&game, f1), Some(GodotPiece { color: White, kind: Rook }));
    assert_eq!(piece_on(&game, e1), None);
    assert_eq!(piece_on(&game, h1), None);
}

#[test]
fn castling_queenside_uses_the_other_rook() {
    let e1 = sq(4, 0);
    let c1 = sq(2, 0);
    let d1 = sq(3, 0);
    let a1 = sq(0, 0);
    let pieces = vec![(e1, White, King), (a1, White, Rook)];
    let mut game = GodotGame::start_from_position(White, White, &pieces);
    let mv = GodotMove {
        origin: e1,
        destination: c1,
        promotion_piece: None,
        special: GodotSpecialMove::Castling,
    };
    game.apply_move(&mv);
    assert_eq!(piece_on(&game, c1), Some(GodotPiece { color: White, kind: King }));
    assert_eq!(piece_on(&game, d1), Some(GodotPiece { color: White, kind: Rook }));
    assert_eq!(piece_on(&game, a1), None);
    assert_eq!(piece_on(&game, e1), None);
}

#[test]
fn en_passant_removes_pawn_on_offset_square() {
    let e5 = sq(4, 4);
    let d5 = sq(3, 4);
    let d6 = sq(3, 5);
    let pieces = vec![(e5, White, Pawn), (d5, Black, Pawn)];
    let mut game = GodotGame::start_from_position(White, White, &pieces);
    let mv = GodotMove {
        origin: e5,
        destination: d6,
        promotion_piece: None,
        special: GodotSpecialMove::EnPassant,
    };
    let effects = game.apply_move(&mv);
    assert_eq!(
        effects,
        vec![
            GameEffect::RemovePieceAt(d5),
            GameEffect::MovePiece(e5, d6),
            GameEffect::EnginePlayMove(mv),
            GameEffect::PlayCaptureSound,
        ]
    );
    // The captured pawn left the offset square, not the destination.
    assert_eq!(piece_on(&game, d5), None);
    assert_eq!(piece_on(&game, d6), Some(GodotPiece { color: White, kind: Pawn }));
    assert_eq!(piece_on(&game, e5), None);
}

#[test]
fn en_passant_through_click_flow_for_black_viewer() {
    // The same capture seen by a Black viewer exercises the other offset.
    let d4 = sq(3, 3);
    let e4 = sq(4, 3);
    let e3 = sq(4, 2);
    let pieces = vec![(d4, Black, Pawn), (e4, White, Pawn)];
    let mut game = GodotGame::start_from_position(Black, Black, &pieces);
    game.on_click(&d4);
    let mv = GodotMove {
        origin: d4,
        destination: e3,
        promotion_piece: None,
        special: GodotSpecialMove::EnPassant,
    };
    game.provide_legal_moves(vec![mv]);

    let effects = game.on_click(&e3);
    assert_eq!(
        effects,
        vec![
            GameEffect::ClearHelpers,
            GameEffect::RemovePieceAt(e4),
            GameEffect::MovePiece(d4, e3),
            GameEffect::EnginePlayMove(mv),
            GameEffect::PlayCaptureSound,
            GameEffect::HideSelection,
            GameEffect::HidePromotionChooser,
        ]
    );
    assert_eq!(piece_on(&game, e4), None);
    assert_eq!(piece_on(&game, e3), Some(GodotPiece { color: Black, kind: Pawn }));
    assert_eq!(game.turn, White);
}

#[test]
fn selecting_with_no_legal_moves_shows_no_helpers() {
    // A selected piece may have nothing to do; the selection still happens
    // and the helper list is empty.
    let e2 = sq(4, 1);
    let mut game = GodotGame::start_from_position(White, White, &standard_start());
    game.on_click(&e2);
    let effects = game.provide_legal_moves(Vec::new());
    assert_eq!(
        effects,
        vec![
            GameEffect::ShowSelection(e2),
            GameEffect::ShowHelpers(Vec::new()),
        ]
    );
    assert_eq!(game.selection, SelectionState::Selected { origin: e2, kind: Pawn });
    assert!(game.legal_moves.built);
}

#[test]
fn turns_alternate_and_each_fetches_once() {
    let e2 = sq(4, 1);
    let e4 = sq(4, 3);
    let e7 = sq(4, 6);
    let e5 = sq(4, 4);
    let mut game = GodotGame::start_from_position(White, White, &standard_start());

    game.on_click(&e2);
    game.provide_legal_moves(vec![normal(e2, e4)]);
    game.on_click(&e4);
    assert_eq!(game.turn, Black);

    // Black's first selection must fetch again: the index died with the turn.
    let effects = game.on_click(&e7);
    assert_eq!(effects, vec![GameEffect::ClearHelpers, GameEffect::FetchLegalMoves]);
    game.provide_legal_moves(vec![normal(e7, e5)]);
    game.on_click(&e5);
    assert_eq!(game.turn, White);
    assert_eq!(piece_on(&game, e4), Some(GodotPiece { color: White, kind: Pawn }));
    assert_eq!(piece_on(&game, e5), Some(GodotPiece { color: Black, kind: Pawn }));
    assert_eq!(piece_on(&game, e2), None);
    assert_eq!(piece_on(&game, e7), None);
}

#[test]
fn selection_reuses_cached_index_within_a_turn() {
    // After a cancelled selection the index is still built, so selecting
    // again asks the engine for nothing.
    let e2 = sq(4, 1);
    let mut game = GodotGame::start_from_position(White, White, &standard_start());
    game.on_click(&e2);
    game.provide_legal_moves(vec![normal(e2, sq(4, 2))]);
    game.on_click(&sq(7, 4));
    assert_eq!(game.selection, SelectionState::Idle);
    assert!(game.legal_moves.built);

    let effects = game.on_click(&e2);
    assert!(!effects.contains(&GameEffect::FetchLegalMoves));
    assert_eq!(game.selection, SelectionState::Selected { origin: e2, kind: Pawn });
}
