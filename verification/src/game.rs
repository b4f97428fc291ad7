use vstd::prelude::*;

use crate::board::{
    spec_board_after, spec_empty_board, spec_ep_victim_index, spec_is_capture,
    spec_move_applicable, spec_place_all, spec_rook_destination, spec_rook_origin, PieceBoard,
};
use crate::index::{
    lemma_moves_with_origin_subset, moves_with_origin, spec_first_match, spec_helper_destinations,
    LegalMoveIndex,
};
use crate::moves::{GodotMove, GodotSpecialMove};
use crate::pieces::{GodotPiece, GodotPieceColor, GodotPieceKind};
use crate::square::{spec_engine_index, spec_field_index, spec_square_of_index, GodotSquare};

verus! {

/// The interaction state of the selection machine. Exactly one is active at
/// any time, and it only changes on click events.
#[derive(Clone, Copy, PartialEq, Eq, Structural, Debug)]
pub enum SelectionState {
    /// Nothing is selected.
    Idle,
    /// A piece of the side to move is selected and its candidate
    /// destinations are on display.
    Selected { origin: GodotSquare, kind: GodotPieceKind },
    /// A promotion move has been validated and the chooser is on display;
    /// the next click picks the promotion piece or cancels.
    AwaitingPromotion { origin: GodotSquare, target_square: GodotSquare },
}

/// An instruction to the host. The core never touches the scene graph, the
/// audio players or the engine itself: it returns these effects, in order,
/// and the host carries them out.
#[derive(PartialEq, Eq, Debug)]
pub enum GameEffect {
    /// Remove all candidate-destination markers.
    ClearHelpers,
    /// Query the engine for the legal moves of the current position and hand
    /// them back through `provide_legal_moves`.
    FetchLegalMoves,
    /// Show the selection marker on the given square.
    ShowSelection(GodotSquare),
    /// Hide the selection marker.
    HideSelection,
    /// Show a candidate-destination marker on each listed square.
    ShowHelpers(Vec<GodotSquare>),
    /// Show the promotion chooser anchored at the given square.
    ShowPromotionChooser(GodotSquare),
    /// Hide the promotion chooser.
    HidePromotionChooser,
    PlayMoveSound,
    PlayCaptureSound,
    /// Remove the rendered piece standing on the given square.
    RemovePieceAt(GodotSquare),
    /// Move the rendered piece from the first square to the second.
    MovePiece(GodotSquare, GodotSquare),
    /// Install a newly rendered piece of the given color and kind.
    PlacePiece(GodotSquare, GodotPieceColor, GodotPieceKind),
    /// Forward the validated move to the engine so its authoritative
    /// position, turn and castling state advance.
    EnginePlayMove(GodotMove),
}

/// How far apart, in ranks, the promotion target and a click lie.
pub open spec fn spec_promotion_rank_distance(target: GodotSquare, click: GodotSquare) -> int {
    if target.rank >= click.rank {
        target.rank - click.rank
    } else {
        click.rank - target.rank
    }
}

/// Whether a click during the promotion flow picks a piece: it must hit the
/// target's file within three ranks of the target. Any other click cancels
/// the promotion.
pub open spec fn spec_promotion_choice_hit(target: GodotSquare, click: GodotSquare) -> bool {
    click.file == target.file && spec_promotion_rank_distance(target, click) <= 3
}

/// The fixed distance-to-piece table of the promotion chooser: rank distance
/// 0 selects the queen, 1 the knight, 2 the rook and 3 the bishop.
pub open spec fn spec_promotion_kind(distance: int) -> GodotPieceKind {
    if distance == 0 {
        GodotPieceKind::Queen
    } else if distance == 1 {
        GodotPieceKind::Knight
    } else if distance == 2 {
        GodotPieceKind::Rook
    } else {
        GodotPieceKind::Bishop
    }
}

/// The effects that carrying out `mv` sends to the host, in order: capture
/// removal, en-passant removal, the piece relocations, the promotion piece,
/// the engine hand-off, and exactly one sound. The capture sound plays when
/// a piece is taken, whether it stood on the destination or on the
/// en-passant offset square; the move sound plays otherwise.
pub open spec fn spec_apply_effects(
    b: Seq<Option<GodotPiece>>,
    mv: GodotMove,
    viewer: GodotPieceColor,
    turn: GodotPieceColor,
) -> Seq<GameEffect> {
    let capture = spec_is_capture(b, mv, viewer);
    let sound = if capture || mv.special is EnPassant {
        GameEffect::PlayCaptureSound
    } else {
        GameEffect::PlayMoveSound
    };
    (if capture {
        seq![GameEffect::RemovePieceAt(mv.destination)]
    } else {
        Seq::empty()
    }) + (if mv.special is EnPassant {
        seq![
            GameEffect::RemovePieceAt(
                spec_square_of_index(spec_ep_victim_index(mv, viewer, turn), viewer),
            ),
        ]
    } else {
        Seq::empty()
    }) + seq![GameEffect::MovePiece(mv.origin, mv.destination)] + (if mv.special is Castling {
        seq![GameEffect::MovePiece(spec_rook_origin(mv), spec_rook_destination(mv))]
    } else {
        Seq::empty()
    }) + (match mv.promotion_piece {
        Some(k) => seq![GameEffect::PlacePiece(mv.destination, turn, k)],
        None => Seq::empty(),
    }) + seq![GameEffect::EnginePlayMove(mv), sound]
}

/// Applying a move notifies the outside world exactly once each way: the
/// effect list holds a single `EnginePlayMove`, carrying the very move that
/// was validated, and a single sound effect, which is the capture sound
/// exactly when a piece was taken (on the destination or en passant) and the
/// move sound otherwise.
pub proof fn lemma_apply_effects_engine_once(
    b: Seq<Option<GodotPiece>>,
    mv: GodotMove,
    viewer: GodotPieceColor,
    turn: GodotPieceColor,
)
    ensures
        ({
            let s = spec_apply_effects(b, mv, viewer, turn);
            &&& s.len() >= 2
            &&& s[s.len() - 2] == GameEffect::EnginePlayMove(mv)
            &&& forall|i: int|
                0 <= i < s.len() && i != s.len() - 2 ==> !((#[trigger] s[i]) is EnginePlayMove)
            &&& s.last() == (if spec_is_capture(b, mv, viewer) || mv.special is EnPassant {
                GameEffect::PlayCaptureSound
            } else {
                GameEffect::PlayMoveSound
            })
            &&& forall|i: int|
                0 <= i < s.len() - 1 ==> !((#[trigger] s[i]) is PlayCaptureSound) && !(s[i]
                    is PlayMoveSound)
        }),
{
    let s = spec_apply_effects(b, mv, viewer, turn);
    let capture = spec_is_capture(b, mv, viewer);
    let sound = if capture || mv.special is EnPassant {
        GameEffect::PlayCaptureSound
    } else {
        GameEffect::PlayMoveSound
    };
    let seg1 = if capture {
        seq![GameEffect::RemovePieceAt(mv.destination)]
    } else {
        Seq::<GameEffect>::empty()
    };
    let seg2 = if mv.special is EnPassant {
        seq![
            GameEffect::RemovePieceAt(
                spec_square_of_index(spec_ep_victim_index(mv, viewer, turn), viewer),
            ),
        ]
    } else {
        Seq::<GameEffect>::empty()
    };
    let seg3 = seq![GameEffect::MovePiece(mv.origin, mv.destination)];
    let seg4 = if mv.special is Castling {
        seq![GameEffect::MovePiece(spec_rook_origin(mv), spec_rook_destination(mv))]
    } else {
        Seq::<GameEffect>::empty()
    };
    let seg5 = match mv.promotion_piece {
        Some(k) => seq![GameEffect::PlacePiece(mv.destination, turn, k)],
        None => Seq::<GameEffect>::empty(),
    };
    let pre = seg1 + seg2 + seg3 + seg4 + seg5;
    assert(s =~= pre + seq![GameEffect::EnginePlayMove(mv), sound]);
    assert forall|i: int|
        0 <= i < pre.len() implies !((#[trigger] pre[i]) is EnginePlayMove) && !(pre[i]
        is PlayCaptureSound) && !(pre[i] is PlayMoveSound) by {
        if i < seg1.len() {
            assert(pre[i] == seg1[i]);
        } else if i < seg1.len() + seg2.len() {
            assert(pre[i] == seg2[i - seg1.len()]);
        } else if i < seg1.len() + seg2.len() + seg3.len() {
            assert(pre[i] == seg3[i - seg1.len() - seg2.len()]);
        } else if i < seg1.len() + seg2.len() + seg3.len() + seg4.len() {
            assert(pre[i] == seg4[i - seg1.len() - seg2.len() - seg3.len()]);
        } else {
            assert(pre[i] == seg5[i - seg1.len() - seg2.len() - seg3.len() - seg4.len()]);
        }
    }
    assert(s[s.len() - 2] == GameEffect::EnginePlayMove(mv));
    assert(s.last() == sound);
}

/// The single game controller: it owns the logical board, the per-turn
/// legal-move index, the selection state and the turn, and processes one
/// click event at a time, each run to completion.
pub struct GodotGame {
    pub board: PieceBoard,
    pub legal_moves: LegalMoveIndex,
    pub player_color: GodotPieceColor,
    pub turn: GodotPieceColor,
    pub selection: SelectionState,
    /// A click that selected a piece before the index was built this turn;
    /// it is completed by `provide_legal_moves`.
    pub pending_click: Option<GodotSquare>,
}

impl GodotGame {
    /// Whether `sq` holds a piece of the side to move.
    pub open spec fn spec_own_piece_at(self, sq: GodotSquare) -> bool {
        self.board.at(spec_field_index(sq, self.player_color)) matches Some(p) && p.color
            == self.turn
    }

    pub open spec fn wf(self) -> bool {
        &&& self.board.wf()
        &&& self.legal_moves.wf()
        &&& self.selection matches SelectionState::Selected { origin, kind } ==> {
            &&& origin.wf()
            &&& self.board.at(spec_field_index(origin, self.player_color)) == Some(
                GodotPiece { color: self.turn, kind },
            )
            &&& self.legal_moves.built
        }
        &&& self.selection matches SelectionState::AwaitingPromotion { origin, target_square }
            ==> {
            &&& origin.wf()
            &&& target_square.wf()
            &&& origin != target_square
            &&& self.spec_own_piece_at(origin)
        }
        &&& self.pending_click matches Some(sq) ==> {
            &&& sq.wf()
            &&& self.selection is Idle
            &&& !self.legal_moves.built
            &&& self.spec_own_piece_at(sq)
        }
        &&& self.legal_moves.built ==> forall|j: int, k: int|
            0 <= j < 64 && 0 <= k < self.legal_moves.slots@[j]@.len() ==> spec_move_applicable(
                self.board.slots@,
                #[trigger] self.legal_moves.slots@[j]@[k],
                self.player_color,
                self.turn,
            )
    }

    /// A fresh game over the given position: the listed pieces are placed,
    /// nothing is selected, and no legal-move index is built yet.
    pub fn start_from_position(
        player_color: GodotPieceColor,
        turn: GodotPieceColor,
        pieces: &Vec<(GodotSquare, GodotPieceColor, GodotPieceKind)>,
    ) -> (game: GodotGame)
        requires
            forall|k: int| 0 <= k < pieces@.len() ==> (#[trigger] pieces@[k]).0.wf(),
        ensures
            game.wf(),
            game.player_color == player_color,
            game.turn == turn,
            game.selection is Idle,
            game.pending_click is None,
            !game.legal_moves.built,
            game.board.slots@ == spec_place_all(spec_empty_board(), pieces@, player_color),
    {
        GodotGame {
            board: PieceBoard::from_pieces(pieces, &player_color),
            legal_moves: LegalMoveIndex::new(),
            player_color,
            turn,
            selection: SelectionState::Idle,
            pending_click: None,
        }
    }

    /// Finish a turn: discard the legal-move index, clear the selection,
    /// hide the selection marker and the promotion chooser, and flip the
    /// active color exactly once. The board itself is left alone.
    pub fn end_turn(&mut self) -> (effects: Vec<GameEffect>)
        requires
            old(self).board.wf(),
            old(self).legal_moves.wf(),
            old(self).pending_click is None,
        ensures
            final(self).wf(),
            final(self).selection is Idle,
            final(self).pending_click is None,
            !final(self).legal_moves.built,
            forall|origin: GodotSquare|
                origin.wf() ==> #[trigger] final(self).legal_moves.moves_at(origin).len() == 0,
            final(self).turn == old(self).turn.spec_opponent(),
            final(self).player_color == old(self).player_color,
            final(self).board == old(self).board,
            effects@ == seq![GameEffect::HideSelection, GameEffect::HidePromotionChooser],
    {
        self.legal_moves.invalidate();
        self.selection = SelectionState::Idle;
        self.turn = self.turn.opponent_turn();
        let mut effects: Vec<GameEffect> = Vec::new();
        effects.push(GameEffect::HideSelection);
        effects.push(GameEffect::HidePromotionChooser);
        proof {
            assert(effects@ =~= seq![GameEffect::HideSelection, GameEffect::HidePromotionChooser]);
        }
        effects
    }

    /// Carry out a move already confirmed legal: remove a captured piece
    /// (from the destination, or from the offset square for en passant),
    /// relocate the moving piece, relocate the castling rook, substitute the
    /// promotion piece, and hand the very same move to the engine exactly
    /// once. Only the board changes; the caller ends the turn.
    #[verifier::rlimit(100)]
    pub fn apply_move(&mut self, mv: &GodotMove) -> (effects: Vec<GameEffect>)
        requires
            old(self).board.wf(),
            spec_move_applicable(old(self).board.slots@, *mv, old(self).player_color, old(self).turn),
        ensures
            final(self).board.wf(),
            final(self).board.slots@ == spec_board_after(
                old(self).board.slots@,
                *mv,
                old(self).player_color,
                old(self).turn,
            ),
            effects@ == spec_apply_effects(
                old(self).board.slots@,
                *mv,
                old(self).player_color,
                old(self).turn,
            ),
            final(self).legal_moves == old(self).legal_moves,
            final(self).player_color == old(self).player_color,
            final(self).turn == old(self).turn,
            final(self).selection == old(self).selection,
            final(self).pending_click == old(self).pending_click,
    {
        let ghost b0 = self.board.slots@;
        let oi: usize = mv.origin.get_field_index(&self.player_color);
        let di: usize = mv.destination.get_field_index(&self.player_color);
        let mover: Option<GodotPiece> = self.board.piece_at(oi);
        let captured: bool = self.board.piece_at(di).is_some();

        let mut effects: Vec<GameEffect> = Vec::new();
        if captured {
            effects.push(GameEffect::RemovePieceAt(mv.destination));
        }

        // En passant: the captured pawn stands behind the destination.
        if mv.special == GodotSpecialMove::EnPassant {
            let vi: usize = if self.player_color == self.turn {
                di + 8
            } else {
                di - 8
            };
            let victim_square = GodotSquare::from_field_index(vi, &self.player_color);
            self.board.slots[vi] = None;
            effects.push(GameEffect::RemovePieceAt(victim_square));
        }

        effects.push(GameEffect::MovePiece(mv.origin, mv.destination));

        // Castling: the rook relocates unconditionally beside the king.
        if mv.special == GodotSpecialMove::Castling {
            let (rook_origin_file, rook_destination_file): (u8, u8) = if mv.destination.file == 2 {
                (0, 3)
            } else {
                (7, 5)
            };
            let rook_origin = GodotSquare { file: rook_origin_file, rank: mv.destination.rank };
            let rook_destination = GodotSquare {
                file: rook_destination_file,
                rank: mv.destination.rank,
            };
            let roi: usize = rook_origin.get_field_index(&self.player_color);
            let rdi: usize = rook_destination.get_field_index(&self.player_color);
            let rook: Option<GodotPiece> = self.board.piece_at(roi);
            self.board.slots[rdi] = rook;
            self.board.slots[roi] = None;
            effects.push(GameEffect::MovePiece(rook_origin, rook_destination));
        }

        // Relocate the mover, substituting the promotion piece if any.
        let placed: Option<GodotPiece> = match (mv.get_promotion_piece(), mover) {
            (Some(kind), Some(piece)) => {
                effects.push(GameEffect::PlacePiece(mv.destination, piece.color, kind));
                Some(GodotPiece { color: piece.color, kind })
            },
            (_, m) => m,
        };
        self.board.slots[di] = placed;
        self.board.slots[oi] = None;

        effects.push(GameEffect::EnginePlayMove(*mv));
        if captured || mv.special == GodotSpecialMove::EnPassant {
            effects.push(GameEffect::PlayCaptureSound);
        } else {
            effects.push(GameEffect::PlayMoveSound);
        }

        proof {
            assert(self.board.slots@ =~= spec_board_after(b0, *mv, self.player_color, self.turn));
            assert(effects@ =~= spec_apply_effects(b0, *mv, self.player_color, self.turn));
        }
        effects
    }

    /// Hand back the engine's legal-move enumeration after a
    /// `FetchLegalMoves` effect: the index is built from it, grouped by
    /// origin, and the click that asked for it completes its selection.
    pub fn provide_legal_moves(&mut self, all_moves: Vec<GodotMove>) -> (effects: Vec<GameEffect>)
        requires
            old(self).wf(),
            old(self).pending_click is Some,
            forall|k: int|
                0 <= k < all_moves@.len() ==> (#[trigger] all_moves@[k]).wf()
                    && spec_move_applicable(
                    old(self).board.slots@,
                    all_moves@[k],
                    old(self).player_color,
                    old(self).turn,
                ),
        ensures
            final(self).wf(),
            final(self).board == old(self).board,
            final(self).turn == old(self).turn,
            final(self).player_color == old(self).player_color,
            final(self).pending_click is None,
            final(self).legal_moves.built,
            forall|j: int|
                0 <= j < 64 ==> #[trigger] final(self).legal_moves.slots@[j]@ == moves_with_origin(
                    all_moves@,
                    j,
                ),
            old(self).pending_click matches Some(sq) ==> {
                &&& (old(self).board.at(spec_field_index(sq, old(self).player_color)) matches Some(
                    p,
                ) && final(self).selection == (SelectionState::Selected {
                    origin: sq,
                    kind: p.kind,
                }))
                &&& effects@.len() == 2
                &&& effects@[0] == GameEffect::ShowSelection(sq)
                &&& (effects@[1] matches GameEffect::ShowHelpers(v) && v@
                    == spec_helper_destinations(final(self).legal_moves.moves_at(sq)))
            },
    {
        let ghost ms = all_moves@;
        let sq: GodotSquare = self.pending_click.unwrap();
        self.pending_click = None;
        self.legal_moves.build(all_moves);
        let i: usize = sq.get_field_index(&self.player_color);
        let piece: GodotPiece = self.board.piece_at(i).unwrap();
        self.selection = SelectionState::Selected { origin: sq, kind: piece.kind };
        let dests: Vec<GodotSquare> = self.legal_moves.helper_destinations(&sq);
        let mut effects: Vec<GameEffect> = Vec::new();
        effects.push(GameEffect::ShowSelection(sq));
        effects.push(GameEffect::ShowHelpers(dests));
        proof {
            assert forall|j: int, k: int|
                0 <= j < 64 && 0 <= k < self.legal_moves.slots@[j]@.len() implies
                spec_move_applicable(
                    self.board.slots@,
                    #[trigger] self.legal_moves.slots@[j]@[k],
                    self.player_color,
                    self.turn,
                ) by {
                lemma_moves_with_origin_subset(ms, j, k);
                let m = self.legal_moves.slots@[j]@[k];
                let idx = choose|idx: int| 0 <= idx < ms.len() && ms[idx] == m;
                assert(spec_move_applicable(
                    old(self).board.slots@,
                    ms[idx],
                    old(self).player_color,
                    old(self).turn,
                ));
            }
        }
        effects
    }

    /// Process one pointer click, already resolved to a board square under
    /// the viewer's orientation. The decision follows the selection state:
    /// an idle click selects an own piece (fetching the legal moves first if
    /// this turn has none cached yet), a click while a piece is selected
    /// reselects, applies a validated move, starts the promotion flow or
    /// cancels, and a click while the promotion chooser is shown picks the
    /// promotion piece by its rank distance from the target or cancels the
    /// flow. No move is ever applied without being found in the legal-move
    /// index. The returned effects must be carried out in order; when they
    /// include `FetchLegalMoves` the host must call `provide_legal_moves`
    /// before delivering the next click.
    #[verifier::rlimit(100)]
    pub fn on_click(&mut self, click: &GodotSquare) -> (effects: Vec<GameEffect>)
        requires
            old(self).wf(),
            click.wf(),
            old(self).pending_click is None,
        ensures
            final(self).wf(),
            final(self).player_color == old(self).player_color,
            old(self).selection matches SelectionState::AwaitingPromotion {
                origin,
                target_square,
            } ==> {
                &&& (!spec_promotion_choice_hit(target_square, *click) ==> {
                    &&& final(self).selection is Idle
                    &&& final(self).board == old(self).board
                    &&& final(self).turn == old(self).turn
                    &&& !final(self).legal_moves.built
                    &&& final(self).pending_click is None
                    &&& effects@ == seq![
                        GameEffect::ClearHelpers,
                        GameEffect::HideSelection,
                        GameEffect::HidePromotionChooser,
                    ]
                })
                &&& (spec_promotion_choice_hit(target_square, *click) ==> {
                    let mv = GodotMove {
                        origin,
                        destination: target_square,
                        promotion_piece: Some(
                            spec_promotion_kind(
                                spec_promotion_rank_distance(target_square, *click),
                            ),
                        ),
                        special: GodotSpecialMove::Promotion,
                    };
                    &&& final(self).board.slots@ == spec_board_after(
                        old(self).board.slots@,
                        mv,
                        old(self).player_color,
                        old(self).turn,
                    )
                    &&& final(self).selection is Idle
                    &&& !final(self).legal_moves.built
                    &&& final(self).turn == old(self).turn.spec_opponent()
                    &&& final(self).pending_click is None
                    &&& effects@ == seq![GameEffect::ClearHelpers] + spec_apply_effects(
                        old(self).board.slots@,
                        mv,
                        old(self).player_color,
                        old(self).turn,
                    ) + seq![GameEffect::HideSelection, GameEffect::HidePromotionChooser]
                })
            },
            old(self).selection is Idle ==> {
                &&& (old(self).spec_own_piece_at(*click) && old(self).legal_moves.built ==> {
                    &&& (old(self).board.at(
                        spec_field_index(*click, old(self).player_color),
                    ) matches Some(p) && final(self).selection == (SelectionState::Selected {
                        origin: *click,
                        kind: p.kind,
                    }))
                    &&& final(self).board == old(self).board
                    &&& final(self).turn == old(self).turn
                    &&& final(self).legal_moves == old(self).legal_moves
                    &&& final(self).pending_click is None
                    &&& effects@.len() == 3
                    &&& effects@[0] == GameEffect::ClearHelpers
                    &&& effects@[1] == GameEffect::ShowSelection(*click)
                    &&& (effects@[2] matches GameEffect::ShowHelpers(v) && v@
                        == spec_helper_destinations(old(self).legal_moves.moves_at(*click)))
                })
                &&& (old(self).spec_own_piece_at(*click) && !old(self).legal_moves.built ==> {
                    &&& *final(self) == (GodotGame {
                        pending_click: Some(*click),
                        ..*old(self)
                    })
                    &&& effects@ == seq![GameEffect::ClearHelpers, GameEffect::FetchLegalMoves]
                })
                &&& (!old(self).spec_own_piece_at(*click) ==> {
                    &&& *final(self) == *old(self)
                    &&& effects@ == seq![GameEffect::ClearHelpers]
                })
            },
            old(self).selection matches SelectionState::Selected { origin, kind } ==> {
                &&& (old(self).spec_own_piece_at(*click) ==> {
                    &&& (old(self).board.at(
                        spec_field_index(*click, old(self).player_color),
                    ) matches Some(p) && final(self).selection == (SelectionState::Selected {
                        origin: *click,
                        kind: p.kind,
                    }))
                    &&& final(self).board == old(self).board
                    &&& final(self).turn == old(self).turn
                    &&& final(self).legal_moves == old(self).legal_moves
                    &&& final(self).pending_click is None
                    &&& effects@.len() == 3
                    &&& effects@[0] == GameEffect::ClearHelpers
                    &&& effects@[1] == GameEffect::ShowSelection(*click)
                    &&& (effects@[2] matches GameEffect::ShowHelpers(v) && v@
                        == spec_helper_destinations(old(self).legal_moves.moves_at(*click)))
                })
                &&& (!old(self).spec_own_piece_at(*click) ==> {
                    let found = spec_first_match(old(self).legal_moves.moves_at(origin), *click);
                    &&& (found matches Some(mv) ==> {
                        &&& (mv.special is Promotion ==> {
                            &&& final(self).selection == (SelectionState::AwaitingPromotion {
                                origin,
                                target_square: *click,
                            })
                            &&& final(self).board == old(self).board
                            &&& final(self).turn == old(self).turn
                            &&& final(self).legal_moves == old(self).legal_moves
                            &&& final(self).pending_click is None
                            &&& effects@ == seq![
                                GameEffect::ClearHelpers,
                                GameEffect::ShowPromotionChooser(*click),
                            ]
                        })
                        &&& (!(mv.special is Promotion) ==> {
                            &&& final(self).board.slots@ == spec_board_after(
                                old(self).board.slots@,
                                mv,
                                old(self).player_color,
                                old(self).turn,
                            )
                            &&& final(self).selection is Idle
                            &&& !final(self).legal_moves.built
                            &&& final(self).turn == old(self).turn.spec_opponent()
                            &&& final(self).pending_click is None
                            &&& effects@ == seq![GameEffect::ClearHelpers] + spec_apply_effects(
                                old(self).board.slots@,
                                mv,
                                old(self).player_color,
                                old(self).turn,
                            ) + seq![GameEffect::HideSelection, GameEffect::HidePromotionChooser]
                        })
                    })
                    &&& (found is None ==> {
                        &&& final(self).selection is Idle
                        &&& final(self).board == old(self).board
                        &&& final(self).turn == old(self).turn
                        &&& final(self).legal_moves == old(self).legal_moves
                        &&& final(self).pending_click is None
                        &&& effects@ == seq![GameEffect::ClearHelpers, GameEffect::HideSelection]
                    })
                })
            },
    {
        let mut effects: Vec<GameEffect> = Vec::new();
        effects.push(GameEffect::ClearHelpers);
        match self.selection {
            SelectionState::AwaitingPromotion { origin, target_square } => {
                let distance: u8 = if target_square.rank >= click.rank {
                    target_square.rank - click.rank
                } else {
                    click.rank - target_square.rank
                };
                if click.file != target_square.file || distance > 3 {
                    // Any click off the chooser abandons the promotion flow.
                    self.selection = SelectionState::Idle;
                    self.legal_moves.invalidate();
                    effects.push(GameEffect::HideSelection);
                    effects.push(GameEffect::HidePromotionChooser);
                    proof {
                        assert(effects@ =~= seq![
                            GameEffect::ClearHelpers,
                            GameEffect::HideSelection,
                            GameEffect::HidePromotionChooser,
                        ]);
                    }
                    return effects;
                }
                let kind: GodotPieceKind = match distance {
                    0 => GodotPieceKind::Queen,
                    1 => GodotPieceKind::Knight,
                    2 => GodotPieceKind::Rook,
                    _ => GodotPieceKind::Bishop,
                };
                let mv = GodotMove::from_origin_destination_and_promotion(
                    &origin,
                    &target_square,
                    kind,
                );
                let mut applied = self.apply_move(&mv);
                effects.append(&mut applied);
                let mut ended = self.end_turn();
                effects.append(&mut ended);
                proof {
                    assert(effects@ =~= seq![GameEffect::ClearHelpers] + spec_apply_effects(
                        old(self).board.slots@,
                        mv,
                        old(self).player_color,
                        old(self).turn,
                    ) + seq![GameEffect::HideSelection, GameEffect::HidePromotionChooser]);
                }
                effects
            },
            SelectionState::Idle => {
                let i: usize = click.get_field_index(&self.player_color);
                match self.board.piece_at(i) {
                    Some(piece) => {
                        if piece.color == self.turn {
                            if self.legal_moves.built {
                                self.selection = SelectionState::Selected {
                                    origin: *click,
                                    kind: piece.kind,
                                };
                                effects.push(GameEffect::ShowSelection(*click));
                                let dests = self.legal_moves.helper_destinations(click);
                                effects.push(GameEffect::ShowHelpers(dests));
                            } else {
                                self.pending_click = Some(*click);
                                effects.push(GameEffect::FetchLegalMoves);
                                proof {
                                    assert(effects@ =~= seq![
                                        GameEffect::ClearHelpers,
                                        GameEffect::FetchLegalMoves,
                                    ]);
                                }
                            }
                        }
                    },
                    None => {},
                }
                effects
            },
            SelectionState::Selected { origin, kind: _ } => {
                let i: usize = click.get_field_index(&self.player_color);
                let clicked: Option<GodotPiece> = self.board.piece_at(i);
                let own: bool = match clicked {
                    Some(p) => p.color == self.turn,
                    None => false,
                };
                if own {
                    // Reselect: the selection moves in a single click.
                    let piece: GodotPiece = clicked.unwrap();
                    self.selection = SelectionState::Selected {
                        origin: *click,
                        kind: piece.kind,
                    };
                    effects.push(GameEffect::ShowSelection(*click));
                    let dests = self.legal_moves.helper_destinations(click);
                    effects.push(GameEffect::ShowHelpers(dests));
                    return effects;
                }
                match self.legal_moves.find(&origin, click) {
                    Some(mv) => {
                        if mv.is_promotion() {
                            self.selection = SelectionState::AwaitingPromotion {
                                origin,
                                target_square: *click,
                            };
                            effects.push(GameEffect::ShowPromotionChooser(*click));
                            proof {
                                assert(effects@ =~= seq![
                                    GameEffect::ClearHelpers,
                                    GameEffect::ShowPromotionChooser(*click),
                                ]);
                            }
                            return effects;
                        }
                        proof {
                            let s = self.legal_moves.moves_at(origin);
                            let ki = choose|ki: int| 0 <= ki < s.len() && s[ki] == mv;
                            assert(spec_move_applicable(
                                self.board.slots@,
                                self.legal_moves.slots@[spec_engine_index(origin)]@[ki],
                                self.player_color,
                                self.turn,
                            ));
                        }
                        let mut applied = self.apply_move(&mv);
                        effects.append(&mut applied);
                        let mut ended = self.end_turn();
                        effects.append(&mut ended);
                        proof {
                            assert(effects@ =~= seq![GameEffect::ClearHelpers]
                                + spec_apply_effects(
                                old(self).board.slots@,
                                mv,
                                old(self).player_color,
                                old(self).turn,
                            ) + seq![GameEffect::HideSelection, GameEffect::HidePromotionChooser]);
                        }
                        effects
                    },
                    None => {
                        // No matching legal move: the click cancels the
                        // selection and mutates nothing.
                        self.selection = SelectionState::Idle;
                        effects.push(GameEffect::HideSelection);
                        effects
                    },
                }
            },
        }
    }
}

} // verus!
