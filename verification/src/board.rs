use vstd::prelude::*;

use crate::moves::GodotMove;
use crate::pieces::{GodotPiece, GodotPieceColor, GodotPieceKind};
use crate::square::{lemma_field_index_injective, spec_field_index, GodotSquare};

verus! {

/// The board with no pieces on it.
pub open spec fn spec_empty_board() -> Seq<Option<GodotPiece>> {
    Seq::new(64, |i: int| None)
}

/// The board after placing `pieces` one by one on an initial board, each at
/// the field index of its square under the viewer's orientation. A later
/// entry for the same square overwrites an earlier one.
pub open spec fn spec_place_all(
    b: Seq<Option<GodotPiece>>,
    pieces: Seq<(GodotSquare, GodotPieceColor, GodotPieceKind)>,
    viewer: GodotPieceColor,
) -> Seq<Option<GodotPiece>>
    decreases pieces.len(),
{
    if pieces.len() == 0 {
        b
    } else {
        let p = pieces.last();
        spec_place_all(b, pieces.drop_last(), viewer).update(
            spec_field_index(p.0, viewer),
            Some(GodotPiece { color: p.1, kind: p.2 }),
        )
    }
}

/// Home square of the rook that castles along with `mv`: file 0 (queenside)
/// when the king's destination file is 2, otherwise file 7 (kingside), on the
/// king's destination rank.
pub open spec fn spec_rook_origin(mv: GodotMove) -> GodotSquare {
    GodotSquare {
        file: if mv.destination.file == 2 {
            0
        } else {
            7
        },
        rank: mv.destination.rank,
    }
}

/// Square the castling rook lands on: file 3 (queenside) or file 5
/// (kingside), on the king's destination rank.
pub open spec fn spec_rook_destination(mv: GodotMove) -> GodotSquare {
    GodotSquare {
        file: if mv.destination.file == 2 {
            3
        } else {
            5
        },
        rank: mv.destination.rank,
    }
}

/// Field index of the pawn captured en passant: the slot directly behind the
/// destination square relative to the moving color, which in the viewer's
/// array is one row below when the viewer is the moving side and one row
/// above otherwise.
pub open spec fn spec_ep_victim_index(
    mv: GodotMove,
    viewer: GodotPieceColor,
    turn: GodotPieceColor,
) -> int {
    if viewer == turn {
        spec_field_index(mv.destination, viewer) + 8
    } else {
        spec_field_index(mv.destination, viewer) - 8
    }
}

/// Whether applying `mv` captures a piece standing on the destination slot.
pub open spec fn spec_is_capture(
    b: Seq<Option<GodotPiece>>,
    mv: GodotMove,
    viewer: GodotPieceColor,
) -> bool {
    b[spec_field_index(mv.destination, viewer)] is Some
}

/// What the apply step needs of a move with respect to the current board:
/// the move is well formed, its origin slot holds a piece of the side to
/// move, a castling move still has a rook on its home slot, and an
/// en-passant move has a victim on the offset slot.
pub open spec fn spec_move_applicable(
    b: Seq<Option<GodotPiece>>,
    mv: GodotMove,
    viewer: GodotPieceColor,
    turn: GodotPieceColor,
) -> bool {
    &&& mv.wf()
    &&& b.len() == 64
    &&& b[spec_field_index(mv.origin, viewer)] matches Some(p) && p.color == turn
    &&& mv.special is Castling ==> b[spec_field_index(spec_rook_origin(mv), viewer)] is Some
    &&& mv.special is EnPassant ==> {
        &&& 0 <= spec_ep_victim_index(mv, viewer, turn) < 64
        &&& b[spec_ep_victim_index(mv, viewer, turn)] is Some
    }
}

/// The piece that ends up on the destination slot: the origin piece, with
/// its kind replaced by the chosen piece when the move is a promotion.
pub open spec fn spec_moved_piece(
    b: Seq<Option<GodotPiece>>,
    mv: GodotMove,
    viewer: GodotPieceColor,
) -> Option<GodotPiece> {
    let mover = b[spec_field_index(mv.origin, viewer)];
    if mv.special is Promotion {
        match (mover, mv.promotion_piece) {
            (Some(p), Some(k)) => Some(GodotPiece { color: p.color, kind: k }),
            _ => mover,
        }
    } else {
        mover
    }
}

/// The board after applying `mv`: first the en-passant victim is removed,
/// then the castling rook is relocated, and finally the moving piece leaves
/// its origin for its destination, promoted if the move says so.
pub open spec fn spec_board_after(
    b: Seq<Option<GodotPiece>>,
    mv: GodotMove,
    viewer: GodotPieceColor,
    turn: GodotPieceColor,
) -> Seq<Option<GodotPiece>> {
    let oi = spec_field_index(mv.origin, viewer);
    let di = spec_field_index(mv.destination, viewer);
    let b1 = if mv.special is EnPassant {
        b.update(spec_ep_victim_index(mv, viewer, turn), None)
    } else {
        b
    };
    let b2 = if mv.special is Castling {
        let roi = spec_field_index(spec_rook_origin(mv), viewer);
        let rdi = spec_field_index(spec_rook_destination(mv), viewer);
        b1.update(rdi, b1[roi]).update(roi, None)
    } else {
        b1
    };
    b2.update(di, spec_moved_piece(b, mv, viewer)).update(oi, None)
}

/// The logical piece board: 64 slots indexed by field index under the local
/// viewer's orientation, each holding at most one piece. It mirrors the
/// engine's authoritative position.
pub struct PieceBoard {
    pub slots: Vec<Option<GodotPiece>>,
}

impl PieceBoard {
    pub open spec fn wf(self) -> bool {
        self.slots@.len() == 64
    }

    pub open spec fn at(self, i: int) -> Option<GodotPiece> {
        self.slots@[i]
    }

    /// A board with no pieces on it.
    pub fn new() -> (board: PieceBoard)
        ensures
            board.wf(),
            board.slots@ == spec_empty_board(),
    {
        let mut slots: Vec<Option<GodotPiece>> = Vec::new();
        let mut i: usize = 0;
        while i < 64
            invariant
                i <= 64,
                slots@.len() == i,
                forall|j: int| 0 <= j < i ==> slots@[j] is None,
            decreases 64 - i,
        {
            slots.push(None);
            i = i + 1;
        }
        proof {
            assert(slots@ =~= spec_empty_board());
        }
        PieceBoard { slots }
    }

    /// A board holding exactly the given pieces, each placed at the field
    /// index of its square under the viewer's orientation.
    pub fn from_pieces(
        pieces: &Vec<(GodotSquare, GodotPieceColor, GodotPieceKind)>,
        player_color: &GodotPieceColor,
    ) -> (board: PieceBoard)
        requires
            forall|k: int| 0 <= k < pieces@.len() ==> (#[trigger] pieces@[k]).0.wf(),
        ensures
            board.wf(),
            board.slots@ == spec_place_all(spec_empty_board(), pieces@, *player_color),
    {
        let mut board = PieceBoard::new();
        let n: usize = pieces.len();
        let mut k: usize = 0;
        while k < n
            invariant
                k <= n,
                n == pieces@.len(),
                forall|i: int| 0 <= i < n ==> (#[trigger] pieces@[i]).0.wf(),
                board.wf(),
                board.slots@ == spec_place_all(spec_empty_board(), pieces@.take(k as int), *player_color),
            decreases n - k,
        {
            let (square, color, kind) = pieces[k];
            let i: usize = square.get_field_index(player_color);
            board.slots[i] = Some(GodotPiece { color, kind });
            proof {
                let prefix = pieces@.take(k as int);
                assert(pieces@.take(k + 1) =~= prefix.push(pieces@[k as int]));
                assert(prefix.push(pieces@[k as int]).drop_last() =~= prefix);
            }
            k = k + 1;
        }
        proof {
            assert(pieces@.take(n as int) =~= pieces@);
        }
        board
    }

    /// The piece on slot `i`, if any.
    pub fn piece_at(&self, i: usize) -> (p: Option<GodotPiece>)
        requires
            self.wf(),
            i < 64,
        ensures
            p == self.at(i as int),
    {
        self.slots[i]
    }
}

/// The four slots a castling move touches are pairwise distinct whenever the
/// move is shaped like real castling: the king starts on file 4 and moves
/// two files along its own rank.
pub open spec fn spec_castling_slots_distinct(mv: GodotMove, viewer: GodotPieceColor) -> bool {
    let oi = spec_field_index(mv.origin, viewer);
    let di = spec_field_index(mv.destination, viewer);
    let roi = spec_field_index(spec_rook_origin(mv), viewer);
    let rdi = spec_field_index(spec_rook_destination(mv), viewer);
    &&& oi != di && oi != roi && oi != rdi
    &&& di != roi && di != rdi
    &&& roi != rdi
}

/// A king move from file 4 to file 2 or 6 of the same rank touches four
/// pairwise distinct slots: its own two and the rook's two.
pub proof fn lemma_castling_slots_distinct(mv: GodotMove, viewer: GodotPieceColor)
    requires
        mv.wf(),
        mv.origin.file == 4,
        mv.origin.rank == mv.destination.rank,
        mv.destination.file == 2 || mv.destination.file == 6,
    ensures
        spec_castling_slots_distinct(mv, viewer),
{
}

/// Applying a castling move relocates exactly two pieces: the king from its
/// origin to its destination, and the rook from its home slot (file 0 when
/// the king lands on file 2, file 7 when it lands on file 6) to file 3 or 5
/// of the same rank. The two origin slots are emptied and every other slot
/// keeps its piece.
pub proof fn lemma_castling_relocates_two(
    b: Seq<Option<GodotPiece>>,
    mv: GodotMove,
    viewer: GodotPieceColor,
    turn: GodotPieceColor,
)
    requires
        spec_move_applicable(b, mv, viewer, turn),
        mv.special is Castling,
        spec_castling_slots_distinct(mv, viewer),
    ensures
        spec_board_after(b, mv, viewer, turn).len() == 64,
        spec_board_after(b, mv, viewer, turn)[spec_field_index(mv.destination, viewer)] == b[
            spec_field_index(mv.origin, viewer)],
        spec_board_after(b, mv, viewer, turn)[spec_field_index(spec_rook_destination(mv), viewer)]
            == b[spec_field_index(spec_rook_origin(mv), viewer)],
        spec_board_after(b, mv, viewer, turn)[spec_field_index(mv.origin, viewer)] is None,
        spec_board_after(b, mv, viewer, turn)[spec_field_index(spec_rook_origin(mv), viewer)]
            is None,
        forall|i: int|
            0 <= i < 64 && i != spec_field_index(mv.origin, viewer) && i != spec_field_index(
                mv.destination,
                viewer,
            ) && i != spec_field_index(spec_rook_origin(mv), viewer) && i != spec_field_index(
                spec_rook_destination(mv),
                viewer,
            ) ==> spec_board_after(b, mv, viewer, turn)[i] == b[i],
{
}

/// Applying an en-passant move removes the captured pawn from the offset
/// slot behind the destination, not from the destination itself: the
/// destination receives the moving pawn, and only the origin and victim
/// slots are emptied.
pub proof fn lemma_en_passant_removes_offset(
    b: Seq<Option<GodotPiece>>,
    mv: GodotMove,
    viewer: GodotPieceColor,
    turn: GodotPieceColor,
)
    requires
        spec_move_applicable(b, mv, viewer, turn),
        mv.special is EnPassant,
        spec_ep_victim_index(mv, viewer, turn) != spec_field_index(mv.origin, viewer),
    ensures
        spec_board_after(b, mv, viewer, turn).len() == 64,
        spec_board_after(b, mv, viewer, turn)[spec_ep_victim_index(mv, viewer, turn)] is None,
        spec_board_after(b, mv, viewer, turn)[spec_field_index(mv.destination, viewer)] == b[
            spec_field_index(mv.origin, viewer)],
        spec_board_after(b, mv, viewer, turn)[spec_field_index(mv.origin, viewer)] is None,
        forall|i: int|
            0 <= i < 64 && i != spec_field_index(mv.origin, viewer) && i != spec_field_index(
                mv.destination,
                viewer,
            ) && i != spec_ep_victim_index(mv, viewer, turn) ==> spec_board_after(
                b,
                mv,
                viewer,
                turn,
            )[i] == b[i],
{
    if spec_field_index(mv.origin, viewer) == spec_field_index(mv.destination, viewer) {
        lemma_field_index_injective(mv.origin, mv.destination, viewer);
    }
}

} // verus!
