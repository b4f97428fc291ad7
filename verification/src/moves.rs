use vstd::prelude::*;

use crate::pieces::GodotPieceKind;
use crate::square::GodotSquare;

verus! {

/// What a move does beyond relocating a single piece.
#[derive(Clone, Copy, PartialEq, Eq, Structural, Debug)]
pub enum GodotSpecialMove {
    Normal,
    Promotion,
    EnPassant,
    Castling,
}

/// A candidate or validated move. Identity is by origin, destination and
/// promotion piece: equal endpoints with different promotion choices are
/// distinct moves.
#[derive(Clone, Copy, PartialEq, Eq, Debug)]
pub struct GodotMove {
    pub origin: GodotSquare,
    pub destination: GodotSquare,
    pub promotion_piece: Option<GodotPieceKind>,
    pub special: GodotSpecialMove,
}

impl GodotMove {
    pub open spec fn wf(self) -> bool {
        &&& self.origin.wf()
        &&& self.destination.wf()
        &&& self.origin != self.destination
        &&& (self.special is Promotion <==> self.promotion_piece is Some)
        &&& (self.promotion_piece matches Some(k) ==> (k is Queen || k is Knight || k is Rook
            || k is Bishop))
    }

    /// The fully specified promotion move built once the promotion flow has
    /// resolved which piece was chosen.
    pub fn from_origin_destination_and_promotion(
        origin: &GodotSquare,
        destination: &GodotSquare,
        promotion_piece: GodotPieceKind,
    ) -> (m: GodotMove)
        requires
            origin.wf(),
            destination.wf(),
            *origin != *destination,
            promotion_piece is Queen || promotion_piece is Knight || promotion_piece is Rook
                || promotion_piece is Bishop,
        ensures
            m == (GodotMove {
                origin: *origin,
                destination: *destination,
                promotion_piece: Some(promotion_piece),
                special: GodotSpecialMove::Promotion,
            }),
            m.wf(),
    {
        GodotMove {
            origin: *origin,
            destination: *destination,
            promotion_piece: Some(promotion_piece),
            special: GodotSpecialMove::Promotion,
        }
    }

    pub fn get_destination(&self) -> (d: GodotSquare)
        ensures
            d == self.destination,
    {
        self.destination
    }

    pub fn is_promotion(&self) -> (b: bool)
        ensures
            b == (self.special is Promotion),
    {
        match self.special {
            GodotSpecialMove::Promotion => true,
            _ => false,
        }
    }

    pub fn is_castling(&self) -> (b: bool)
        ensures
            b == (self.special is Castling),
    {
        match self.special {
            GodotSpecialMove::Castling => true,
            _ => false,
        }
    }

    pub fn get_promotion_piece(&self) -> (p: Option<GodotPieceKind>)
        ensures
            p == self.promotion_piece,
    {
        self.promotion_piece
    }
}

} // verus!
