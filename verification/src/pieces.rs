use vstd::prelude::*;

verus! {

/// A side of the game; also the color the local viewer plays as, which
/// decides how the board is mirrored on screen.
#[derive(Clone, Copy, PartialEq, Eq, Structural, Debug)]
pub enum GodotPieceColor {
    White,
    Black,
}

impl GodotPieceColor {
    pub open spec fn spec_opponent(self) -> GodotPieceColor {
        match self {
            GodotPieceColor::White => GodotPieceColor::Black,
            GodotPieceColor::Black => GodotPieceColor::White,
        }
    }

    /// The color whose turn comes after this one.
    pub fn opponent_turn(&self) -> (c: GodotPieceColor)
        ensures
            c == self.spec_opponent(),
    {
        match self {
            GodotPieceColor::White => GodotPieceColor::Black,
            GodotPieceColor::Black => GodotPieceColor::White,
        }
    }
}

/// The kind of a chess piece.
#[derive(Clone, Copy, PartialEq, Eq, Structural, Debug)]
pub enum GodotPieceKind {
    Pawn,
    Knight,
    Bishop,
    Rook,
    Queen,
    King,
}

/// A piece as the logical board stores it: its side and its kind.
#[derive(Clone, Copy, PartialEq, Eq, Structural, Debug)]
pub struct GodotPiece {
    pub color: GodotPieceColor,
    pub kind: GodotPieceKind,
}

} // verus!
