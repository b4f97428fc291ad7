use vstd::prelude::*;

use crate::pieces::GodotPieceColor;

verus! {

/// An engine-native board square: file and rank, both in `0..8`.
/// Rank 0 is White's back rank, file 0 the queenside edge.
#[derive(Clone, Copy, PartialEq, Eq, Structural, Debug)]
pub struct GodotSquare {
    pub file: u8,
    pub rank: u8,
}

/// The flat 0..64 index a square occupies in the viewer's piece array.
/// For a White viewer the board is flipped vertically (rank 7 is drawn at the
/// top row 0); for a Black viewer it is additionally flipped horizontally.
pub open spec fn spec_field_index(s: GodotSquare, viewer: GodotPieceColor) -> int {
    if viewer is White {
        s.file + (7 - s.rank) * 8
    } else {
        (7 - s.file) + s.rank * 8
    }
}

/// The square that screen-grid cell `(x, y)` shows for the given viewer;
/// inverse of `spec_field_index` composed with `(i % 8, i / 8)`.
pub open spec fn spec_square_from_grid(x: int, y: int, viewer: GodotPieceColor) -> GodotSquare {
    if viewer is White {
        GodotSquare { file: x as u8, rank: (7 - y) as u8 }
    } else {
        GodotSquare { file: (7 - x) as u8, rank: y as u8 }
    }
}

/// The square whose field index is `i` under the given viewer.
pub open spec fn spec_square_of_index(i: int, viewer: GodotPieceColor) -> GodotSquare {
    spec_square_from_grid(i % 8, i / 8, viewer)
}

/// The engine's own flat index of a square, independent of any viewer.
pub open spec fn spec_engine_index(s: GodotSquare) -> int {
    s.file + s.rank * 8
}

impl GodotSquare {
    pub open spec fn wf(self) -> bool {
        self.file < 8 && self.rank < 8
    }

    /// Square shown at screen-grid cell `(x, y)` for the given viewer.
    pub fn from_u8(x: u8, y: u8, player_color: &GodotPieceColor) -> (s: GodotSquare)
        requires
            x < 8,
            y < 8,
        ensures
            s == spec_square_from_grid(x as int, y as int, *player_color),
            s.wf(),
    {
        match player_color {
            GodotPieceColor::White => GodotSquare { file: x, rank: 7 - y },
            GodotPieceColor::Black => GodotSquare { file: 7 - x, rank: y },
        }
    }

    pub fn from_u32(x: u32, y: u32, player_color: &GodotPieceColor) -> (s: GodotSquare)
        requires
            x < 8,
            y < 8,
        ensures
            s == spec_square_from_grid(x as int, y as int, *player_color),
            s.wf(),
    {
        GodotSquare::from_u8(x as u8, y as u8, player_color)
    }

    pub fn from_i16(x: i16, y: i16, player_color: &GodotPieceColor) -> (s: GodotSquare)
        requires
            0 <= x < 8,
            0 <= y < 8,
        ensures
            s == spec_square_from_grid(x as int, y as int, *player_color),
            s.wf(),
    {
        GodotSquare::from_u8(x as u8, y as u8, player_color)
    }

    pub fn from_usize(x: usize, y: usize, player_color: &GodotPieceColor) -> (s: GodotSquare)
        requires
            x < 8,
            y < 8,
        ensures
            s == spec_square_from_grid(x as int, y as int, *player_color),
            s.wf(),
    {
        GodotSquare::from_u8(x as u8, y as u8, player_color)
    }

    /// Square stored at slot `i` of the viewer's piece array.
    pub fn from_field_index(i: usize, player_color: &GodotPieceColor) -> (s: GodotSquare)
        requires
            i < 64,
        ensures
            s == spec_square_of_index(i as int, *player_color),
            s.wf(),
    {
        GodotSquare::from_u8((i % 8) as u8, (i / 8) as u8, player_color)
    }

    /// Square under a pixel position, truncating by integer division with the
    /// square size. Callers must clip the position to the board's extent.
    pub fn from_screen_position(
        x: u32,
        y: u32,
        square_size: u32,
        player_color: &GodotPieceColor,
    ) -> (s: GodotSquare)
        requires
            square_size > 0,
            x < 8 * square_size,
            y < 8 * square_size,
        ensures
            s == spec_square_from_grid(
                x as int / square_size as int,
                y as int / square_size as int,
                *player_color,
            ),
            s.wf(),
    {
        assert(x / square_size < 8 && y / square_size < 8) by (nonlinear_arith)
            requires
                square_size > 0,
                x < 8 * square_size,
                y < 8 * square_size,
        ;
        GodotSquare::from_u32(x / square_size, y / square_size, player_color)
    }

    /// Slot of this square in the viewer's piece array.
    pub fn get_field_index(&self, player_color: &GodotPieceColor) -> (i: usize)
        requires
            self.wf(),
        ensures
            i == spec_field_index(*self, *player_color),
            i < 64,
    {
        match player_color {
            GodotPieceColor::White => (self.file + (7 - self.rank) * 8) as usize,
            GodotPieceColor::Black => ((7 - self.file) + self.rank * 8) as usize,
        }
    }
}

/// The field-index mapping is a bijection over the 64 squares for a fixed
/// viewer color: reading a square's index and converting the index back
/// yields the same square.
pub proof fn lemma_field_index_round_trip(s: GodotSquare, viewer: GodotPieceColor)
    requires
        s.wf(),
    ensures
        0 <= spec_field_index(s, viewer) < 64,
        spec_square_of_index(spec_field_index(s, viewer), viewer) == s,
{
}

/// The other direction of the bijection: converting a field index to a square
/// and reading its index back yields the same index.
pub proof fn lemma_index_field_round_trip(i: int, viewer: GodotPieceColor)
    requires
        0 <= i < 64,
    ensures
        spec_square_of_index(i, viewer).wf(),
        spec_field_index(spec_square_of_index(i, viewer), viewer) == i,
{
}

/// Distinct well-formed squares occupy distinct slots of the viewer's array.
pub proof fn lemma_field_index_injective(a: GodotSquare, b: GodotSquare, viewer: GodotPieceColor)
    requires
        a.wf(),
        b.wf(),
        spec_field_index(a, viewer) == spec_field_index(b, viewer),
    ensures
        a == b,
{
    lemma_field_index_round_trip(a, viewer);
    lemma_field_index_round_trip(b, viewer);
}

/// Distinct well-formed squares also have distinct engine indexes.
pub proof fn lemma_engine_index_injective(a: GodotSquare, b: GodotSquare)
    requires
        a.wf(),
        b.wf(),
        spec_engine_index(a) == spec_engine_index(b),
    ensures
        a == b,
{
}

} // verus!
