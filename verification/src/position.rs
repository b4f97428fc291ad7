use vstd::prelude::*;

verus! {

/// A raw screen-grid position: column and row of a board cell as drawn,
/// before any viewer-dependent mirroring is applied. Both coordinates lie
/// in `0..8`.
#[derive(Clone, Copy, PartialEq, Eq, Structural, Debug)]
pub struct GodotPosition(pub u8, pub u8);

impl GodotPosition {
    pub open spec fn wf(self) -> bool {
        self.0 < 8 && self.1 < 8
    }

    pub fn from_u8(x: u8, y: u8) -> (p: GodotPosition)
        requires
            x < 8,
            y < 8,
        ensures
            p == GodotPosition(x, y),
            p.wf(),
    {
        GodotPosition(x, y)
    }

    pub fn from_u32(x: u32, y: u32) -> (p: GodotPosition)
        requires
            x < 8,
            y < 8,
        ensures
            p == GodotPosition(x as u8, y as u8),
            p.wf(),
    {
        GodotPosition(x as u8, y as u8)
    }

    pub fn from_i32(x: i32, y: i32) -> (p: GodotPosition)
        requires
            0 <= x < 8,
            0 <= y < 8,
        ensures
            p == GodotPosition(x as u8, y as u8),
            p.wf(),
    {
        GodotPosition(x as u8, y as u8)
    }

    pub fn from_usize(x: usize, y: usize) -> (p: GodotPosition)
        requires
            x < 8,
            y < 8,
        ensures
            p == GodotPosition(x as u8, y as u8),
            p.wf(),
    {
        GodotPosition(x as u8, y as u8)
    }

    /// The grid position of slot `i` of a row-major 8 by 8 array.
    pub fn from_field_index(i: usize) -> (p: GodotPosition)
        requires
            i < 64,
        ensures
            p == GodotPosition((i % 8) as u8, (i / 8) as u8),
            p.wf(),
    {
        GodotPosition((i % 8) as u8, (i / 8) as u8)
    }

    /// The row-major slot of this grid position; inverse of
    /// `from_field_index`.
    pub fn to_field_index(&self) -> (i: usize)
        requires
            self.wf(),
        ensures
            i == self.0 + self.1 * 8,
            i < 64,
    {
        (self.0 + self.1 * 8) as usize
    }
}

} // verus!
