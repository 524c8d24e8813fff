use vstd::prelude::*;

verus! {

/// An axis-aligned rectangle on the output surface: the position of its
/// upper-left corner and its extent.
#[derive(Clone, Copy, Debug, Default, PartialEq, Eq, Structural)]
pub struct BBox {
    pub x: i32,
    pub y: i32,
    pub width: u32,
    pub height: u32,
}

impl BBox {
    /// Midpoint of the rectangle.
    pub open spec fn spec_center(self) -> (int, int) {
        (self.x + self.width as int / 2, self.y + self.height as int / 2)
    }

    /// Midpoint of the rectangle, computed in coordinates wide enough that
    /// the addition cannot overflow.
    pub fn center(&self) -> (r: (i64, i64))
        ensures
            (r.0 as int, r.1 as int) == self.spec_center(),
    {
        (self.x as i64 + (self.width / 2) as i64, self.y as i64 + (self.height / 2) as i64)
    }
}

} // verus!
