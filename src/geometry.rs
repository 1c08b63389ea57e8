use vstd::prelude::*;

verus! {

/// A rectangle of terminal cells, given by its top-left corner and its size.
#[derive(Clone, Copy, Debug, PartialEq, Eq, Structural)]
pub struct Rect {
    pub x: u16,
    pub y: u16,
    pub width: u16,
    pub height: u16,
}

impl Rect {
    /// The right and bottom edges are representable as `u16` positions.
    pub open spec fn fits(self) -> bool {
        self.x + self.width <= 65535 && self.y + self.height <= 65535
    }

    /// The number of cells covered.
    pub open spec fn size(self) -> nat {
        (self.width * self.height) as nat
    }

    /// The position `(px, py)` lies inside the rectangle.
    pub open spec fn contains(self, px: int, py: int) -> bool {
        self.x <= px < self.x + self.width && self.y <= py < self.y + self.height
    }

    pub fn new(x: u16, y: u16, width: u16, height: u16) -> (r: Rect)
        ensures
            r == (Rect { x, y, width, height }),
    {
        Rect { x, y, width, height }
    }

    /// The number of cells covered, as an index bound.
    pub fn area(&self) -> (r: usize)
        ensures
            r == self.size(),
    {
        let w = self.width as u32;
        let h = self.height as u32;
        assert(w * h <= 65535 * 65535) by (nonlinear_arith)
            requires
                w <= 65535,
                h <= 65535,
        ;
        (w * h) as usize
    }
}

} // verus!
