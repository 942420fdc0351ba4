use vstd::prelude::*;

verus! {

/// A half-open rectangle of device pixels: `[x0, x1) x [y0, y1)`.
#[derive(Debug, Clone, Copy, PartialEq, Eq, Structural)]
pub struct IRect {
    pub x0: i32,
    pub y0: i32,
    pub x1: i32,
    pub y1: i32,
}

impl IRect {
    /// The corners are ordered.
    pub open spec fn wf(self) -> bool {
        self.x0 <= self.x1 && self.y0 <= self.y1
    }

    pub open spec fn contains(self, x: int, y: int) -> bool {
        self.x0 <= x < self.x1 && self.y0 <= y < self.y1
    }

    pub open spec fn spec_is_empty(self) -> bool {
        self.x1 <= self.x0 || self.y1 <= self.y0
    }

    /// The rectangle lies within `[0, width) x [0, height)`.
    pub open spec fn within(self, width: int, height: int) -> bool {
        0 <= self.x0 && self.x0 <= self.x1 && self.x1 <= width && 0 <= self.y0 && self.y0
            <= self.y1 && self.y1 <= height
    }

    /// The empty rectangle at the origin.
    pub fn empty() -> (r: IRect)
        ensures
            r == (IRect { x0: 0, y0: 0, x1: 0, y1: 0 }),
    {
        IRect { x0: 0, y0: 0, x1: 0, y1: 0 }
    }

    pub fn is_empty(&self) -> (r: bool)
        ensures
            r == self.spec_is_empty(),
    {
        self.x1 <= self.x0 || self.y1 <= self.y0
    }
}

} // verus!
