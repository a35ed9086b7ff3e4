//! Rectangular screen regions, used for hit-testing mouse positions and for
//! sizing viewports. Mirrors the terminal's cell grid: positions and extents
//! are cell counts.

use vstd::prelude::*;

verus! {

/// A rectangle on the terminal grid: `x`/`y` is the top-left cell.
#[derive(Clone, Copy, PartialEq, Eq, Structural, Debug)]
pub struct Rect {
    pub x: u16,
    pub y: u16,
    pub width: u16,
    pub height: u16,
}

impl Rect {
    pub open spec fn spec_contains(self, x: u16, y: u16) -> bool {
        &&& self.x <= x < self.x + self.width
        &&& self.y <= y < self.y + self.height
    }

    /// Whether shrinking by the given margins leaves any cells.
    pub open spec fn margins_fit(self, horizontal: u16, vertical: u16) -> bool {
        &&& self.width >= 2 * horizontal
        &&& self.height >= 2 * vertical
        &&& self.x + horizontal <= u16::MAX
        &&& self.y + vertical <= u16::MAX
    }

    pub fn new(x: u16, y: u16, width: u16, height: u16) -> (r: Rect)
        ensures
            r == (Rect { x, y, width, height }),
    {
        Rect { x, y, width, height }
    }

    pub fn empty() -> (r: Rect)
        ensures
            r == (Rect { x: 0u16, y: 0u16, width: 0u16, height: 0u16 }),
    {
        Rect { x: 0, y: 0, width: 0, height: 0 }
    }

    /// Whether the cell at `(x, y)` lies inside the rectangle.
    pub fn contains(&self, x: u16, y: u16) -> (r: bool)
        ensures
            r == self.spec_contains(x, y),
    {
        let right = self.x as u32 + self.width as u32;
        let bottom = self.y as u32 + self.height as u32;
        self.x <= x && (x as u32) < right && self.y <= y && (y as u32) < bottom
    }

    /// The rectangle shrunk by the given margins; zero extent when they do
    /// not fit.
    pub open spec fn inner_spec(self, horizontal: u16, vertical: u16) -> Rect {
        if self.margins_fit(horizontal, vertical) {
            Rect {
                x: (self.x + horizontal) as u16,
                y: (self.y + vertical) as u16,
                width: (self.width - 2 * horizontal) as u16,
                height: (self.height - 2 * vertical) as u16,
            }
        } else {
            Rect { x: self.x, y: self.y, width: 0u16, height: 0u16 }
        }
    }

    /// The rectangle shrunk by `horizontal` cells on the left and right and
    /// `vertical` cells on the top and bottom; collapses to zero extent when
    /// the margins do not fit.
    pub fn inner(&self, horizontal: u16, vertical: u16) -> (r: Rect)
        ensures
            r == self.inner_spec(horizontal, vertical),
    {
        let h2 = horizontal as u32 * 2;
        let v2 = vertical as u32 * 2;
        if (self.width as u32) >= h2 && (self.height as u32) >= v2 && (self.x as u32 + horizontal
            as u32) <= u16::MAX as u32 && (self.y as u32 + vertical as u32) <= u16::MAX as u32 {
            Rect {
                x: self.x + horizontal,
                y: self.y + vertical,
                width: self.width - 2 * horizontal,
                height: self.height - 2 * vertical,
            }
        } else {
            Rect { x: self.x, y: self.y, width: 0, height: 0 }
        }
    }
}

} // verus!
