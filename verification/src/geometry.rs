//! Sizes and rectangles of pixels.

use vstd::prelude::*;

verus! {

/// Dimensions of a display or render target, whose top left pixel is `(0, 0)`.
#[derive(Copy, Clone, Debug, PartialEq, Eq, Structural)]
pub struct Size {
    pub width: u32,
    pub height: u32,
}

/// A rectangle by its top left corner and its size.
#[derive(Copy, Clone, Debug, PartialEq, Eq, Structural)]
pub struct Rect {
    pub x: i32,
    pub y: i32,
    pub width: u32,
    pub height: u32,
}

/// Whether `v` is a coordinate.
pub open spec fn fits_i32(v: int) -> bool {
    i32::MIN <= v <= i32::MAX
}

impl Rect {
    /// All of a display or render target of this size.
    pub open spec fn whole(size: Size) -> Rect {
        Rect { x: 0, y: 0, width: size.width, height: size.height }
    }

    /// The rectangle without a pixel that stands for an empty clip area.
    pub open spec fn empty() -> Rect {
        Rect { x: 0, y: 0, width: 0, height: 0 }
    }

    /// The first column to the right of the rectangle.
    pub open spec fn right(self) -> int {
        self.x + self.width
    }

    /// The first row below the rectangle.
    pub open spec fn bottom(self) -> int {
        self.y + self.height
    }

    pub open spec fn pixels(self) -> int {
        self.width * self.height
    }

    /// Whether the pixel in column `px` of row `py` belongs to the rectangle.
    pub open spec fn contains(self, px: int, py: int) -> bool {
        self.x <= px < self.right() && self.y <= py < self.bottom()
    }

    /// Whether the same pixels belong to both rectangles.
    pub open spec fn same_pixels(self, other: Rect) -> bool {
        forall|px: int, py: int|
            #![trigger self.contains(px, py)]
            #![trigger other.contains(px, py)]
            self.contains(px, py) == other.contains(px, py)
    }

    /// Whether this rectangle lies in `other`.
    pub open spec fn within(self, other: Rect) -> bool {
        &&& other.x <= self.x
        &&& other.y <= self.y
        &&& self.right() <= other.right()
        &&& self.bottom() <= other.bottom()
    }

    /// Whether the extents and the far edges are coordinates.
    pub open spec fn valid(self) -> bool {
        &&& self.width <= i32::MAX
        &&& self.height <= i32::MAX
        &&& fits_i32(self.right())
        &&& fits_i32(self.bottom())
    }

    /// Whether neither rectangle lies wholly to one side of the other.
    pub open spec fn intersects(self, other: Rect) -> bool {
        &&& self.x < other.right()
        &&& other.x < self.right()
        &&& self.y < other.bottom()
        &&& other.y < self.bottom()
    }

    /// What the two rectangles have in common.
    pub open spec fn clipped(self, other: Rect) -> Rect {
        if self.intersects(other) {
            let x = if self.x >= other.x { self.x } else { other.x };
            let y = if self.y >= other.y { self.y } else { other.y };
            let right = if self.right() <= other.right() { self.right() } else { other.right() };
            let bottom = if self.bottom() <= other.bottom() {
                self.bottom()
            } else {
                other.bottom()
            };
            Rect { x, y, width: (right - x) as u32, height: (bottom - y) as u32 }
        } else {
            Rect::empty()
        }
    }

    /// Whether the rectangle lies on a display of the given size.
    pub fn lies_on(&self, size: Size) -> (r: bool)
        ensures
            r == self.within(Rect::whole(size)),
    {
        if self.x < 0 || self.y < 0 {
            return false;
        }
        let right = (self.x as u32).checked_add(self.width);
        let bottom = (self.y as u32).checked_add(self.height);
        match (right, bottom) {
            (Some(right), Some(bottom)) => right <= size.width && bottom <= size.height,
            _ => false,
        }
    }
}

/// What two rectangles have in common is the pixels that belong to both.
pub proof fn law_clipped_is_the_common_pixels(a: Rect, b: Rect, px: int, py: int)
    requires
        a.valid(),
        b.valid(),
    ensures
        a.clipped(b).contains(px, py) <==> a.contains(px, py) && b.contains(px, py),
{
}

/// A rectangle that has a pixel lies in another exactly where all of its pixels
/// do.
pub proof fn law_within_means_every_pixel(a: Rect, b: Rect)
    requires
        a.width > 0,
        a.height > 0,
    ensures
        a.within(b) <==> forall|px: int, py: int| #[trigger]
            a.contains(px, py) ==> b.contains(px, py),
{
    if forall|px: int, py: int| #[trigger] a.contains(px, py) ==> b.contains(px, py) {
        assert(a.contains(a.x as int, a.y as int));
        assert(a.contains(a.right() - 1, a.bottom() - 1));
    }
}

/// A whole display has the pixels from the origin to its size.
pub proof fn law_whole_display_has_all_its_pixels(size: Size, px: int, py: int)
    ensures
        Rect::whole(size).contains(px, py) <==> 0 <= px < size.width && 0 <= py < size.height,
{
}

/// Pixels count one each: a rectangle of one row and one column has one, and one
/// that is made of two side by side, or one above the other, has as many as both.
pub proof fn law_pixels_add_up(x: i32, y: i32, w: u32, h: u32, more: u32)
    ensures
        (Rect { x, y, width: 1, height: 1 }).pixels() == 1,
        w + more <= u32::MAX ==> (Rect { x, y, width: (w + more) as u32, height: h }).pixels() == (
        Rect { x, y, width: w, height: h }).pixels() + (Rect {
            x,
            y,
            width: more,
            height: h,
        }).pixels(),
        h + more <= u32::MAX ==> (Rect { x, y, width: w, height: (h + more) as u32 }).pixels() == (
        Rect { x, y, width: w, height: h }).pixels() + (Rect {
            x,
            y,
            width: w,
            height: more,
        }).pixels(),
{
    assert((w + more) * h == w * h + more * h) by (nonlinear_arith);
    assert(w * (h + more) == w * h + w * more) by (nonlinear_arith);
}

/// A rectangle that has a pixel is the only one with its pixels.
pub proof fn law_pixels_determine_the_rectangle(a: Rect, b: Rect)
    requires
        a.same_pixels(b),
        a.width > 0,
        a.height > 0,
    ensures
        a == b,
{
    assert(a.contains(a.x as int, a.y as int));
    assert(a.contains(a.right() - 1, a.bottom() - 1));
    assert(b.contains(b.x as int, b.y as int));
    assert(b.contains(b.right() - 1, b.bottom() - 1));
}

} // verus!
