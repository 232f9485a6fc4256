use vstd::prelude::*;

use crate::geometry::{half, is_i32, rem2, Rect};

verus! {

/// Alignment in the `X` dimension.
#[derive(Clone, Copy, Debug, PartialEq, Eq, Structural)]
pub enum AlignX {
    Left,
    Right,
    Center,
}

/// Alignment in the `Y` dimension.
#[derive(Clone, Copy, Debug, PartialEq, Eq, Structural)]
pub enum AlignY {
    Top,
    Bottom,
    Center,
}

/// The span of `size` cells placed at the start of `lo..hi`.
pub open spec fn span_start(lo: int, size: int) -> (int, int) {
    (lo, lo + size)
}

/// The span of `size` cells placed at the end of `lo..hi`.
pub open spec fn span_end(hi: int, size: int) -> (int, int) {
    (hi - size, hi)
}

/// The span of `size` cells centred on the midpoint of `lo..hi`; of an odd
/// size, the extra cell goes to the upper half.
pub open spec fn span_center(lo: int, hi: int, size: int) -> (int, int) {
    (half(lo + hi) - half(size), half(lo + hi) + half(size) + rem2(size))
}

/// A centred span of `size` lies inside `lo..hi` unless the midpoint was
/// rounded up (a negative odd sum) and the span takes the whole range.
pub open spec fn center_fits(lo: int, hi: int, size: int) -> bool {
    lo + hi >= 0 || (lo + hi) % 2 == 0 || size < hi - lo
}

/// Specifies the layout of widgets in a container.
#[derive(Clone, Copy, Debug, PartialEq, Eq, Structural)]
pub struct Layout {
    pub x: AlignX,
    pub y: AlignY,
}

impl Layout {
    /// The columns that an allocation `w` wide takes in `c`.
    pub open spec fn x_span(self, c: Rect, w: int) -> (int, int) {
        match self.x {
            AlignX::Left => span_start(c.x1 as int, w),
            AlignX::Right => span_end(c.x2 as int, w),
            AlignX::Center => span_center(c.x1 as int, c.x2 as int, w),
        }
    }

    /// The rows that an allocation `h` high takes in `c`.
    pub open spec fn y_span(self, c: Rect, h: int) -> (int, int) {
        match self.y {
            AlignY::Top => span_start(c.y1 as int, h),
            AlignY::Bottom => span_end(c.y2 as int, h),
            AlignY::Center => span_center(c.y1 as int, c.y2 as int, h),
        }
    }

    /// Every bound of the allocation fits in an `i32`.
    pub open spec fn allocation_fits(self, c: Rect, w: int, h: int) -> bool {
        &&& is_i32(self.x_span(c, w).0)
        &&& is_i32(self.x_span(c, w).1)
        &&& is_i32(self.y_span(c, h).0)
        &&& is_i32(self.y_span(c, h).1)
    }

    /// The rectangle allocated for `w` columns and `h` rows in `c`.
    pub open spec fn allocation(self, c: Rect, w: int, h: int) -> Rect {
        Rect {
            x1: self.x_span(c, w).0 as i32,
            x2: self.x_span(c, w).1 as i32,
            y1: self.y_span(c, h).0 as i32,
            y2: self.y_span(c, h).1 as i32,
        }
    }

    /// The inputs on which an allocation stays inside its container: the
    /// size fits, and a centred span is not pushed out by rounding.
    pub open spec fn allocation_inside(self, c: Rect, w: int, h: int) -> bool {
        &&& c.is_ordered()
        &&& 0 <= w <= c.x2 - c.x1
        &&& 0 <= h <= c.y2 - c.y1
        &&& self.x is Center ==> center_fits(c.x1 as int, c.x2 as int, w)
        &&& self.y is Center ==> center_fits(c.y1 as int, c.y2 as int, h)
    }

    /// Create a new layout with the given alignments.
    pub fn new(x: AlignX, y: AlignY) -> (r: Self)
        ensures
            r.x == x,
            r.y == y,
    {
        Self { x, y }
    }

    /// Allocates `x` columns and `y` rows in `containing_rect` according to
    /// the alignments.
    pub fn allocate_aligned(&self, containing_rect: Rect, x: i32, y: i32) -> (r: Rect)
        requires
            self.allocation_fits(containing_rect, x as int, y as int),
        ensures
            r == self.allocation(containing_rect, x as int, y as int),
            r.x1 == self.x_span(containing_rect, x as int).0,
            r.x2 == self.x_span(containing_rect, x as int).1,
            r.y1 == self.y_span(containing_rect, y as int).0,
            r.y2 == self.y_span(containing_rect, y as int).1,
    {
        let c = containing_rect;
        let (x1, x2) = match self.x {
            AlignX::Left => (c.x1, c.x1 + x),
            AlignX::Right => (c.x2 - x, c.x2),
            AlignX::Center => {
                let center = c.center();
                let hw = half_i32(x);
                (center.x - hw, center.x + hw + (x - 2 * hw))
            },
        };
        let (y1, y2) = match self.y {
            AlignY::Top => (c.y1, c.y1 + y),
            AlignY::Bottom => (c.y2 - y, c.y2),
            AlignY::Center => {
                let center = c.center();
                let hh = half_i32(y);
                (center.y - hh, center.y + hh + (y - 2 * hh))
            },
        };
        Rect { x1, y1, x2, y2 }
    }
}

/// Halving rounded toward zero.
fn half_i32(v: i32) -> (r: i32)
    ensures
        r == half(v as int),
{
    if v >= 0 {
        v / 2
    } else {
        -((-(v as i64)) / 2) as i32
    }
}

/// An allocation lies inside its container and has exactly the size asked
/// for, for every alignment, whenever the size fits the container (and a
/// centred span is not pushed out by rounding a negative midpoint).
pub proof fn lemma_allocation_inside(layout: Layout, c: Rect, w: int, h: int)
    requires
        layout.allocation_inside(c, w, h),
    ensures
        layout.allocation_fits(c, w, h),
        c.encloses(layout.allocation(c, w, h)),
        layout.allocation(c, w, h).x2 - layout.allocation(c, w, h).x1 == w,
        layout.allocation(c, w, h).y2 - layout.allocation(c, w, h).y1 == h,
{
}

/// A centred allocation is exactly `w` wide, and the cells right of the
/// midpoint outnumber those left of it by `w % 2`.
pub proof fn lemma_center_parity(c: Rect, w: int)
    ensures
        span_center(c.x1 as int, c.x2 as int, w).1 - span_center(c.x1 as int, c.x2 as int, w).0
            == w,
        (span_center(c.x1 as int, c.x2 as int, w).1 - half(c.x1 + c.x2)) - (half(c.x1 + c.x2)
            - span_center(c.x1 as int, c.x2 as int, w).0) == rem2(w),
        w >= 0 ==> rem2(w) == w % 2,
{
}

/// A centred allocation of `w` columns and `h` rows starts `w / 2` columns
/// left of the container's midpoint and ends `w / 2 + w % 2` right of it: it
/// is exactly `w` wide, and an odd width puts the extra column right of the
/// midpoint. The same holds of rows, with an odd height's extra row below.
pub proof fn lemma_center_allocation(layout: Layout, c: Rect, w: int, h: int)
    requires
        layout.x is Center,
        layout.y is Center,
        0 <= w,
        0 <= h,
        layout.allocation_fits(c, w, h),
    ensures
        ({
            let r = layout.allocation(c, w, h);
            let m = c.spec_center();
            &&& r.x1 == m.x - w / 2
            &&& r.x2 == m.x + w / 2 + w % 2
            &&& r.x2 - r.x1 == w
            &&& (r.x2 - m.x) - (m.x - r.x1) == w % 2
            &&& r.y1 == m.y - h / 2
            &&& r.y2 == m.y + h / 2 + h % 2
            &&& r.y2 - r.y1 == h
            &&& (r.y2 - m.y) - (m.y - r.y1) == h % 2
        }),
{
}

} // verus!
