use vstd::prelude::*;

verus! {

/// Whether an integer fits in an `i32`.
pub open spec fn is_i32(v: int) -> bool {
    i32::MIN <= v <= i32::MAX
}

/// Integer halving rounded toward zero, as `/ 2` does on machine integers.
pub open spec fn half(v: int) -> int {
    if v >= 0 {
        v / 2
    } else {
        -((-v) / 2)
    }
}

/// The remainder left by `half`, as `% 2` does on machine integers.
pub open spec fn rem2(v: int) -> int {
    v - 2 * half(v)
}

pub open spec fn min_int(a: int, b: int) -> int {
    if a <= b {
        a
    } else {
        b
    }
}

pub open spec fn max_int(a: int, b: int) -> int {
    if a >= b {
        a
    } else {
        b
    }
}

pub open spec fn abs_int(a: int) -> int {
    if a >= 0 {
        a
    } else {
        -a
    }
}

/// A cell on the character grid.
#[derive(Clone, Copy, Debug, PartialEq, Eq, Structural)]
pub struct Point {
    pub x: i32,
    pub y: i32,
}

impl Point {
    pub fn new(x: i32, y: i32) -> (r: Point)
        ensures
            r.x == x,
            r.y == y,
    {
        Point { x, y }
    }
}

/// A rectangle of cells: columns `x1..x2` and rows `y1..y2`, the upper bounds
/// excluded.
#[derive(Clone, Copy, Debug, PartialEq, Eq, Structural)]
pub struct Rect {
    pub x1: i32,
    pub y1: i32,
    pub x2: i32,
    pub y2: i32,
}

impl Rect {
    /// Both spans run forward (they may be empty).
    pub open spec fn is_ordered(self) -> bool {
        self.x1 <= self.x2 && self.y1 <= self.y2
    }

    /// Every bound of `other` lies within the bounds of `self`.
    pub open spec fn covers(self, other: Rect) -> bool {
        self.x1 <= other.x1 && other.x2 <= self.x2 && self.y1 <= other.y1 && other.y2 <= self.y2
    }

    /// `other` is an ordered rectangle lying inside `self`.
    pub open spec fn encloses(self, other: Rect) -> bool {
        self.covers(other) && other.is_ordered()
    }

    pub open spec fn contains_point(self, p: Point) -> bool {
        self.x1 <= p.x < self.x2 && self.y1 <= p.y < self.y2
    }

    pub open spec fn spec_width(self) -> int {
        abs_int(self.x2 - self.x1)
    }

    pub open spec fn spec_height(self) -> int {
        abs_int(self.y2 - self.y1)
    }

    /// The midpoint, each coordinate rounded toward zero.
    pub open spec fn spec_center(self) -> Point {
        Point { x: half(self.x1 + self.x2) as i32, y: half(self.y1 + self.y2) as i32 }
    }

    /// The smallest rectangle whose bounds hold the bounds of both.
    pub open spec fn hull(self, other: Rect) -> Rect {
        Rect {
            x1: min_int(self.x1 as int, other.x1 as int) as i32,
            y1: min_int(self.y1 as int, other.y1 as int) as i32,
            x2: max_int(self.x2 as int, other.x2 as int) as i32,
            y2: max_int(self.y2 as int, other.y2 as int) as i32,
        }
    }

    pub fn zero() -> (r: Rect)
        ensures
            r == (Rect { x1: 0, y1: 0, x2: 0, y2: 0 }),
    {
        Rect { x1: 0, y1: 0, x2: 0, y2: 0 }
    }

    /// The rectangle with corner `(x, y)`, `w` columns and `h` rows.
    pub fn with_size(x: i32, y: i32, w: i32, h: i32) -> (r: Rect)
        requires
            is_i32(x + w),
            is_i32(y + h),
        ensures
            r == (Rect { x1: x, y1: y, x2: (x + w) as i32, y2: (y + h) as i32 }),
    {
        Rect { x1: x, y1: y, x2: x + w, y2: y + h }
    }

    pub fn with_exact(x1: i32, y1: i32, x2: i32, y2: i32) -> (r: Rect)
        ensures
            r == (Rect { x1, y1, x2, y2 }),
    {
        Rect { x1, y1, x2, y2 }
    }

    pub fn width(&self) -> (r: i32)
        requires
            is_i32(abs_int(self.x2 - self.x1)),
        ensures
            r == self.spec_width(),
    {
        let d = self.x2 as i64 - self.x1 as i64;
        if d >= 0 {
            d as i32
        } else {
            (-d) as i32
        }
    }

    pub fn height(&self) -> (r: i32)
        requires
            is_i32(abs_int(self.y2 - self.y1)),
        ensures
            r == self.spec_height(),
    {
        let d = self.y2 as i64 - self.y1 as i64;
        if d >= 0 {
            d as i32
        } else {
            (-d) as i32
        }
    }

    pub fn center(&self) -> (r: Point)
        ensures
            r == self.spec_center(),
            r.x == half(self.x1 + self.x2),
            r.y == half(self.y1 + self.y2),
    {
        let x = half_i64(self.x1 as i64 + self.x2 as i64);
        let y = half_i64(self.y1 as i64 + self.y2 as i64);
        Point { x: x as i32, y: y as i32 }
    }

    pub fn point_in_rect(&self, point: Point) -> (r: bool)
        ensures
            r == self.contains_point(point),
    {
        point.x >= self.x1 && point.x < self.x2 && point.y >= self.y1 && point.y < self.y2
    }

    /// Grows `self` to the hull of itself and `other`.
    pub fn expand_to(&mut self, other: Rect)
        ensures
            *final(self) == old(self).hull(other),
    {
        if other.x1 < self.x1 {
            self.x1 = other.x1;
        }
        if other.x2 > self.x2 {
            self.x2 = other.x2;
        }
        if other.y1 < self.y1 {
            self.y1 = other.y1;
        }
        if other.y2 > self.y2 {
            self.y2 = other.y2;
        }
    }
}

/// Halving rounded toward zero on a sum of two `i32` values.
pub fn half_i64(v: i64) -> (r: i64)
    requires
        2 * (i32::MIN as int) <= v <= 2 * (i32::MAX as int),
    ensures
        r == half(v as int),
        i32::MIN <= r <= i32::MAX,
{
    if v >= 0 {
        v / 2
    } else {
        -((-v) / 2)
    }
}

/// Growing a bounding box to hold another rectangle never shrinks it: the
/// hull covers both.
pub proof fn lemma_hull_covers(a: Rect, b: Rect)
    ensures
        a.hull(b).covers(a),
        a.hull(b).covers(b),
{
}

} // verus!
