use vstd::prelude::*;

verus! {

/// The largest coordinate or size a rectangle or point can hold
/// (half of `i32::MAX`, so that a right or bottom edge never overflows).
pub const MAX_INT_VALUE: i32 = 1073741823;

/// The smallest coordinate a rectangle or point can hold (half of `i32::MIN`).
pub const MIN_INT_VALUE: i32 = -1073741824;

/// A coordinate forced into the range that points and rectangles can hold.
pub open spec fn clamp_position(v: int) -> int {
    if v > MAX_INT_VALUE {
        MAX_INT_VALUE as int
    } else if v < MIN_INT_VALUE {
        MIN_INT_VALUE as int
    } else {
        v
    }
}

/// A size forced into the range that rectangles can hold; a rectangle is
/// never empty, so a size of 0 becomes 1.
pub open spec fn clamp_size(v: int) -> int {
    if v == 0 {
        1
    } else if v > MAX_INT_VALUE {
        MAX_INT_VALUE as int
    } else {
        v
    }
}

pub(crate) fn clamp_position_i64(v: i64) -> (r: i32)
    ensures
        r == clamp_position(v as int),
{
    if v > MAX_INT_VALUE as i64 {
        MAX_INT_VALUE
    } else if v < MIN_INT_VALUE as i64 {
        MIN_INT_VALUE
    } else {
        v as i32
    }
}

fn clamp_size_u32(v: u32) -> (r: u32)
    ensures
        r == clamp_size(v as int),
{
    if v == 0 {
        1
    } else if v > MAX_INT_VALUE as u32 {
        MAX_INT_VALUE as u32
    } else {
        v
    }
}

/// A point on the screen, in pixels.
#[derive(Clone, Copy, PartialEq, Eq, Structural, Debug)]
pub struct Point {
    pub x: i32,
    pub y: i32,
}

impl Point {
    /// Creates a point; each coordinate is clamped into
    /// `MIN_INT_VALUE..=MAX_INT_VALUE`.
    pub fn new(x: i32, y: i32) -> (r: Point)
        ensures
            r.x == clamp_position(x as int),
            r.y == clamp_position(y as int),
    {
        Point { x: clamp_position_i64(x as i64), y: clamp_position_i64(y as i64) }
    }

    /// The point moved by `(dx, dy)`; the sum is clamped like a new point.
    pub fn offset(self, dx: i32, dy: i32) -> (r: Point)
        ensures
            r.x == clamp_position(self.x + dx),
            r.y == clamp_position(self.y + dy),
    {
        Point {
            x: clamp_position_i64(self.x as i64 + dx as i64),
            y: clamp_position_i64(self.y as i64 + dy as i64),
        }
    }

    /// Coordinate-wise sum, clamped like a new point.
    pub fn add(self, rhs: Point) -> (r: Point)
        ensures
            r.x == clamp_position(self.x + rhs.x),
            r.y == clamp_position(self.y + rhs.y),
    {
        self.offset(rhs.x, rhs.y)
    }

    /// Coordinate-wise difference, clamped like a new point.
    pub fn sub(self, rhs: Point) -> (r: Point)
        requires
            rhs.x != i32::MIN,
            rhs.y != i32::MIN,
        ensures
            r.x == clamp_position(self.x - rhs.x),
            r.y == clamp_position(self.y - rhs.y),
    {
        self.offset(-rhs.x, -rhs.y)
    }
}

/// The mathematical content of a rectangle: its top-left corner and its
/// size.
pub struct RectModel {
    pub x: int,
    pub y: int,
    pub w: int,
    pub h: int,
}

impl RectModel {
    /// The x coordinate just past the right edge.
    pub open spec fn right(self) -> int {
        self.x + self.w
    }

    /// The y coordinate just past the bottom edge.
    pub open spec fn bottom(self) -> int {
        self.y + self.h
    }

    /// Whether the pixel at `(px, py)` lies inside the rectangle.
    pub open spec fn contains(self, px: int, py: int) -> bool {
        self.x <= px < self.right() && self.y <= py < self.bottom()
    }

    /// The ranges that every rectangle keeps to.
    pub open spec fn wf(self) -> bool {
        &&& MIN_INT_VALUE <= self.x <= MAX_INT_VALUE
        &&& MIN_INT_VALUE <= self.y <= MAX_INT_VALUE
        &&& 1 <= self.w <= MAX_INT_VALUE
        &&& 1 <= self.h <= MAX_INT_VALUE
    }
}

/// A non-empty axis-aligned rectangle, in pixels.
#[derive(Clone, Copy, Debug)]
pub struct Rect {
    x: i32,
    y: i32,
    w: u32,
    h: u32,
}

impl View for Rect {
    type V = RectModel;

    closed spec fn view(&self) -> RectModel {
        RectModel { x: self.x as int, y: self.y as int, w: self.w as int, h: self.h as int }
    }
}

impl Rect {
    #[verifier::type_invariant]
    spec fn inv(self) -> bool {
        self@.wf()
    }

    /// Every rectangle keeps to the ranges of `RectModel::wf`.
    pub fn check_wf(&self)
        ensures
            self@.wf(),
    {
        proof {
            use_type_invariant(self);
        }
    }

    /// Creates a rectangle; the position is clamped like a point's and the
    /// size into `1..=MAX_INT_VALUE`.
    pub fn new(x: i32, y: i32, width: u32, height: u32) -> (r: Rect)
        ensures
            r@.wf(),
            r@.x == clamp_position(x as int),
            r@.y == clamp_position(y as int),
            r@.w == clamp_size(width as int),
            r@.h == clamp_size(height as int),
    {
        Rect {
            x: clamp_position_i64(x as i64),
            y: clamp_position_i64(y as i64),
            w: clamp_size_u32(width),
            h: clamp_size_u32(height),
        }
    }

    pub fn x(&self) -> (r: i32)
        ensures
            r == self@.x,
    {
        self.x
    }

    pub fn y(&self) -> (r: i32)
        ensures
            r == self@.y,
    {
        self.y
    }

    pub fn width(&self) -> (r: u32)
        ensures
            r == self@.w,
    {
        self.w
    }

    pub fn height(&self) -> (r: u32)
        ensures
            r == self@.h,
    {
        self.h
    }

    pub fn left(&self) -> (r: i32)
        ensures
            r == self@.x,
    {
        self.x
    }

    pub fn right(&self) -> (r: i32)
        ensures
            r == self@.right(),
    {
        proof {
            use_type_invariant(self);
        }
        self.x + self.w as i32
    }

    pub fn top(&self) -> (r: i32)
        ensures
            r == self@.y,
    {
        self.y
    }

    pub fn bottom(&self) -> (r: i32)
        ensures
            r == self@.bottom(),
    {
        proof {
            use_type_invariant(self);
        }
        self.y + self.h as i32
    }

    /// The centre pixel: the corner moved by half the size, rounded down,
    /// and clamped like a new point.
    pub fn center(&self) -> (r: Point)
        ensures
            r.x == clamp_position(self@.x + self@.w / 2),
            r.y == clamp_position(self@.y + self@.h / 2),
    {
        proof {
            use_type_invariant(self);
        }
        Point::new(self.x + (self.w / 2) as i32, self.y + (self.h / 2) as i32)
    }

    /// Whether the point lies inside the rectangle (the right and bottom
    /// edges are outside).
    pub fn contains_point(&self, point: Point) -> (r: bool)
        ensures
            r == self@.contains(point.x as int, point.y as int),
    {
        let inside_x = point.x >= self.left() && point.x < self.right();
        inside_x && (point.y >= self.top() && point.y < self.bottom())
    }
}

/// The centre of a rectangle lies inside it.
pub proof fn lemma_center_inside(r: RectModel)
    requires
        r.wf(),
    ensures
        r.contains(clamp_position(r.x + r.w / 2), clamp_position(r.y + r.h / 2)),
{
}

/// A rectangle built from a position and size that are already in range
/// keeps them unchanged.
pub proof fn lemma_new_in_range(x: int, y: int, w: int, h: int)
    requires
        MIN_INT_VALUE <= x <= MAX_INT_VALUE,
        MIN_INT_VALUE <= y <= MAX_INT_VALUE,
        1 <= w <= MAX_INT_VALUE,
        1 <= h <= MAX_INT_VALUE,
    ensures
        clamp_position(x) == x,
        clamp_position(y) == y,
        clamp_size(w) == w,
        clamp_size(h) == h,
{
}

} // verus!
