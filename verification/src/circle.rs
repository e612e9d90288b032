use vstd::prelude::*;
use crate::geometry::{clamp_position, Point};

verus! {

/// The largest radius the rasteriser accepts (so that twice the radius fits
/// in an `i32`).
pub const MAX_RADIUS: i32 = 1073741823;

/// The next pixel after `(x, y)` when walking the octant of a circle of
/// radius `r` from the top, clockwise: step right while the pixel stays
/// within `r² + r` of the centre; otherwise step down if the pixel below is
/// still farther out than `r² - r`; otherwise step diagonally.
pub open spec fn next_pixel(r: int, x: int, y: int) -> (int, int) {
    if (x + 1) * (x + 1) + y * y <= r * r + r {
        (x + 1, y)
    } else if x * x + (y - 1) * (y - 1) > r * r - r {
        (x, y - 1)
    } else {
        (x + 1, y - 1)
    }
}

/// The pixels visited from `(x, y)` on, up to the diagonal.
pub open spec fn octant_from(r: int, x: int, y: int) -> Seq<(int, int)>
    decreases y - x + 2,
{
    if y < x {
        Seq::empty()
    } else {
        let (nx, ny) = next_pixel(r, x, y);
        seq![(x, y)].add(octant_from(r, nx, ny))
    }
}

/// The octant of the circle of radius `r` from `(0, r)` down to the
/// diagonal.
pub open spec fn octant(r: int) -> Seq<(int, int)> {
    octant_from(r, 0, r)
}

/// Whether a pixel lies in the ring of the circle of radius `r`.
pub open spec fn in_ring(r: int, x: int, y: int) -> bool {
    r * r - r <= x * x + y * y <= r * r + r
}

proof fn lemma_step_shapes(r: int, x: int, y: int)
    ensures
        next_pixel(r, x, y) == (x + 1, y) || next_pixel(r, x, y) == (x, y - 1) || next_pixel(r, x, y)
            == (x + 1, y - 1),
{
}

proof fn lemma_next_in_ring(r: int, x: int, y: int)
    requires
        0 <= x <= y <= r,
        in_ring(r, x, y),
        next_pixel(r, x, y).1 >= next_pixel(r, x, y).0,
    ensures
        in_ring(r, next_pixel(r, x, y).0, next_pixel(r, x, y).1),
{
    let d = r * r + r - 1 - x * x - y * y;
    assert((x + 1) * (x + 1) == x * x + 2 * x + 1) by (nonlinear_arith);
    assert((y - 1) * (y - 1) == y * y - 2 * y + 1) by (nonlinear_arith);
}

/// Every pixel the rasteriser visits from a pixel of the ring lies in the
/// ring, between the vertical axis and the diagonal.
pub proof fn lemma_octant_from_in_ring(r: int, x: int, y: int)
    requires
        0 <= x,
        y <= r,
        y >= x ==> in_ring(r, x, y),
    ensures
        forall|i: int|
            0 <= i < octant_from(r, x, y).len() ==> {
                let (px, py) = #[trigger] octant_from(r, x, y)[i];
                &&& in_ring(r, px, py)
                &&& 0 <= px <= py <= r
            },
    decreases y - x + 2,
{
    if y < x {
    } else {
        let (nx, ny) = next_pixel(r, x, y);
        lemma_step_shapes(r, x, y);
        if ny >= nx {
            lemma_next_in_ring(r, x, y);
        }
        lemma_octant_from_in_ring(r, nx, ny);
        let rest = octant_from(r, nx, ny);
        assert(octant_from(r, x, y) == seq![(x, y)].add(rest));
        assert forall|i: int| 0 <= i < octant_from(r, x, y).len() implies {
            let (px, py) = #[trigger] octant_from(r, x, y)[i];
            &&& in_ring(r, px, py)
            &&& 0 <= px <= py <= r
        } by {
            if i > 0 {
                assert(octant_from(r, x, y)[i] == rest[i - 1]);
            }
        }
    }
}

/// Every pixel of the octant of a circle lies in its ring: its squared
/// distance from the centre is within `r` of `r²`.
pub proof fn lemma_octant_in_ring(r: int)
    requires
        r >= 0,
    ensures
        forall|i: int|
            0 <= i < octant(r).len() ==> {
                let (px, py) = #[trigger] octant(r)[i];
                &&& in_ring(r, px, py)
                &&& 0 <= px <= py <= r
            },
{
    assert(r * r - r <= r * r <= r * r + r) by (nonlinear_arith)
        requires
            r >= 0,
    ;
    lemma_octant_from_in_ring(r, 0, r);
}

/// The pixels of the first octant of the circle of radius `radius`, from the
/// top of the circle down to the diagonal, as offsets from the centre.
pub fn circle_octant(radius: i32) -> (pixels: Vec<(i32, i32)>)
    requires
        radius <= MAX_RADIUS,
    ensures
        pixels@.len() == octant(radius as int).len(),
        forall|i: int|
            0 <= i < pixels@.len() ==> (pixels@[i].0 as int, pixels@[i].1 as int) == #[trigger] octant(
                radius as int,
            )[i],
{
    let ghost r = radius as int;
    let mut pixels: Vec<(i32, i32)> = Vec::new();
    if radius < 0 {
        return pixels;
    }
    let (mut x, mut y, mut d): (i32, i32, i32) = (0, radius, radius - 1);
    assert(d == r * r + r - 1 - x * x - y * y) by (nonlinear_arith)
        requires
            x == 0,
            y == r,
            d == r - 1,
    ;
    while y >= x
        invariant
            0 <= r <= MAX_RADIUS,
            radius == r,
            0 <= x,
            y <= r,
            y >= x - 2,
            d == r * r + r - 1 - x * x - y * y,
            y >= x ==> -1 <= d <= 2 * r - 1,
            pixels@.len() + octant_from(r, x as int, y as int).len() == octant(r).len(),
            forall|i: int|
                0 <= i < pixels@.len() ==> (pixels@[i].0 as int, pixels@[i].1 as int) == #[trigger] octant(
                    r,
                )[i],
            forall|i: int|
                0 <= i < octant_from(r, x as int, y as int).len() ==> #[trigger] octant_from(
                    r,
                    x as int,
                    y as int,
                )[i] == octant(r)[pixels@.len() + i],
        decreases y - x + 2,
    {
        let ghost (ox, oy, od) = (x as int, y as int, d as int);
        let ghost rest = octant_from(r, ox, oy);
        assert((ox + 1) * (ox + 1) == ox * ox + 2 * ox + 1) by (nonlinear_arith);
        assert((oy - 1) * (oy - 1) == oy * oy - 2 * oy + 1) by (nonlinear_arith);
        pixels.push((x, y));
        if d >= 2 * x {
            d -= 2 * x + 1;
            x += 1;
        } else if d < 2 * (radius - y) {
            d += 2 * y - 1;
            y -= 1;
        } else {
            d += 2 * (y - x - 1);
            y -= 1;
            x += 1;
        }
        assert(next_pixel(r, ox, oy) == (x as int, y as int));
        assert(d == r * r + r - 1 - x * x - y * y) by (nonlinear_arith)
            requires
                od == r * r + r - 1 - ox * ox - oy * oy,
                (ox + 1) * (ox + 1) == ox * ox + 2 * ox + 1,
                (oy - 1) * (oy - 1) == oy * oy - 2 * oy + 1,
                (x == ox + 1 && y == oy && d == od - 2 * ox - 1) || (x == ox && y == oy - 1 && d == od
                    + 2 * oy - 1) || (x == ox + 1 && y == oy - 1 && d == od + 2 * (oy - ox - 1)),
        ;
        assert(rest[0] == (ox, oy));
        assert forall|i: int|
            0 <= i < octant_from(r, x as int, y as int).len() implies #[trigger] octant_from(
                r,
                x as int,
                y as int,
            )[i] == octant(r)[pixels@.len() + i] by {
            assert(rest[i + 1] == octant_from(r, x as int, y as int)[i]);
        }
    }
    pixels
}

/// The four horizontal lines that fill the circle for one pixel `(x, y)` of
/// its octant, each from its left end to its right end, moved to `center`.
pub open spec fn fill_lines_at(center: Point, x: int, y: int) -> Seq<(Point, Point)> {
    seq![
        (moved(center, -x, -y), moved(center, x, -y)),
        (moved(center, -y, -x), moved(center, y, -x)),
        (moved(center, -x, y), moved(center, x, y)),
        (moved(center, -y, x), moved(center, y, x)),
    ]
}

/// The eight pixels of the outline for one pixel `(x, y)` of the octant,
/// moved to `center`.
pub open spec fn outline_points_at(center: Point, x: int, y: int) -> Seq<Point> {
    seq![
        moved(center, -x, -y),
        moved(center, x, -y),
        moved(center, -y, -x),
        moved(center, y, -x),
        moved(center, -x, y),
        moved(center, x, y),
        moved(center, -y, x),
        moved(center, y, x),
    ]
}

/// Whether `(dx, dy)` is one of the eight reflections of the octant pixel
/// `(x, y)`: `(±x, ±y)` or `(±y, ±x)`.
pub open spec fn is_reflection(x: int, y: int, dx: int, dy: int) -> bool {
    ||| (dx == x || dx == -x) && (dy == y || dy == -y)
    ||| (dx == y || dx == -y) && (dy == x || dy == -x)
}

/// The outline drawn for an octant pixel is the centre moved by each of
/// the eight reflections of the pixel, and by nothing else; in particular
/// it is symmetric about the centre's column and row and about both
/// diagonals.
pub proof fn lemma_outline_is_reflections(center: Point, x: int, y: int)
    ensures
        outline_points_at(center, x, y).len() == 8,
        forall|dx: int, dy: int|
            is_reflection(x, y, dx, dy) ==> #[trigger] outline_points_at(center, x, y).contains(
                moved(center, dx, dy),
            ),
        forall|k: int|
            0 <= k < 8 ==> exists|dx: int, dy: int|
                is_reflection(x, y, dx, dy) && #[trigger] outline_points_at(center, x, y)[k]
                    == moved(center, dx, dy),
{
    let s = outline_points_at(center, x, y);
    assert forall|dx: int, dy: int| is_reflection(x, y, dx, dy) implies #[trigger] s.contains(
        moved(center, dx, dy),
    ) by {
        if dx == -x && dy == -y {
            assert(s[0] == moved(center, dx, dy));
        } else if dx == x && dy == -y {
            assert(s[1] == moved(center, dx, dy));
        } else if dx == -x && dy == y {
            assert(s[4] == moved(center, dx, dy));
        } else if dx == x && dy == y {
            assert(s[5] == moved(center, dx, dy));
        } else if dx == -y && dy == -x {
            assert(s[2] == moved(center, dx, dy));
        } else if dx == y && dy == -x {
            assert(s[3] == moved(center, dx, dy));
        } else if dx == -y && dy == x {
            assert(s[6] == moved(center, dx, dy));
        } else {
            assert(s[7] == moved(center, dx, dy));
        }
    }
    assert forall|k: int| 0 <= k < 8 implies exists|dx: int, dy: int|
        is_reflection(x, y, dx, dy) && #[trigger] s[k] == moved(center, dx, dy) by {
        if k == 0 {
            assert(is_reflection(x, y, -x, -y) && s[k] == moved(center, -x, -y));
        } else if k == 1 {
            assert(is_reflection(x, y, x, -y) && s[k] == moved(center, x, -y));
        } else if k == 2 {
            assert(is_reflection(x, y, -y, -x) && s[k] == moved(center, -y, -x));
        } else if k == 3 {
            assert(is_reflection(x, y, y, -x) && s[k] == moved(center, y, -x));
        } else if k == 4 {
            assert(is_reflection(x, y, -x, y) && s[k] == moved(center, -x, y));
        } else if k == 5 {
            assert(is_reflection(x, y, x, y) && s[k] == moved(center, x, y));
        } else if k == 6 {
            assert(is_reflection(x, y, -y, x) && s[k] == moved(center, -y, x));
        } else {
            assert(is_reflection(x, y, y, x) && s[k] == moved(center, y, x));
        }
    }
}

/// The horizontal line of half width `w` at `h` rows from the centre.
pub open spec fn row_line(center: Point, w: int, h: int) -> (Point, Point) {
    (moved(center, -w, h), moved(center, w, h))
}

/// The lines filled for an octant pixel `(x, y)` are, on each side of the
/// centre row, the line of half width `x` at `y` rows away and the line of
/// half width `y` at `x` rows away, and nothing else: the fill is
/// symmetric about the centre row, every line above having its mirror
/// below with the same columns.
pub proof fn lemma_fill_lines_are_symmetric(center: Point, x: int, y: int)
    ensures
        fill_lines_at(center, x, y).len() == 4,
        forall|h: int|
            (h == y || h == -y) ==> #[trigger] fill_lines_at(center, x, y).contains(
                row_line(center, x, h),
            ),
        forall|h: int|
            (h == x || h == -x) ==> #[trigger] fill_lines_at(center, x, y).contains(
                row_line(center, y, h),
            ),
        forall|k: int|
            0 <= k < 4 ==> exists|w: int, h: int|
                ((w == x && (h == y || h == -y)) || (w == y && (h == x || h == -x)))
                    && #[trigger] fill_lines_at(center, x, y)[k] == row_line(center, w, h),
        forall|k: int|
            0 <= k < 4 ==> exists|w: int, h: int|
                #![trigger row_line(center, w, h)]
                #[trigger] fill_lines_at(center, x, y)[k] == row_line(center, w, h)
                    && fill_lines_at(center, x, y).contains(row_line(center, w, -h)),
{
    let s = fill_lines_at(center, x, y);
    assert(s[0] == row_line(center, x, -y));
    assert(s[1] == row_line(center, y, -x));
    assert(s[2] == row_line(center, x, y));
    assert(s[3] == row_line(center, y, x));
    assert forall|h: int| (h == y || h == -y) implies #[trigger] s.contains(row_line(center, x, h)) by {
        if h == y {
            assert(s[2] == row_line(center, x, h));
        } else {
            assert(s[0] == row_line(center, x, h));
        }
    }
    assert forall|h: int| (h == x || h == -x) implies #[trigger] s.contains(row_line(center, y, h)) by {
        if h == x {
            assert(s[3] == row_line(center, y, h));
        } else {
            assert(s[1] == row_line(center, y, h));
        }
    }
    assert forall|k: int| 0 <= k < 4 implies exists|w: int, h: int|
        ((w == x && (h == y || h == -y)) || (w == y && (h == x || h == -x))) && #[trigger] s[k]
            == row_line(center, w, h) by {
        if k == 0 {
            assert(s[k] == row_line(center, x, -y));
        } else if k == 1 {
            assert(s[k] == row_line(center, y, -x));
        } else if k == 2 {
            assert(s[k] == row_line(center, x, y));
        } else {
            assert(s[k] == row_line(center, y, x));
        }
    }
    assert forall|k: int| 0 <= k < 4 implies exists|w: int, h: int|
        #![trigger row_line(center, w, h)]
        #[trigger] s[k] == row_line(center, w, h) && s.contains(row_line(center, w, -h)) by {
        if k == 0 {
            assert(s[k] == row_line(center, x, -y) && s[2] == row_line(center, x, y));
        } else if k == 1 {
            assert(s[k] == row_line(center, y, -x) && s[3] == row_line(center, y, x));
        } else if k == 2 {
            assert(s[k] == row_line(center, x, y) && s[0] == row_line(center, x, -y));
        } else {
            assert(s[k] == row_line(center, y, x) && s[1] == row_line(center, y, -x));
        }
    }
}

/// `center` moved by `(dx, dy)`, clamped like any point.
pub open spec fn moved(center: Point, dx: int, dy: int) -> Point {
    Point { x: clamp_position(center.x + dx) as i32, y: clamp_position(center.y + dy) as i32 }
}

fn offset_point(center: Point, dx: i32, dy: i32) -> (r: Point)
    requires
        -MAX_RADIUS <= dx <= MAX_RADIUS,
        -MAX_RADIUS <= dy <= MAX_RADIUS,
    ensures
        r == moved(center, dx as int, dy as int),
{
    center.add(Point::new(dx, dy))
}

/// The lines that fill the disc of radius `radius` around `center`: four
/// horizontal lines for each pixel of the octant.
pub fn fill_circle(center: Point, radius: i32) -> (lines: Vec<[(Point, Point); 4]>)
    requires
        radius <= MAX_RADIUS,
    ensures
        lines@.len() == octant(radius as int).len(),
        forall|i: int|
            0 <= i < lines@.len() ==> #[trigger] lines@[i]@ == fill_lines_at(
                center,
                octant(radius as int)[i].0,
                octant(radius as int)[i].1,
            ),
        forall|i: int, h: int|
            0 <= i < lines@.len() && (h == octant(radius as int)[i].1 || h == -octant(
                radius as int,
            )[i].1) ==> #[trigger] lines@[i]@.contains(
                row_line(center, octant(radius as int)[i].0, h),
            ),
        forall|i: int, h: int|
            0 <= i < lines@.len() && (h == octant(radius as int)[i].0 || h == -octant(
                radius as int,
            )[i].0) ==> #[trigger] lines@[i]@.contains(
                row_line(center, octant(radius as int)[i].1, h),
            ),
{
    let pixels = circle_octant(radius);
    proof {
        if radius >= 0 {
            lemma_octant_in_ring(radius as int);
        }
    }
    let mut lines: Vec<[(Point, Point); 4]> = Vec::new();
    let mut i: usize = 0;
    while i < pixels.len()
        invariant
            radius <= MAX_RADIUS,
            i <= pixels@.len(),
            lines@.len() == i,
            pixels@.len() == octant(radius as int).len(),
            forall|j: int|
                0 <= j < pixels@.len() ==> (pixels@[j].0 as int, pixels@[j].1 as int) == #[trigger] octant(
                    radius as int,
                )[j],
            radius >= 0 ==> forall|j: int|
                0 <= j < octant(radius as int).len() ==> {
                    let (px, py) = #[trigger] octant(radius as int)[j];
                    &&& in_ring(radius as int, px, py)
                    &&& 0 <= px <= py <= radius
                },
            forall|j: int|
                0 <= j < i ==> #[trigger] lines@[j]@ == fill_lines_at(
                    center,
                    octant(radius as int)[j].0,
                    octant(radius as int)[j].1,
                ),
        decreases pixels@.len() - i,
    {
        let (x, y) = pixels[i];
        assert(octant(radius as int)[i as int] == (x as int, y as int));
        let quad = [
            (offset_point(center, -x, -y), offset_point(center, x, -y)),
            (offset_point(center, -y, -x), offset_point(center, y, -x)),
            (offset_point(center, -x, y), offset_point(center, x, y)),
            (offset_point(center, -y, x), offset_point(center, y, x)),
        ];
        assert(quad@ == fill_lines_at(center, x as int, y as int));
        lines.push(quad);
        i += 1;
    }
    assert forall|i: int| #![trigger lines@[i]] 0 <= i < lines@.len() implies {
        &&& forall|h: int|
            (h == octant(radius as int)[i].1 || h == -octant(radius as int)[i].1)
                ==> #[trigger] lines@[i]@.contains(row_line(center, octant(radius as int)[i].0, h))
        &&& forall|h: int|
            (h == octant(radius as int)[i].0 || h == -octant(radius as int)[i].0)
                ==> #[trigger] lines@[i]@.contains(row_line(center, octant(radius as int)[i].1, h))
    } by {
        lemma_fill_lines_are_symmetric(center, octant(radius as int)[i].0, octant(radius as int)[i].1);
    }
    lines
}

/// The pixels of the outline of the circle of radius `radius` around
/// `center`: eight symmetric pixels for each pixel of the octant.
pub fn draw_circle(center: Point, radius: i32) -> (points: Vec<[Point; 8]>)
    requires
        radius <= MAX_RADIUS,
    ensures
        points@.len() == octant(radius as int).len(),
        forall|i: int|
            0 <= i < points@.len() ==> #[trigger] points@[i]@ == outline_points_at(
                center,
                octant(radius as int)[i].0,
                octant(radius as int)[i].1,
            ),
        forall|i: int, dx: int, dy: int|
            0 <= i < points@.len() && is_reflection(
                octant(radius as int)[i].0,
                octant(radius as int)[i].1,
                dx,
                dy,
            ) ==> #[trigger] points@[i]@.contains(moved(center, dx, dy)),
{
    let pixels = circle_octant(radius);
    proof {
        if radius >= 0 {
            lemma_octant_in_ring(radius as int);
        }
    }
    let mut points: Vec<[Point; 8]> = Vec::new();
    let mut i: usize = 0;
    while i < pixels.len()
        invariant
            radius <= MAX_RADIUS,
            i <= pixels@.len(),
            points@.len() == i,
            pixels@.len() == octant(radius as int).len(),
            forall|j: int|
                0 <= j < pixels@.len() ==> (pixels@[j].0 as int, pixels@[j].1 as int) == #[trigger] octant(
                    radius as int,
                )[j],
            radius >= 0 ==> forall|j: int|
                0 <= j < octant(radius as int).len() ==> {
                    let (px, py) = #[trigger] octant(radius as int)[j];
                    &&& in_ring(radius as int, px, py)
                    &&& 0 <= px <= py <= radius
                },
            forall|j: int|
                0 <= j < i ==> #[trigger] points@[j]@ == outline_points_at(
                    center,
                    octant(radius as int)[j].0,
                    octant(radius as int)[j].1,
                ),
        decreases pixels@.len() - i,
    {
        let (x, y) = pixels[i];
        assert(octant(radius as int)[i as int] == (x as int, y as int));
        let eight = [
            offset_point(center, -x, -y),
            offset_point(center, x, -y),
            offset_point(center, -y, -x),
            offset_point(center, y, -x),
            offset_point(center, -x, y),
            offset_point(center, x, y),
            offset_point(center, -y, x),
            offset_point(center, y, x),
        ];
        assert(eight@ == outline_points_at(center, x as int, y as int));
        points.push(eight);
        i += 1;
    }
    assert forall|i: int| #![trigger points@[i]] 0 <= i < points@.len() implies forall|dx: int, dy: int|
        is_reflection(octant(radius as int)[i].0, octant(radius as int)[i].1, dx, dy)
            ==> #[trigger] points@[i]@.contains(moved(center, dx, dy)) by {
        lemma_outline_is_reflections(center, octant(radius as int)[i].0, octant(radius as int)[i].1);
    }
    points
}

} // verus!
