use pg_sdl::canvas::rounded_rect_bounds;
use pg_sdl::circle::{circle_octant, draw_circle, fill_circle};
use pg_sdl::color::{Color, Colors};
use pg_sdl::geometry::{Point, Rect};
use pg_sdl::style::{Align, HAlign, VAlign};
use pg_sdl::text::aligned_rect;

const ALL: [Align; 9] = [
    Align::TopLeft,
    Align::Top,
    Align::TopRight,
    Align::Left,
    Align::Center,
    Align::Right,
    Align::BottomLeft,
    Align::Bottom,
    Align::BottomRight,
];

#[test]
fn from_align_all_pairs() {
    assert_eq!(Align::from_align(HAlign::Left, VAlign::Top), Align::TopLeft);
    assert_eq!(Align::from_align(HAlign::Center, VAlign::Top), Align::Top);
    assert_eq!(Align::from_align(HAlign::Right, VAlign::Top), Align::TopRight);
    assert_eq!(Align::from_align(HAlign::Left, VAlign::Center), Align::Left);
    assert_eq!(Align::from_align(HAlign::Center, VAlign::Center), Align::Center);
    assert_eq!(Align::from_align(HAlign::Right, VAlign::Center), Align::Right);
    assert_eq!(Align::from_align(HAlign::Left, VAlign::Bottom), Align::BottomLeft);
    assert_eq!(Align::from_align(HAlign::Center, VAlign::Bottom), Align::Bottom);
    assert_eq!(Align::from_align(HAlign::Right, VAlign::Bottom), Align::BottomRight);
}

#[test]
fn opposite_is_an_involution() {
    for a in ALL {
        assert_eq!(a.opposite().opposite(), a);
        assert_eq!(a.opposite() == a, a == Align::Center);
    }
    assert_eq!(Align::TopLeft.opposite(), Align::BottomRight);
    assert_eq!(Align::Top.opposite(), Align::Bottom);
    assert_eq!(Align::Right.opposite(), Align::Left);
}

#[test]
fn rect_new_clamps() {
    let r = Rect::new(-2_000_000_000, 5, 0, 4_000_000_000);
    assert_eq!(r.x(), -1073741824);
    assert_eq!(r.y(), 5);
    assert_eq!(r.width(), 1);
    assert_eq!(r.height(), 1073741823);
}

#[test]
fn rect_edges_center_contains() {
    let r = Rect::new(1, 0, 2, 3);
    assert_eq!((r.left(), r.right(), r.top(), r.bottom()), (1, 3, 0, 3));
    assert_eq!(r.center(), Point::new(2, 1));
    assert!(r.contains_point(r.center()));
    assert!(!r.contains_point(Point::new(0, 1)));
    assert!(r.contains_point(Point::new(2, 2)));
    assert!(!r.contains_point(Point::new(3, 2)));
    assert!(!r.contains_point(Point::new(2, 3)));
}

#[test]
fn huge_rect_center_is_clamped_but_inside() {
    let r = Rect::new(1073741823, 0, 1073741823, 1);
    let c = r.center();
    assert_eq!(c.x, 1073741823);
    assert!(r.contains_point(c));
}

#[test]
fn point_arithmetic() {
    let p = Point::new(10, -3);
    assert_eq!(p.add(Point::new(5, 5)), Point::new(15, 2));
    assert_eq!(p.sub(Point::new(5, 5)), Point::new(5, -8));
    assert_eq!(Point::new(1073741823, 0).add(Point::new(10, 0)).x, 1073741823);
    assert_eq!(Point { x: i32::MAX, y: 0 }.offset(i32::MAX, 0).x, 1073741823);
}

#[test]
fn colors() {
    assert_eq!(Color::RGB(1, 2, 3), Color { r: 1, g: 2, b: 3, a: 255 });
    assert_eq!(Color::RGBA(1, 2, 3, 4).a, 4);
    assert_eq!(Colors::sky_blue(), Color::RGB(135, 206, 235));
    assert_eq!(Colors::black(), Color::RGB(0, 0, 0));
    assert_eq!(Colors::beige(), Color::RGB(255, 240, 200));
}

#[test]
fn rounded_rect_corners() {
    let r = Rect::new(10, 20, 30, 40);
    assert_eq!(rounded_rect_bounds(&r, 5), (10, 20, 39, 59, 5));
    let far = Rect::new(40000, 0, 1, 1);
    assert_eq!(rounded_rect_bounds(&far, 40000), (40000u32 as i16, 0, 40000u32 as i16, 0, 40000u16 as i16));
}

#[test]
fn text_alignment() {
    let p = Point::new(100, 50);
    let r = aligned_rect(p, 40, 10, Align::Center);
    assert_eq!((r.x(), r.y(), r.width(), r.height()), (80, 45, 40, 10));
    let r = aligned_rect(p, 40, 10, Align::TopLeft);
    assert_eq!((r.x(), r.y()), (100, 50));
    let r = aligned_rect(p, 40, 10, Align::BottomRight);
    assert_eq!((r.x(), r.y()), (60, 40));
    let r = aligned_rect(p, 41, 11, Align::Top);
    assert_eq!((r.x(), r.y()), (80, 50));
    let r = aligned_rect(p, 41, 11, Align::Left);
    assert_eq!((r.x(), r.y()), (100, 45));
    let r = aligned_rect(p, 0, 0, Align::Right);
    assert_eq!((r.x(), r.y(), r.width(), r.height()), (100, 50, 1, 1));
}

#[test]
fn text_alignment_of_huge_sizes() {
    let r = aligned_rect(Point::new(0, 0), u32::MAX, 3_000_000_000, Align::BottomRight);
    assert_eq!(r.x(), 1);
    assert_eq!(r.y(), 1073741823);
}

fn in_ring(r: i64, x: i64, y: i64) -> bool {
    r * r - r <= x * x + y * y && x * x + y * y <= r * r + r
}

#[test]
fn octant_of_radius_three() {
    assert_eq!(circle_octant(3), vec![(0, 3), (1, 3), (2, 2)]);
    assert_eq!(circle_octant(0), vec![(0, 0)]);
    assert_eq!(circle_octant(1), vec![(0, 1), (1, 1)]);
    assert_eq!(circle_octant(-4), vec![]);
}

#[test]
fn octant_pixels_lie_in_ring() {
    for r in [1, 2, 5, 17, 100, 1000] {
        let oct = circle_octant(r);
        assert_eq!(oct[0], (0, r));
        for (i, (x, y)) in oct.iter().enumerate() {
            assert!(in_ring(r as i64, *x as i64, *y as i64));
            assert!(0 <= *x && x <= y && *y <= r);
            if i > 0 {
                let (px, py) = oct[i - 1];
                assert!((x - px, py - y) == (1, 0) || (x - px, py - y) == (0, 1) || (x - px, py - y) == (1, 1));
            }
        }
    }
}

#[test]
fn circle_lines_and_points() {
    let c = Point::new(100, 200);
    let lines = fill_circle(c, 3);
    assert_eq!(lines.len(), 3);
    assert_eq!(lines[0][0], (Point::new(100, 197), Point::new(100, 197)));
    assert_eq!(lines[0][1], (Point::new(97, 200), Point::new(103, 200)));
    assert_eq!(lines[2][3], (Point::new(98, 202), Point::new(102, 202)));
    let points = draw_circle(c, 3);
    assert_eq!(points.len(), 3);
    assert_eq!(points[1][0], Point::new(99, 197));
    assert_eq!(points[1][7], Point::new(103, 201));
}
