use vstd::prelude::*;
use crate::geometry::{clamp_position, clamp_position_i64, clamp_size, Point, Rect};
use crate::style::{Align, HAlign, VAlign};

verus! {

/// A texture size converted to a coordinate the way `size as i32` does:
/// sizes above `i32::MAX` wrap around to negative values.
pub open spec fn size_as_coordinate(size: u32) -> int {
    if size <= i32::MAX {
        size as int
    } else {
        size - 0x1_0000_0000
    }
}

/// Half of a coordinate, rounded towards zero.
pub open spec fn half_toward_zero(v: int) -> int {
    if v >= 0 {
        v / 2
    } else {
        -((-v) / 2)
    }
}

/// How far left of the anchor point the text starts, for a text `w` pixels
/// wide (as a clamped coordinate).
pub open spec fn anchor_dx(h: HAlign, w: int) -> int {
    match h {
        HAlign::Left => 0,
        HAlign::Center => half_toward_zero(w),
        HAlign::Right => w,
    }
}

/// How far above the anchor point the text starts, for a text `h` pixels
/// high (as a clamped coordinate).
pub open spec fn anchor_dy(v: VAlign, h: int) -> int {
    match v {
        VAlign::Top => 0,
        VAlign::Center => half_toward_zero(h),
        VAlign::Bottom => h,
    }
}

fn half(v: i32) -> (r: i32)
    ensures
        r == half_toward_zero(v as int),
{
    if v >= 0 {
        v / 2
    } else {
        -((-(v as i64) / 2) as i32)
    }
}

/// Where a text of `width` by `height` pixels is drawn so that its `align`
/// anchor falls on `position`.
pub fn aligned_rect(position: Point, width: u32, height: u32, align: Align) -> (r: Rect)
    ensures
        r@.x == clamp_position(
            position.x - anchor_dx(align.h_part(), clamp_position(size_as_coordinate(width))),
        ),
        r@.y == clamp_position(
            position.y - anchor_dy(align.v_part(), clamp_position(size_as_coordinate(height))),
        ),
        r@.w == clamp_size(width as int),
        r@.h == clamp_size(height as int),
{
    let sw: i64 = if width <= 0x7fff_ffff {
        width as i64
    } else {
        width as i64 - 0x1_0000_0000
    };
    let sh: i64 = if height <= 0x7fff_ffff {
        height as i64
    } else {
        height as i64 - 0x1_0000_0000
    };
    let size = Point::new(clamp_position_i64(sw), clamp_position_i64(sh));
    let target = match align {
        Align::TopLeft => position,
        Align::Top => position.sub(Point::new(half(size.x), 0)),
        Align::TopRight => position.sub(Point::new(size.x, 0)),
        Align::Left => position.sub(Point::new(0, half(size.y))),
        Align::Center => position.sub(Point::new(half(size.x), half(size.y))),
        Align::Right => position.sub(Point::new(size.x, half(size.y))),
        Align::BottomLeft => position.sub(Point::new(0, size.y)),
        Align::Bottom => position.sub(Point::new(half(size.x), size.y)),
        Align::BottomRight => position.sub(size),
    };
    Rect::new(target.x, target.y, width, height)
}

} // verus!

verus! {

/// When nothing needs clamping, the text rectangle's `align` anchor (its
/// left edge, centre or right edge across, and top, middle or bottom down)
/// falls exactly on the requested position.
pub proof fn lemma_anchor_on_position(px: int, py: int, width: u32, height: u32, align: Align)
    requires
        1 <= width <= crate::geometry::MAX_INT_VALUE,
        1 <= height <= crate::geometry::MAX_INT_VALUE,
        crate::geometry::MIN_INT_VALUE <= px - anchor_dx(align.h_part(), width as int),
        px <= crate::geometry::MAX_INT_VALUE,
        crate::geometry::MIN_INT_VALUE <= py - anchor_dy(align.v_part(), height as int),
        py <= crate::geometry::MAX_INT_VALUE,
    ensures
        ({
            let x = clamp_position(
                px - anchor_dx(align.h_part(), clamp_position(size_as_coordinate(width))),
            );
            let y = clamp_position(
                py - anchor_dy(align.v_part(), clamp_position(size_as_coordinate(height))),
            );
            &&& x + anchor_dx(align.h_part(), width as int) == px
            &&& y + anchor_dy(align.v_part(), height as int) == py
        }),
{
}

} // verus!

verus! {

/// The style flags of a TrueType font, as SDL_ttf numbers them.
#[derive(PartialEq, Eq, Debug, Clone, Copy, Structural)]
pub struct FontStyle {
    pub bits: i32,
}

impl FontStyle {
    pub fn normal() -> (r: FontStyle)
        ensures
            r.bits == 0,
    {
        FontStyle { bits: 0 }
    }

    pub fn bold() -> (r: FontStyle)
        ensures
            r.bits == 1,
    {
        FontStyle { bits: 1 }
    }

    pub fn italic() -> (r: FontStyle)
        ensures
            r.bits == 2,
    {
        FontStyle { bits: 2 }
    }
}

/// How a text is drawn: colour, size in points, font file and style.
pub struct TextStyle {
    pub color: crate::color::Color,
    pub font_size: u16,
    pub font_name: String,
    pub font_style: FontStyle,
}

/// The font file every text style uses.
pub open spec fn default_font_path() -> Seq<char> {
    seq!['f', 'o', 'n', 't', 's', '/', 'V', 'e', 'r', 'a', '.', 't', 't', 'f']
}

fn default_font_name() -> (r: String)
    ensures
        r@ == default_font_path(),
{
    let mut name = String::new();
    name.append("fonts/Vera.ttf");
    proof {
        reveal_strlit("fonts/Vera.ttf");
        assert(name@ =~= default_font_path());
    }
    name
}

impl TextStyle {
    /// A black, normal text of `font_size` points. Whatever font is asked
    /// for, the bundled Vera font is used.
    pub fn new(font_size: u16, font_name: Option<&str>) -> (r: Self)
        ensures
            r.font_size == font_size,
            r.font_name@ == default_font_path(),
            r.color == crate::color::Color::opaque_black(),
            r.font_style.bits == 0,
    {
        TextStyle {
            font_size,
            font_name: default_font_name(),
            color: crate::color::Colors::black(),
            font_style: FontStyle::normal(),
        }
    }

}

impl Default for TextStyle {
    /// A black, normal text of 16 points in the bundled Vera font.
    fn default() -> (r: Self)
        ensures
            r.font_size == 16,
            r.font_name@ == default_font_path(),
            r.color == crate::color::Color::opaque_black(),
            r.font_style.bits == 0,
    {
        TextStyle::new(16, None)
    }
}

} // verus!
