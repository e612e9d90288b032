//! The integer decisions behind the camera's grid: where the axes are drawn,
//! which grid lines are drawn, where graduation ticks go and how their
//! labels are anchored.

use vstd::prelude::*;
use crate::style::{Align, HAlign, VAlign};

verus! {

/// How the origin of the world sits across the screen: off to the left,
/// on screen, or off to the right.
pub open spec fn h_align_of(origin_negative: bool, origin: u32, resolution: u32) -> HAlign {
    if origin_negative {
        HAlign::Left
    } else if origin < resolution {
        HAlign::Center
    } else {
        HAlign::Right
    }
}

/// How the origin of the world sits down the screen: above it, on screen,
/// or below it.
pub open spec fn v_align_of(origin_negative: bool, origin: u32, resolution: u32) -> VAlign {
    if origin_negative {
        VAlign::Top
    } else if origin < resolution {
        VAlign::Center
    } else {
        VAlign::Bottom
    }
}

/// An axis follows the origin while the origin is on screen, and is pinned
/// to the border the origin has gone past otherwise: the alignment is
/// centred exactly when the origin is not negative and below the
/// resolution, and then the axis is drawn at the origin's own column or
/// row; it is at the first border exactly when the origin is negative and
/// at the last border exactly when the origin is at or past the
/// resolution.
pub proof fn lemma_axes_follow_origin(origin_negative: bool, origin: u32, resolution: u32)
    ensures
        h_align_of(origin_negative, origin, resolution) == HAlign::Center <==> (!origin_negative
            && origin < resolution),
        h_align_of(origin_negative, origin, resolution) == HAlign::Left <==> origin_negative,
        h_align_of(origin_negative, origin, resolution) == HAlign::Right <==> (!origin_negative
            && origin >= resolution),
        v_align_of(origin_negative, origin, resolution) == VAlign::Center <==> (!origin_negative
            && origin < resolution),
        v_align_of(origin_negative, origin, resolution) == VAlign::Top <==> origin_negative,
        v_align_of(origin_negative, origin, resolution) == VAlign::Bottom <==> (!origin_negative
            && origin >= resolution),
{
}

/// Where the vertical axis falls across a screen `resolution` pixels wide.
/// `origin_negative` tells whether the origin is left of the screen and
/// `origin` is its column, saturated into `u32`.
pub fn grid_h_align(origin_negative: bool, origin: u32, resolution: u32) -> (r: HAlign)
    ensures
        r == h_align_of(origin_negative, origin, resolution),
        r == HAlign::Center <==> (!origin_negative && origin < resolution),
        r == HAlign::Left <==> origin_negative,
        r == HAlign::Right <==> (!origin_negative && origin >= resolution),
{
    if origin_negative {
        HAlign::Left
    } else if origin < resolution {
        HAlign::Center
    } else {
        HAlign::Right
    }
}

/// Where the horizontal axis falls down a screen `resolution` pixels high.
pub fn grid_v_align(origin_negative: bool, origin: u32, resolution: u32) -> (r: VAlign)
    ensures
        r == v_align_of(origin_negative, origin, resolution),
        r == VAlign::Center <==> (!origin_negative && origin < resolution),
        r == VAlign::Top <==> origin_negative,
        r == VAlign::Bottom <==> (!origin_negative && origin >= resolution),
{
    if origin_negative {
        VAlign::Top
    } else if origin < resolution {
        VAlign::Center
    } else {
        VAlign::Bottom
    }
}

/// The anchor of the graduation labels: labels hang right of a vertical
/// axis that is on screen and below a horizontal axis that is on screen;
/// an axis pinned to a border keeps its side.
pub fn label_align(h_align: HAlign, v_align: VAlign) -> (r: Align)
    ensures
        r == Align::of(
            if h_align == HAlign::Center {
                HAlign::Left
            } else {
                h_align
            },
            if v_align == VAlign::Center {
                VAlign::Top
            } else {
                v_align
            },
        ),
{
    Align::from_align(
        if h_align == HAlign::Center {
            HAlign::Left
        } else {
            h_align
        },
        if v_align == VAlign::Center {
            VAlign::Top
        } else {
            v_align
        },
    )
}

/// The column of the vertical axis: the first column when the origin is
/// off to the left, the origin's column when it is on screen, the last
/// column otherwise.
pub fn axis_column(h_align: HAlign, origin: u32, resolution: u32) -> (r: u32)
    requires
        resolution >= 1,
    ensures
        r == match h_align {
            HAlign::Left => 0,
            HAlign::Center => origin as int,
            HAlign::Right => resolution - 1,
        },
{
    match h_align {
        HAlign::Left => 0,
        HAlign::Center => origin,
        HAlign::Right => resolution - 1,
    }
}

/// The row of the horizontal axis: the first row when the origin is above
/// the screen, the origin's row when it is on screen, the last row
/// otherwise.
pub fn axis_row(v_align: VAlign, origin: u32, resolution: u32) -> (r: u32)
    requires
        resolution >= 1,
    ensures
        r == match v_align {
            VAlign::Top => 0,
            VAlign::Center => origin as int,
            VAlign::Bottom => resolution - 1,
        },
{
    match v_align {
        VAlign::Top => 0,
        VAlign::Center => origin,
        VAlign::Bottom => resolution - 1,
    }
}

/// Whether the grid line with number `index` is drawn at `depth`: every
/// fifth line is left to the coarser level above, except at the finest
/// level, where all are drawn.
pub fn grid_line_drawn(index: i32, depth: i32, max_depth: i32) -> (r: bool)
    ensures
        r == (index % 5 != 0 || depth == max_depth),
{
    let multiple_of_five = if index >= 0 {
        index % 5 == 0
    } else {
        (-(index as i64)) % 5 == 0
    };
    !multiple_of_five || depth == max_depth
}

/// The stretch a graduation tick covers across an axis: `8 * depth` pixels
/// either side of the axis, which sits at the first pixel, at the origin
/// or at the last pixel (the resolution is truncated to 16 bits, as the
/// drawing primitives take it). The arithmetic must stay within `i16`.
pub fn tick_span(align: HAlign, origin: i16, resolution: u32, depth: i16) -> (r: (i16, i16))
    requires
        i16::MIN <= 8 * depth <= i16::MAX,
        align == HAlign::Left ==> i16::MIN <= -8 * depth <= i16::MAX,
        align == HAlign::Center ==> i16::MIN <= origin - 8 * depth <= i16::MAX && i16::MIN <= origin + 8
            * depth <= i16::MAX,
        align == HAlign::Right ==> i16::MIN <= (resolution as i16) - 1 - 8 * depth <= i16::MAX
            && i16::MIN <= (resolution as i16) - 1 + 8 * depth <= i16::MAX && i16::MIN <= (
        resolution as i16) - 1,
    ensures
        ({
            let n = 8 * depth;
            (r.0 as int, r.1 as int) == match align {
                HAlign::Left => (-n, n),
                HAlign::Center => (origin - n, origin + n),
                HAlign::Right => ((resolution as i16) - 1 - n, (resolution as i16) - 1 + n),
            }
        }),
{
    let n = 8 * depth;
    match align {
        HAlign::Left => (-n, n),
        HAlign::Center => (origin - n, origin + n),
        HAlign::Right => {
            let res = #[verifier::truncate]
            (resolution as i16);
            (res - 1 - n, res - 1 + n)
        },
    }
}

} // verus!
