use vstd::prelude::*;
use crate::geometry::Rect;

verus! {

/// The corners and radius that the SDL_gfx rounded-rectangle primitives
/// take for `rect`: its left, top, last column and last row, each
/// truncated to 16 bits, and the corner radius truncated to 16 bits.
pub fn rounded_rect_bounds(rect: &Rect, radius: u16) -> (r: (i16, i16, i16, i16, i16))
    ensures
        r == (
            rect@.x as i16,
            rect@.y as i16,
            (rect@.right() - 1) as i16,
            (rect@.bottom() - 1) as i16,
            radius as i16,
        ),
{
    rect.check_wf();
    let (x1, x2) = (rect.left(), rect.right() - 1);
    let (y1, y2) = (rect.top(), rect.bottom() - 1);
    (
        #[verifier::truncate]
        (x1 as i16),
        #[verifier::truncate]
        (y1 as i16),
        #[verifier::truncate]
        (x2 as i16),
        #[verifier::truncate]
        (y2 as i16),
        #[verifier::truncate]
        (radius as i16),
    )
}

} // verus!
