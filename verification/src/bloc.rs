use vstd::prelude::*;
use crate::color::Color;
use crate::geometry::Rect;

verus! {

/// Hands out the identifiers of blocs: 1 for the first bloc, then one more
/// for each new bloc.
pub struct BlocIds {
    pub last: u32,
}

impl BlocIds {
    /// No bloc made yet.
    pub fn new() -> (r: Self)
        ensures
            r.last == 0,
    {
        BlocIds { last: 0 }
    }
}

/// A coloured rectangle of the block editor, with links to the bloc it
/// hangs from and the bloc hanging from it.
pub struct Bloc {
    pub color: Color,
    pub rect: Rect,
    pub corner_radius: Option<u32>,
    pub id: u32,
    pub parent: Option<u32>,
    pub child: Option<u32>,
}

impl Bloc {
    /// A new free-standing bloc, with the next identifier.
    pub fn new(ids: &mut BlocIds, color: Color, rect: Rect) -> (r: Self)
        requires
            old(ids).last < u32::MAX,
        ensures
            final(ids).last == old(ids).last + 1,
            r.id == final(ids).last,
            r.color == color,
            r.rect@ == rect@,
            r.corner_radius is None,
            r.parent is None,
            r.child is None,
    {
        ids.last = ids.last + 1;
        Bloc { color, rect, corner_radius: None, id: ids.last, parent: None, child: None }
    }
}

/// Blocs are numbered in the order they are made, so no two blocs made
/// from the same counter share an identifier.
pub proof fn lemma_ids_distinct(first_last: u32, second_last: u32, first_id: u32, second_id: u32)
    requires
        first_id == first_last + 1,
        second_last >= first_id,
        second_id == second_last + 1,
    ensures
        first_id < second_id,
{
}

} // verus!
