use vstd::prelude::*;

verus! {

/// Horizontal alignment.
#[derive(Clone, Copy, PartialEq, Eq, Structural, Debug)]
pub enum HAlign {
    Left,
    Center,
    Right,
}

/// Vertical alignment.
#[derive(Clone, Copy, PartialEq, Eq, Structural, Debug)]
pub enum VAlign {
    Top,
    Center,
    Bottom,
}

/// One of the nine anchor positions of a box.
#[derive(Clone, Copy, PartialEq, Eq, Structural, Debug)]
pub enum Align {
    TopLeft,
    Top,
    TopRight,
    Left,
    Center,
    Right,
    BottomLeft,
    Bottom,
    BottomRight,
}

impl HAlign {
    /// The mirror image of a horizontal alignment.
    pub open spec fn mirrored(self) -> HAlign {
        match self {
            HAlign::Left => HAlign::Right,
            HAlign::Center => HAlign::Center,
            HAlign::Right => HAlign::Left,
        }
    }
}

impl VAlign {
    /// The mirror image of a vertical alignment.
    pub open spec fn mirrored(self) -> VAlign {
        match self {
            VAlign::Top => VAlign::Bottom,
            VAlign::Center => VAlign::Center,
            VAlign::Bottom => VAlign::Top,
        }
    }
}

impl Align {
    /// The anchor with the given horizontal and vertical components.
    pub open spec fn of(h: HAlign, v: VAlign) -> Align {
        match (h, v) {
            (HAlign::Left, VAlign::Top) => Align::TopLeft,
            (HAlign::Left, VAlign::Center) => Align::Left,
            (HAlign::Left, VAlign::Bottom) => Align::BottomLeft,
            (HAlign::Center, VAlign::Top) => Align::Top,
            (HAlign::Center, VAlign::Center) => Align::Center,
            (HAlign::Center, VAlign::Bottom) => Align::Bottom,
            (HAlign::Right, VAlign::Top) => Align::TopRight,
            (HAlign::Right, VAlign::Center) => Align::Right,
            (HAlign::Right, VAlign::Bottom) => Align::BottomRight,
        }
    }

    /// The horizontal component of an anchor.
    pub open spec fn h_part(self) -> HAlign {
        match self {
            Align::TopLeft | Align::Left | Align::BottomLeft => HAlign::Left,
            Align::Top | Align::Center | Align::Bottom => HAlign::Center,
            Align::TopRight | Align::Right | Align::BottomRight => HAlign::Right,
        }
    }

    /// The vertical component of an anchor.
    pub open spec fn v_part(self) -> VAlign {
        match self {
            Align::TopLeft | Align::Top | Align::TopRight => VAlign::Top,
            Align::Left | Align::Center | Align::Right => VAlign::Center,
            Align::BottomLeft | Align::Bottom | Align::BottomRight => VAlign::Bottom,
        }
    }

    /// The anchor on the other side of the box, through its centre: both
    /// components mirrored.
    pub open spec fn mirrored(self) -> Align {
        Align::of(self.h_part().mirrored(), self.v_part().mirrored())
    }

    /// Combines a horizontal and a vertical alignment into an anchor.
    pub fn from_align(h_align: HAlign, v_align: VAlign) -> (r: Self)
        ensures
            r == Align::of(h_align, v_align),
    {
        match (h_align, v_align) {
            (HAlign::Left, VAlign::Top) => Self::TopLeft,
            (HAlign::Left, VAlign::Center) => Self::Left,
            (HAlign::Left, VAlign::Bottom) => Self::BottomLeft,
            (HAlign::Center, VAlign::Top) => Self::Top,
            (HAlign::Center, VAlign::Center) => Self::Center,
            (HAlign::Center, VAlign::Bottom) => Self::Bottom,
            (HAlign::Right, VAlign::Top) => Self::TopRight,
            (HAlign::Right, VAlign::Center) => Self::Right,
            (HAlign::Right, VAlign::Bottom) => Self::BottomRight,
        }
    }

    /// The anchor on the other side of the box, through its centre.
    pub fn opposite(&self) -> (r: Self)
        ensures
            r == self.mirrored(),
    {
        match self {
            Self::TopLeft => Self::BottomRight,
            Self::Top => Self::Bottom,
            Self::TopRight => Self::BottomLeft,
            Self::Left => Self::Right,
            Self::Center => Self::Center,
            Self::Right => Self::Left,
            Self::BottomLeft => Self::TopRight,
            Self::Bottom => Self::Top,
            Self::BottomRight => Self::TopLeft,
        }
    }
}

/// Combining two components and splitting the anchor again gives the
/// components back, and every anchor is the combination of its components:
/// anchors and pairs of alignments correspond one to one.
pub proof fn lemma_anchor_components(h: HAlign, v: VAlign, a: Align)
    ensures
        Align::of(h, v).h_part() == h,
        Align::of(h, v).v_part() == v,
        Align::of(a.h_part(), a.v_part()) == a,
{
}

/// Taking the opposite anchor twice gives back the anchor.
pub proof fn lemma_opposite_involution(a: Align)
    ensures
        a.mirrored().mirrored() == a,
{
}

/// Only the centre is its own opposite.
pub proof fn lemma_opposite_fixed_point(a: Align)
    ensures
        (a.mirrored() == a) <==> (a == Align::Center),
{
}

} // verus!
