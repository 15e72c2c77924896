use vstd::prelude::*;

verus! {

/// Where on a glyph's box an annotation is attached.
#[derive(Clone, Copy, Debug, PartialEq, Eq, Structural)]
pub enum Anchor {
    TopLeft,
    Top,
    TopCenter,
    TopRight,
    BottomLeft,
    Bottom,
    BottomCenter,
    BottomRight,
    Left,
    CenterLeft,
    Center,
    CenterCenter,
    Right,
    CenterRight,
}

/// A horizontal position on a box.
#[derive(Clone, Copy, Debug, PartialEq, Eq, Structural)]
pub enum HSide {
    Left,
    Center,
    Right,
}

/// A vertical position on a box.
#[derive(Clone, Copy, Debug, PartialEq, Eq, Structural)]
pub enum VSide {
    Top,
    Center,
    Bottom,
}

/// The horizontal side that an anchor names; a name without one means the
/// horizontal centre.
pub open spec fn hside_of(a: Anchor) -> HSide {
    match a {
        Anchor::TopLeft | Anchor::BottomLeft | Anchor::Left | Anchor::CenterLeft => HSide::Left,
        Anchor::TopRight | Anchor::BottomRight | Anchor::Right | Anchor::CenterRight => HSide::Right,
        _ => HSide::Center,
    }
}

/// The vertical side that an anchor names; a name without one means the
/// vertical centre.
pub open spec fn vside_of(a: Anchor) -> VSide {
    match a {
        Anchor::TopLeft | Anchor::Top | Anchor::TopCenter | Anchor::TopRight => VSide::Top,
        Anchor::BottomLeft | Anchor::Bottom | Anchor::BottomCenter | Anchor::BottomRight => VSide::Bottom,
        _ => VSide::Center,
    }
}

/// Splits an anchor into its horizontal and vertical position.
pub fn anchor_sides(a: Anchor) -> (r: (HSide, VSide))
    ensures
        r == (hside_of(a), vside_of(a)),
{
    match a {
        Anchor::TopLeft => (HSide::Left, VSide::Top),
        Anchor::Top | Anchor::TopCenter => (HSide::Center, VSide::Top),
        Anchor::TopRight => (HSide::Right, VSide::Top),
        Anchor::BottomLeft => (HSide::Left, VSide::Bottom),
        Anchor::Bottom | Anchor::BottomCenter => (HSide::Center, VSide::Bottom),
        Anchor::BottomRight => (HSide::Right, VSide::Bottom),
        Anchor::Left | Anchor::CenterLeft => (HSide::Left, VSide::Center),
        Anchor::Center | Anchor::CenterCenter => (HSide::Center, VSide::Center),
        Anchor::Right | Anchor::CenterRight => (HSide::Right, VSide::Center),
    }
}

/// Picks from the three horizontal and three vertical coordinates of a box
/// the point that an anchor names.
pub fn anchor_point<T: Copy>(
    a: Anchor,
    left: T,
    hcenter: T,
    right: T,
    top: T,
    vcenter: T,
    bottom: T,
) -> (r: (T, T))
    ensures
        r.0 == (match hside_of(a) {
            HSide::Left => left,
            HSide::Center => hcenter,
            HSide::Right => right,
        }),
        r.1 == (match vside_of(a) {
            VSide::Top => top,
            VSide::Center => vcenter,
            VSide::Bottom => bottom,
        }),
{
    let (h, v) = anchor_sides(a);
    let x = match h {
        HSide::Left => left,
        HSide::Center => hcenter,
        HSide::Right => right,
    };
    let y = match v {
        VSide::Top => top,
        VSide::Center => vcenter,
        VSide::Bottom => bottom,
    };
    (x, y)
}

} // verus!
