use vstd::prelude::*;

use crate::val::Val;

verus! {

/// Four lengths, one for each edge of a box: a margin, a padding, a border or
/// the offsets of an absolutely positioned node.
#[derive(Clone, Copy, Debug, PartialEq, Eq, Structural)]
pub struct UiRect {
    pub left: Val,
    pub right: Val,
    pub top: Val,
    pub bottom: Val,
}

impl UiRect {
    /// A box with the four given edges.
    pub fn new(left: Val, right: Val, top: Val, bottom: Val) -> (r: UiRect)
        ensures
            r == (UiRect { left, right, top, bottom }),
    {
        UiRect { left, right, top, bottom }
    }

    /// A box whose four edges are all `value`.
    pub fn all(value: Val) -> (r: UiRect)
        ensures
            r == (UiRect { left: value, right: value, top: value, bottom: value }),
    {
        UiRect { left: value, right: value, top: value, bottom: value }
    }

    /// A box whose left and right edges are `value`, the others `Undefined`.
    pub fn horizontal(value: Val) -> (r: UiRect)
        ensures
            r == (UiRect { left: value, right: value, top: Val::Undefined, bottom: Val::Undefined }),
    {
        UiRect { left: value, right: value, top: Val::Undefined, bottom: Val::Undefined }
    }

    /// A box whose top and bottom edges are `value`, the others `Undefined`.
    pub fn vertical(value: Val) -> (r: UiRect)
        ensures
            r == (UiRect { left: Val::Undefined, right: Val::Undefined, top: value, bottom: value }),
    {
        UiRect { left: Val::Undefined, right: Val::Undefined, top: value, bottom: value }
    }
}

impl Default for UiRect {
    /// All four edges `Undefined`.
    fn default() -> (r: UiRect)
        ensures
            r == UiRect::all_undefined(),
    {
        UiRect::all(Val::Undefined)
    }
}

impl UiRect {
    /// The box with all four edges `Undefined`.
    pub open spec fn all_undefined() -> UiRect {
        UiRect {
            left: Val::Undefined,
            right: Val::Undefined,
            top: Val::Undefined,
            bottom: Val::Undefined,
        }
    }
}

/// A width and a height.
#[derive(Clone, Copy, Debug, PartialEq, Eq, Structural)]
pub struct Size {
    pub width: Val,
    pub height: Val,
}

impl Size {
    /// The pair `(width, height)`.
    pub fn new(width: Val, height: Val) -> (r: Size)
        ensures
            r == (Size { width, height }),
    {
        Size { width, height }
    }

    /// The pair `(Auto, Auto)`: both dimensions are left to the layout solver.
    pub fn auto() -> (r: Size)
        ensures
            r == (Size { width: Val::Auto, height: Val::Auto }),
    {
        Size { width: Val::Auto, height: Val::Auto }
    }

    /// The pair `(Undefined, Undefined)`: no constraint at all (as a gap, no
    /// spacing).
    pub fn undefined() -> (r: Size)
        ensures
            r == (Size { width: Val::Undefined, height: Val::Undefined }),
    {
        Size { width: Val::Undefined, height: Val::Undefined }
    }
}

impl Default for Size {
    /// The pair `(Auto, Auto)`.
    fn default() -> (r: Size)
        ensures
            r == (Size { width: Val::Auto, height: Val::Auto }),
    {
        Size::auto()
    }
}

} // verus!
