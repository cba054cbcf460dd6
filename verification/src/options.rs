//! What the host chooses once, when it builds a menu: the size of the
//! surface and how the menu is to look on it.

use vstd::prelude::*;

verus! {

/// The size of the drawing surface in pixels.
#[derive(Clone, Copy, Debug, PartialEq, Eq, Structural)]
pub struct Size {
    pub width: u32,
    pub height: u32,
}

impl Size {
    pub fn new(width: u32, height: u32) -> (size: Size)
        ensures
            size == (Size { width, height }),
    {
        Size { width, height }
    }
}

/// The look of a menu. `C` is the surface's colour type and `F` its font
/// type; the menu hands both through to the surface and reads neither.
#[derive(Clone, Debug, PartialEq)]
pub struct MenuOptions<C, F> {
    /// The colour that the surface is cleared to.
    pub background: C,
    /// The colour of title, labels, glyphs and the underline.
    pub text: C,
    /// The colour of the frame around the title.
    pub highlight: C,
    pub font: F,
    /// The margin in pixels between the surface's edge and the menu.
    pub border: u32,
    /// The distance in pixels from one row to the next.
    pub spacing: u32,
}

} // verus!
