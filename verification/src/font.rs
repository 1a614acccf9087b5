//! The font that the view is drawn in.

use vstd::prelude::*;

verus! {

/// The font of a terminal view.
#[derive(Clone, Copy, Debug, PartialEq, Eq, Structural)]
pub struct TermFont {
    /// The font size in fixed-point pixels. The scroll accumulator takes it
    /// as the height of one line.
    pub size: i32,
}

/// The default font size: 14 pixels.
pub const DEFAULT_FONT_SIZE: i32 = 917504;

impl TermFont {
    /// A font of the given size.
    pub fn new(size: i32) -> (font: TermFont)
        ensures
            font.size == size,
    {
        TermFont { size }
    }
}

impl Default for TermFont {
    fn default() -> (font: TermFont)
        ensures
            font.size == DEFAULT_FONT_SIZE,
    {
        TermFont { size: DEFAULT_FONT_SIZE }
    }
}

} // verus!
