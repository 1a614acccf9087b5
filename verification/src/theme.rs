//! Logical colours and the table that resolves them.

use vstd::prelude::*;
use crate::types::Rgba;

verus! {

/// The logical colour of a cell, as the terminal state records it.
#[derive(Clone, Copy, Debug, PartialEq, Eq, Structural)]
pub enum ColorId {
    /// A named palette slot, by its number.
    Named(u16),
    /// A direct colour.
    Spec(u8, u8, u8),
    /// One of the 256 indexed colours.
    Indexed(u8),
}

/// A colour theme: a palette indexed by slot number, and the colour of every
/// slot that the palette does not reach.
pub struct TermTheme {
    pub palette: Vec<Rgba>,
    pub fallback: Rgba,
}

/// The colour that a palette gives to a slot.
pub open spec fn spec_slot_color(palette: Seq<Rgba>, fallback: Rgba, slot: int) -> Rgba {
    if 0 <= slot < palette.len() {
        palette[slot]
    } else {
        fallback
    }
}

/// The concrete colour of a logical colour: a direct colour is itself, fully
/// opaque; a named or indexed colour is its palette slot.
pub open spec fn spec_resolve(palette: Seq<Rgba>, fallback: Rgba, id: ColorId) -> Rgba {
    match id {
        ColorId::Named(slot) => spec_slot_color(palette, fallback, slot as int),
        ColorId::Spec(r, g, b) => Rgba { r, g, b, a: 255 },
        ColorId::Indexed(index) => spec_slot_color(palette, fallback, index as int),
    }
}

impl TermTheme {
    /// The colour that this theme resolves `id` to.
    pub open spec fn spec_get_color(&self, id: ColorId) -> Rgba {
        spec_resolve(self.palette@, self.fallback, id)
    }

    fn slot_color(&self, slot: usize) -> (color: Rgba)
        ensures
            color == spec_slot_color(self.palette@, self.fallback, slot as int),
    {
        if slot < self.palette.len() {
            self.palette[slot]
        } else {
            self.fallback
        }
    }

    /// Resolves a logical colour to a concrete one.
    pub fn get_color(&self, id: ColorId) -> (color: Rgba)
        ensures
            color == self.spec_get_color(id),
    {
        match id {
            ColorId::Named(slot) => self.slot_color(slot as usize),
            ColorId::Spec(r, g, b) => Rgba { r, g, b, a: 255 },
            ColorId::Indexed(index) => self.slot_color(index as usize),
        }
    }
}

/// The number of slots of a full palette: 256 indexed colours, of which the
/// first 16 are the named ones, and 13 further named slots.
pub const PALETTE_SIZE: usize = 269;

/// The slot of the default foreground colour.
pub const SLOT_FOREGROUND: u16 = 256;

/// The slot of the default background colour.
pub const SLOT_BACKGROUND: u16 = 257;

/// A fully opaque colour.
pub open spec fn spec_opaque(r: int, g: int, b: int) -> Rgba {
    Rgba { r: r as u8, g: g as u8, b: b as u8, a: 255 }
}

/// One of the six levels of a channel of the colour cube.
pub open spec fn spec_cube_level(step: int) -> int {
    if step == 0 {
        0
    } else {
        55 + 40 * step
    }
}

/// The default colour of the sixteen named slots.
pub open spec fn spec_default_ansi(slot: int) -> Rgba {
    if slot == 0 {
        spec_opaque(0, 0, 0)
    } else if slot == 1 {
        spec_opaque(205, 0, 0)
    } else if slot == 2 {
        spec_opaque(0, 205, 0)
    } else if slot == 3 {
        spec_opaque(205, 205, 0)
    } else if slot == 4 {
        spec_opaque(0, 0, 238)
    } else if slot == 5 {
        spec_opaque(205, 0, 205)
    } else if slot == 6 {
        spec_opaque(0, 205, 205)
    } else if slot == 7 {
        spec_opaque(229, 229, 229)
    } else if slot == 8 {
        spec_opaque(127, 127, 127)
    } else if slot == 9 {
        spec_opaque(255, 0, 0)
    } else if slot == 10 {
        spec_opaque(0, 255, 0)
    } else if slot == 11 {
        spec_opaque(255, 255, 0)
    } else if slot == 12 {
        spec_opaque(92, 92, 255)
    } else if slot == 13 {
        spec_opaque(255, 0, 255)
    } else if slot == 14 {
        spec_opaque(0, 255, 255)
    } else {
        spec_opaque(255, 255, 255)
    }
}

/// A colour at two thirds of its brightness.
pub open spec fn spec_dim(color: Rgba) -> Rgba {
    spec_opaque(color.r * 2 / 3, color.g * 2 / 3, color.b * 2 / 3)
}

/// The default colour of a palette slot: the sixteen named colours, the
/// colour cube of six levels a channel, the ramp of 24 greys, then
/// foreground, background, cursor, the eight dim colours, bright foreground
/// and dim foreground.
pub open spec fn spec_default_slot(slot: int) -> Rgba {
    if slot < 16 {
        spec_default_ansi(slot)
    } else if slot < 232 {
        spec_opaque(
            spec_cube_level((slot - 16) / 36),
            spec_cube_level(((slot - 16) / 6) % 6),
            spec_cube_level((slot - 16) % 6),
        )
    } else if slot < 256 {
        spec_opaque(8 + 10 * (slot - 232), 8 + 10 * (slot - 232), 8 + 10 * (slot - 232))
    } else if slot == 257 {
        spec_default_ansi(0)
    } else if 259 <= slot < 267 {
        spec_dim(spec_default_ansi(slot - 259))
    } else if slot == 267 {
        spec_default_ansi(15)
    } else if slot == 268 {
        spec_dim(spec_default_ansi(7))
    } else {
        spec_default_ansi(7)
    }
}

fn opaque(r: u8, g: u8, b: u8) -> (color: Rgba)
    ensures
        color == spec_opaque(r as int, g as int, b as int),
{
    Rgba { r, g, b, a: 255 }
}

fn cube_level(step: u16) -> (level: u8)
    requires
        step < 6,
    ensures
        level == spec_cube_level(step as int),
{
    if step == 0 {
        0
    } else {
        (55 + 40 * step) as u8
    }
}

fn default_ansi(slot: u16) -> (color: Rgba)
    ensures
        color == spec_default_ansi(slot as int),
{
    if slot == 0 {
        opaque(0, 0, 0)
    } else if slot == 1 {
        opaque(205, 0, 0)
    } else if slot == 2 {
        opaque(0, 205, 0)
    } else if slot == 3 {
        opaque(205, 205, 0)
    } else if slot == 4 {
        opaque(0, 0, 238)
    } else if slot == 5 {
        opaque(205, 0, 205)
    } else if slot == 6 {
        opaque(0, 205, 205)
    } else if slot == 7 {
        opaque(229, 229, 229)
    } else if slot == 8 {
        opaque(127, 127, 127)
    } else if slot == 9 {
        opaque(255, 0, 0)
    } else if slot == 10 {
        opaque(0, 255, 0)
    } else if slot == 11 {
        opaque(255, 255, 0)
    } else if slot == 12 {
        opaque(92, 92, 255)
    } else if slot == 13 {
        opaque(255, 0, 255)
    } else if slot == 14 {
        opaque(0, 255, 255)
    } else {
        opaque(255, 255, 255)
    }
}

fn dim(color: Rgba) -> (dimmed: Rgba)
    ensures
        dimmed == spec_dim(color),
{
    opaque(
        (color.r as u16 * 2 / 3) as u8,
        (color.g as u16 * 2 / 3) as u8,
        (color.b as u16 * 2 / 3) as u8,
    )
}

/// The default colour of a palette slot.
pub fn default_slot(slot: u16) -> (color: Rgba)
    ensures
        color == spec_default_slot(slot as int),
{
    if slot < 16 {
        default_ansi(slot)
    } else if slot < 232 {
        let n = slot - 16;
        opaque(cube_level(n / 36), cube_level((n / 6) % 6), cube_level(n % 6))
    } else if slot < 256 {
        let grey = (8 + 10 * (slot - 232)) as u8;
        opaque(grey, grey, grey)
    } else if slot == 257 {
        default_ansi(0)
    } else if 259 <= slot && slot < 267 {
        dim(default_ansi(slot - 259))
    } else if slot == 267 {
        default_ansi(15)
    } else if slot == 268 {
        dim(default_ansi(7))
    } else {
        default_ansi(7)
    }
}

/// Whether a theme is the default one: a full palette of the default
/// colours, and the default foreground for every slot beyond it.
pub open spec fn spec_is_default_theme(theme: TermTheme) -> bool {
    &&& theme.palette@.len() == PALETTE_SIZE
    &&& forall|slot: int|
        0 <= slot < PALETTE_SIZE ==> #[trigger] theme.palette@[slot] == spec_default_slot(slot)
    &&& theme.fallback == spec_default_slot(SLOT_FOREGROUND as int)
}

impl Default for TermTheme {
    /// The default theme.
    fn default() -> (theme: TermTheme)
        ensures
            spec_is_default_theme(theme),
    {
        let mut palette: Vec<Rgba> = Vec::new();
        let mut slot: u16 = 0;
        while slot < 269
            invariant
                slot <= 269,
                palette@.len() == slot,
                forall|k: int| 0 <= k < slot ==> #[trigger] palette@[k] == spec_default_slot(k),
            decreases 269 - slot,
        {
            palette.push(default_slot(slot));
            slot += 1;
        }
        TermTheme { palette, fallback: default_slot(SLOT_FOREGROUND) }
    }
}

} // verus!
