//! Display-and-input pipeline of a terminal view widget.
//!
//! The library turns the input events of one frame into commands for the
//! terminal backend, and the backend's character grid into drawing
//! primitives. It neither reads events nor paints: the host hands it plain
//! values and carries out what it returns.
//!
//! Lengths are fixed-point integers, [`types::FIXED_ONE`] units to the
//! pixel, so that every formula is exact.

pub mod accumulator;
pub mod backend;
pub mod bindings;
pub mod font;
pub mod grid;
pub mod identity;
pub mod input;
pub mod render;
pub mod state;
pub mod theme;
pub mod types;
pub mod view;

pub use font::TermFont;
pub use state::TerminalViewState;
pub use theme::TermTheme;
pub use view::TerminalView;
