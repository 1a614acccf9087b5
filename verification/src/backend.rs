//! What the pipeline exchanges with the terminal backend: the commands it
//! sends and the snapshot it reads.

use vstd::prelude::*;
use alacritty_terminal::grid::Grid;
use alacritty_terminal::term::cell::Cell;
use crate::grid::SelectionRange;
use crate::types::Size;

verus! {

/// The mode flags of the terminal, as a set of bits.
#[derive(Clone, Copy, Debug, PartialEq, Eq, Structural)]
pub struct TermMode {
    pub bits: u32,
}

impl TermMode {
    /// Whether every flag of `other` is set in this mode.
    pub open spec fn spec_contains(self, other: TermMode) -> bool {
        self.bits & other.bits == other.bits
    }

    /// Whether some flag of `other` is set in this mode.
    pub open spec fn spec_intersects(self, other: TermMode) -> bool {
        self.bits & other.bits != 0
    }

    /// The mode with no flag set.
    pub fn empty() -> (mode: TermMode)
        ensures
            mode.bits == 0,
    {
        TermMode { bits: 0 }
    }

    /// Whether every flag of `other` is set in this mode.
    pub fn contains(&self, other: TermMode) -> (r: bool)
        ensures
            r == self.spec_contains(other),
    {
        self.bits & other.bits == other.bits
    }

    /// Whether some flag of `other` is set in this mode.
    pub fn intersects(&self, other: TermMode) -> (r: bool)
        ensures
            r == self.spec_intersects(other),
    {
        self.bits & other.bits != 0
    }
}

/// An instruction for the backend.
#[derive(Debug, PartialEq, Eq)]
pub enum BackendCommand {
    /// Send these bytes to the terminal's process.
    Write(Vec<u8>),
    /// Scroll the display by this many lines.
    Scroll(i32),
    /// Fit the terminal to a widget of the first size, with cells of the
    /// second.
    Resize(Size, Size),
}

/// The mathematical value of a [`BackendCommand`].
pub enum CommandView {
    Write(Seq<u8>),
    Scroll(int),
    Resize(Size, Size),
}

impl View for BackendCommand {
    type V = CommandView;

    open spec fn view(&self) -> CommandView {
        match self {
            BackendCommand::Write(bytes) => CommandView::Write(bytes@),
            BackendCommand::Scroll(lines) => CommandView::Scroll(*lines as int),
            BackendCommand::Resize(size, cell) => CommandView::Resize(*size, *cell),
        }
    }
}

impl Clone for BackendCommand {
    fn clone(&self) -> (copy: BackendCommand)
        ensures
            copy@ == self@,
    {
        match self {
            BackendCommand::Write(bytes) => BackendCommand::Write(bytes.clone()),
            BackendCommand::Scroll(lines) => BackendCommand::Scroll(*lines),
            BackendCommand::Resize(size, cell) => BackendCommand::Resize(*size, *cell),
        }
    }
}

/// The views of a run of commands, in order.
pub open spec fn command_views(commands: Seq<BackendCommand>) -> Seq<CommandView> {
    Seq::new(commands.len(), |i: int| commands[i]@)
}

/// The snapshot that the backend hands out for one frame.
pub struct RenderableContent {
    /// The character grid.
    pub grid: Grid<Cell>,
    /// The selected cells, if any.
    pub selectable_range: Option<SelectionRange>,
    /// The terminal's mode flags.
    pub terminal_mode: TermMode,
}

} // verus!
