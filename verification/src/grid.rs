//! The character grid of the terminal backend, as the renderer reads it.
//!
//! The grid is a value of `alacritty_terminal`, read through trusted
//! functions. What is trusted is claimed of the grids that a program makes
//! and changes through the safe public functions of `alacritty_terminal`,
//! built without its `serde` feature, in calls that held to those
//! functions' own debug assertions and returned. Such calls keep the
//! grid's private ring buffer in step with its number of screen lines and
//! of lines in all, which no public function shows. They do not keep the
//! display offset within the history, nor every row as long as the grid is
//! wide: [`is_displayable`] tests both before the displayed region is
//! walked.

use vstd::prelude::*;
use alacritty_terminal::grid::Dimensions;
use alacritty_terminal::grid::Grid;
use alacritty_terminal::index::Column;
use alacritty_terminal::index::Line;
use alacritty_terminal::index::Point;
use alacritty_terminal::term::cell::Cell;
use alacritty_terminal::term::cell::Flags;
use alacritty_terminal::vte::ansi::Color;
use crate::theme::ColorId;

verus! {

/// A position in the grid. Lines above the screen (history) are negative.
#[derive(Clone, Copy, Debug, PartialEq, Eq, Structural)]
pub struct GridPoint {
    pub line: i32,
    pub column: usize,
}

/// One cell of the grid with its position, as plain values.
#[derive(Clone, Copy, Debug, PartialEq, Eq, Structural)]
pub struct GridCell {
    pub point: GridPoint,
    pub character: char,
    pub fg: ColorId,
    pub bg: ColorId,
    /// The cell's attribute bits.
    pub flags: u16,
}

/// The attribute bit of reverse video.
pub const FLAG_INVERSE: u16 = 1;

/// The range of selected cells that the backend reports.
#[derive(Clone, Copy, Debug, PartialEq, Eq, Structural)]
pub struct SelectionRange {
    /// Top left of the selection.
    pub start: GridPoint,
    /// Bottom right of the selection.
    pub end: GridPoint,
    /// Whether the selection is a rectangle rather than a run of text.
    pub is_block: bool,
}

impl SelectionRange {
    /// Whether `point` lies within the selection.
    pub open spec fn spec_contains(self, point: GridPoint) -> bool {
        &&& self.start.line <= point.line
        &&& self.end.line >= point.line
        &&& (self.start.column <= point.column || (self.start.line != point.line
            && !self.is_block))
        &&& (self.end.column >= point.column || (self.end.line != point.line && !self.is_block))
    }

    /// Calls `alacritty_terminal::selection::SelectionRange::contains` on the
    /// same range and point. Trusted: the result is the comparison of lines
    /// and columns that `spec_contains` writes out.
    #[verifier::external_body]
    pub(crate) fn contains(&self, point: GridPoint) -> (r: bool)
        ensures
            r == self.spec_contains(point),
    {
        alacritty_terminal::selection::SelectionRange {
            start: Point::new(Line(self.start.line), Column(self.start.column)),
            end: Point::new(Line(self.end.line), Column(self.end.column)),
            is_block: self.is_block,
        }.contains(Point::new(Line(point.line), Column(point.column)))
    }
}

/// Whether attribute bits hold the reverse-video bit.
pub open spec fn spec_is_inverse(flags: u16) -> bool {
    flags & FLAG_INVERSE == FLAG_INVERSE
}

/// Calls `Flags::contains` of `alacritty_terminal::term::cell` with
/// `Flags::INVERSE`. Trusted: `INVERSE` is the lowest bit, and `contains`
/// tests that every bit of its argument is set.
#[verifier::external_body]
pub(crate) fn is_inverse(flags: u16) -> (r: bool)
    ensures
        r == spec_is_inverse(flags),
{
    Flags::from_bits_retain(flags).contains(Flags::INVERSE)
}

/// `alacritty_terminal::grid::Grid`, the backend's grid. Its inside is
/// not known here: it is read through the functions below.
#[verifier::external_type_specification]
#[verifier::external_body]
#[verifier::reject_recursive_types(T)]
pub struct ExGrid<T>(Grid<T>);

/// `alacritty_terminal::term::cell::Cell`, the cell type of the backend's
/// grid. Its inside is not known here.
#[verifier::external_type_specification]
#[verifier::external_body]
pub struct ExCell(Cell);

/// What `Grid::display_iter` yields for a grid: the cells of its displayed
/// region, as plain values.
pub uninterp spec fn grid_cells(grid: Grid<Cell>) -> Seq<GridCell>;

/// What `Grid::display_offset` returns for a grid: how many lines its
/// displayed region is scrolled back into history.
pub uninterp spec fn grid_display_offset(grid: Grid<Cell>) -> nat;

/// What `Dimensions::columns` returns for a grid: its number of columns.
pub uninterp spec fn grid_columns(grid: Grid<Cell>) -> nat;

/// What `Dimensions::screen_lines` returns for a grid: the number of lines
/// of its screen.
pub uninterp spec fn grid_screen_lines(grid: Grid<Cell>) -> nat;

/// What `Dimensions::total_lines` returns for a grid: the number of its
/// lines, history and screen together.
pub uninterp spec fn grid_total_lines(grid: Grid<Cell>) -> nat;

/// What `Row::len` returns for the row that a grid gives when it is indexed
/// by a line: the number of cells that the row holds.
pub uninterp spec fn grid_row_len(grid: Grid<Cell>, line: int) -> nat;

/// Whether a grid holds a line: the line lies within its history and
/// screen, and its line numbers fit the backend's signed line type.
pub open spec fn grid_has_line(grid: Grid<Cell>, line: int) -> bool {
    &&& grid_total_lines(grid) <= i32::MAX
    &&& grid_screen_lines(grid) <= grid_total_lines(grid)
    &&& grid_screen_lines(grid) - grid_total_lines(grid) <= line < grid_screen_lines(grid)
}

/// Whether the displayed region of a grid can be walked: the grid has a
/// column, its line numbers fit the backend's signed line type, the region
/// lies within the grid's lines, and every row of the region holds a cell
/// for each column.
pub open spec fn grid_displayable(grid: Grid<Cell>) -> bool {
    &&& grid_columns(grid) >= 1
    &&& grid_total_lines(grid) <= i32::MAX
    &&& grid_display_offset(grid) + grid_screen_lines(grid) <= grid_total_lines(grid)
    &&& forall|line: int|
        -grid_display_offset(grid) <= line < grid_screen_lines(grid) - grid_display_offset(grid)
            ==> #[trigger] grid_row_len(grid, line) >= grid_columns(grid)
}

/// Whether a run of cells is in display order for a region of `columns`
/// columns and `screen_lines` lines that is scrolled back by
/// `display_offset` lines: one cell for each position, line by line from
/// the top of the region, each line from its first column.
pub open spec fn spec_in_display_order(
    cells: Seq<GridCell>,
    columns: nat,
    screen_lines: nat,
    display_offset: nat,
) -> bool {
    &&& cells.len() == screen_lines * columns
    &&& forall|k: int|
        0 <= k < cells.len() ==> (#[trigger] cells[k]).point.line == k / (columns as int)
            - display_offset
    &&& forall|k: int|
        0 <= k < cells.len() ==> (#[trigger] cells[k]).point.column == k % (columns as int)
}

/// Calls `Grid::display_offset`. Trusted: the result is the grid's display
/// offset.
#[verifier::external_body]
pub(crate) fn display_offset(grid: &Grid<Cell>) -> (r: usize)
    ensures
        r == grid_display_offset(*grid),
{
    grid.display_offset()
}

/// Calls `Dimensions::columns` on a grid. Trusted: the result is the grid's
/// number of columns.
#[verifier::external_body]
pub(crate) fn columns(grid: &Grid<Cell>) -> (r: usize)
    ensures
        r == grid_columns(*grid),
{
    grid.columns()
}

/// Calls `Dimensions::screen_lines` on a grid. Trusted: the result is the
/// number of lines of the grid's screen.
#[verifier::external_body]
pub(crate) fn screen_lines(grid: &Grid<Cell>) -> (r: usize)
    ensures
        r == grid_screen_lines(*grid),
{
    grid.screen_lines()
}

/// Calls `Dimensions::total_lines` on a grid. Trusted: the result is the
/// number of the grid's lines, history and screen together.
#[verifier::external_body]
pub(crate) fn total_lines(grid: &Grid<Cell>) -> (r: usize)
    ensures
        r == grid_total_lines(*grid),
{
    grid.total_lines()
}

/// Indexes a grid by a line and calls `Row::len` on the row. Trusted: the
/// result is the number of cells of that row. Indexing fails outside the
/// grid's lines, so the line must be one that the grid holds.
#[verifier::external_body]
pub(crate) fn row_len(grid: &Grid<Cell>, line: i32) -> (r: usize)
    requires
        grid_has_line(*grid, line as int),
    ensures
        r == grid_row_len(*grid, line as int),
{
    grid[Line(line)].len()
}

/// Calls `Grid::display_iter` and collects what it yields. Trusted: the
/// result is the displayed cells in the iterator's order, each with its
/// point, character, colours and attribute bits; and the iterator walks
/// every position of the displayed region once, from the line
/// `-display_offset` to the line `screen_lines - 1 - display_offset`, each
/// line from column 0 to the last. The iterator indexes each of those
/// lines and, in its row, each of those columns: the grid must hold them.
#[verifier::external_body]
pub(crate) fn display_cells(grid: &Grid<Cell>) -> (cells: Vec<GridCell>)
    requires
        grid_displayable(*grid),
    ensures
        cells@ == grid_cells(*grid),
        spec_in_display_order(
            cells@,
            grid_columns(*grid),
            grid_screen_lines(*grid),
            grid_display_offset(*grid),
        ),
{
    let id = |c: Color| match c {
        Color::Named(n) => ColorId::Named(n as u16),
        Color::Spec(rgb) => ColorId::Spec(rgb.r, rgb.g, rgb.b),
        Color::Indexed(x) => ColorId::Indexed(x),
    };
    grid.display_iter().map(|i| GridCell {
        point: GridPoint { line: i.point.line.0, column: i.point.column.0 },
        character: i.c,
        fg: id(i.fg),
        bg: id(i.bg),
        flags: i.flags.bits(),
    }).collect()
}

/// Tests whether the displayed region of a grid can be walked.
pub fn is_displayable(grid: &Grid<Cell>) -> (displayable: bool)
    ensures
        displayable == grid_displayable(*grid),
{
    let width = columns(grid);
    let height = screen_lines(grid);
    let offset = display_offset(grid);
    let total = total_lines(grid);
    if width < 1 || total > 0x7fff_ffff || offset > total || height > total - offset {
        return false;
    }
    let mut row: usize = 0;
    while row < height
        invariant
            row <= height,
            width == grid_columns(*grid),
            height == grid_screen_lines(*grid),
            offset == grid_display_offset(*grid),
            total == grid_total_lines(*grid),
            total <= 0x7fff_ffff,
            offset + height <= total,
            forall|line: int|
                -offset <= line < row - offset ==> #[trigger] grid_row_len(*grid, line) >= width,
        decreases height - row,
    {
        let line = row as i32 - offset as i32;
        if row_len(grid, line) < width {
            return false;
        }
        row += 1;
    }
    true
}

} // verus!
