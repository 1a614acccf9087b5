//! The grid renderer: from the cells of a grid snapshot to drawing
//! primitives.

use vstd::prelude::*;
use crate::grid::is_inverse;
use crate::grid::spec_in_display_order;
use crate::grid::spec_is_inverse;
use crate::grid::GridCell;
use crate::grid::GridPoint;
use crate::grid::SelectionRange;
use crate::theme::ColorId;
use crate::theme::TermTheme;
use crate::types::clamp_i64;
use crate::types::saturate_i64;
use crate::types::Pos;
use crate::types::Rgba;
use crate::types::Size;

verus! {

/// One drawing primitive.
#[derive(Clone, Copy, Debug, PartialEq, Eq, Structural)]
pub enum DrawCommand {
    /// Fill the rectangle with corner `min` and extent `size`.
    Fill { min: Pos, size: Size, color: Rgba },
    /// Draw `character` centred at `center`.
    Glyph { center: Pos, character: char, color: Rgba },
}

/// One grid position as the current frame shows it.
#[derive(Clone, Copy, Debug, PartialEq, Eq, Structural)]
pub struct RenderedCell {
    pub column: usize,
    pub row: i32,
    pub character: char,
    pub foreground_color: ColorId,
    pub background_color: ColorId,
    pub flags: u16,
    pub in_selection: bool,
}

/// Whether a point counts as selected: there is a selection and it holds
/// the point.
pub open spec fn spec_in_selection(selection: Option<SelectionRange>, point: GridPoint) -> bool {
    match selection {
        Some(range) => range.spec_contains(point),
        None => false,
    }
}

/// The projection of a grid cell for the current frame.
pub open spec fn spec_project(cell: GridCell, selection: Option<SelectionRange>) -> RenderedCell {
    RenderedCell {
        column: cell.point.column,
        row: cell.point.line,
        character: cell.character,
        foreground_color: cell.fg,
        background_color: cell.bg,
        flags: cell.flags,
        in_selection: spec_in_selection(selection, cell.point),
    }
}

/// Whether a cell is drawn with foreground and background exchanged:
/// reverse video or selection, and once if both.
pub open spec fn spec_swapped(cell: RenderedCell) -> bool {
    spec_is_inverse(cell.flags) || cell.in_selection
}

/// The colour that a cell's glyph is drawn in.
pub open spec fn spec_glyph_color(theme: TermTheme, cell: RenderedCell) -> Rgba {
    if spec_swapped(cell) {
        theme.spec_get_color(cell.background_color)
    } else {
        theme.spec_get_color(cell.foreground_color)
    }
}

/// The colour that a cell's rectangle is filled with.
pub open spec fn spec_fill_color(theme: TermTheme, cell: RenderedCell) -> Rgba {
    if spec_swapped(cell) {
        theme.spec_get_color(cell.foreground_color)
    } else {
        theme.spec_get_color(cell.background_color)
    }
}

/// Half of a length, rounded towards zero.
pub open spec fn spec_half(v: int) -> int {
    if v >= 0 {
        v / 2
    } else {
        -((-v) / 2)
    }
}

/// The corner of a cell's rectangle: the origin moved right by whole
/// columns and down by the row counted from the top of the displayed
/// region. Coordinates saturate at the range of `i64`.
pub open spec fn spec_cell_min(
    origin: Pos,
    metrics: Size,
    display_offset: int,
    cell: RenderedCell,
) -> Pos {
    Pos {
        x: clamp_i64(origin.x + cell.column * metrics.width) as i64,
        y: clamp_i64(origin.y + (cell.row + display_offset) * metrics.height) as i64,
    }
}

/// The centre of a cell's rectangle.
pub open spec fn spec_cell_center(
    origin: Pos,
    metrics: Size,
    display_offset: int,
    cell: RenderedCell,
) -> Pos {
    Pos {
        x: clamp_i64(origin.x + cell.column * metrics.width + spec_half(metrics.width as int))
            as i64,
        y: clamp_i64(
            origin.y + (cell.row + display_offset) * metrics.height + spec_half(
                metrics.height as int,
            ),
        ) as i64,
    }
}

/// Whether a character is drawn at all: neither a space nor a tab.
pub open spec fn spec_has_glyph(character: char) -> bool {
    character != ' ' && character != '\t'
}

/// The fill of a cell.
pub open spec fn spec_fill(
    theme: TermTheme,
    origin: Pos,
    metrics: Size,
    display_offset: int,
    cell: RenderedCell,
) -> DrawCommand {
    DrawCommand::Fill {
        min: spec_cell_min(origin, metrics, display_offset, cell),
        size: metrics,
        color: spec_fill_color(theme, cell),
    }
}

/// The glyph of a cell that has one.
pub open spec fn spec_glyph(
    theme: TermTheme,
    origin: Pos,
    metrics: Size,
    display_offset: int,
    cell: RenderedCell,
) -> DrawCommand {
    DrawCommand::Glyph {
        center: spec_cell_center(origin, metrics, display_offset, cell),
        character: cell.character,
        color: spec_glyph_color(theme, cell),
    }
}

/// What one cell draws: its fill, then its glyph if it has one.
pub open spec fn spec_draw_cell(
    theme: TermTheme,
    origin: Pos,
    metrics: Size,
    display_offset: int,
    cell: RenderedCell,
) -> Seq<DrawCommand> {
    if spec_has_glyph(cell.character) {
        seq![
            spec_fill(theme, origin, metrics, display_offset, cell),
            spec_glyph(theme, origin, metrics, display_offset, cell),
        ]
    } else {
        seq![spec_fill(theme, origin, metrics, display_offset, cell)]
    }
}

/// What a run of grid cells draws: the cells in order, each as
/// `spec_draw_cell` says.
pub open spec fn spec_draw_cells(
    theme: TermTheme,
    origin: Pos,
    metrics: Size,
    display_offset: int,
    selection: Option<SelectionRange>,
    cells: Seq<GridCell>,
) -> Seq<DrawCommand>
    decreases cells.len(),
{
    if cells.len() == 0 {
        Seq::empty()
    } else {
        spec_draw_cells(theme, origin, metrics, display_offset, selection, cells.drop_last())
            + spec_draw_cell(
            theme,
            origin,
            metrics,
            display_offset,
            spec_project(cells.last(), selection),
        )
    }
}

/// Projects a grid cell for the current frame.
pub fn project(cell: &GridCell, selection: &Option<SelectionRange>) -> (rendered: RenderedCell)
    ensures
        rendered == spec_project(*cell, *selection),
{
    let in_selection = match selection {
        Some(range) => range.contains(cell.point),
        None => false,
    };
    RenderedCell {
        column: cell.point.column,
        row: cell.point.line,
        character: cell.character,
        foreground_color: cell.fg,
        background_color: cell.bg,
        flags: cell.flags,
        in_selection,
    }
}

/// Resolves the colours of a cell: the glyph colour and the fill colour,
/// exchanged where the cell is reverse video or selected.
pub fn cell_colors(theme: &TermTheme, cell: &RenderedCell) -> (colors: (Rgba, Rgba))
    ensures
        colors.0 == spec_glyph_color(*theme, *cell),
        colors.1 == spec_fill_color(*theme, *cell),
{
    let fg = theme.get_color(cell.foreground_color);
    let bg = theme.get_color(cell.background_color);
    if is_inverse(cell.flags) || cell.in_selection {
        (bg, fg)
    } else {
        (fg, bg)
    }
}

fn half(v: i32) -> (r: i32)
    ensures
        r == spec_half(v as int),
{
    v / 2
}

/// The distance of a cell from the origin along one axis: `steps` cells of
/// extent `extent`, plus `extra`.
fn offset_along(origin: i64, steps: i128, extent: i32, extra: i32) -> (r: i64)
    requires
        -0x2_0000_0000_0000_0000 <= steps <= 0x2_0000_0000_0000_0000,
    ensures
        r == clamp_i64(origin + steps * extent + extra),
{
    assert(-0x1_0000_0000_0000_0000_0000_0000 <= steps * extent
        <= 0x1_0000_0000_0000_0000_0000_0000) by (nonlinear_arith)
        requires
            -0x2_0000_0000_0000_0000 <= steps <= 0x2_0000_0000_0000_0000,
            -0x8000_0000 <= extent <= 0x8000_0000,
    ;
    saturate_i64(origin as i128 + steps * (extent as i128) + extra as i128)
}

/// Appends what one cell draws to `draws`.
pub fn render_cell(
    draws: &mut Vec<DrawCommand>,
    theme: &TermTheme,
    origin: Pos,
    metrics: Size,
    display_offset: usize,
    cell: &RenderedCell,
)
    ensures
        final(draws)@ == old(draws)@ + spec_draw_cell(
            *theme,
            origin,
            metrics,
            display_offset as int,
            *cell,
        ),
{
    let column = cell.column as i128;
    let row = cell.row as i128 + display_offset as i128;
    let (glyph_color, fill_color) = cell_colors(theme, cell);
    let min = Pos {
        x: offset_along(origin.x, column, metrics.width, 0),
        y: offset_along(origin.y, row, metrics.height, 0),
    };
    draws.push(DrawCommand::Fill { min, size: metrics, color: fill_color });
    if cell.character != ' ' && cell.character != '\t' {
        let center = Pos {
            x: offset_along(origin.x, column, metrics.width, half(metrics.width)),
            y: offset_along(origin.y, row, metrics.height, half(metrics.height)),
        };
        draws.push(DrawCommand::Glyph { center, character: cell.character, color: glyph_color });
    }
}

/// Renders a run of grid cells: for every cell, in order, a fill, and a
/// glyph unless the cell is blank.
pub fn render_cells(
    theme: &TermTheme,
    origin: Pos,
    metrics: Size,
    display_offset: usize,
    selection: &Option<SelectionRange>,
    cells: &Vec<GridCell>,
) -> (draws: Vec<DrawCommand>)
    ensures
        draws@ == spec_draw_cells(
            *theme,
            origin,
            metrics,
            display_offset as int,
            *selection,
            cells@,
        ),
{
    let mut draws: Vec<DrawCommand> = Vec::new();
    let mut i: usize = 0;
    while i < cells.len()
        invariant
            i <= cells.len(),
            draws@ == spec_draw_cells(
                *theme,
                origin,
                metrics,
                display_offset as int,
                *selection,
                cells@.take(i as int),
            ),
        decreases cells.len() - i,
    {
        let rendered = project(&cells[i], selection);
        render_cell(&mut draws, theme, origin, metrics, display_offset, &rendered);
        proof {
            let next = cells@.take(i + 1);
            assert(next.drop_last() == cells@.take(i as int));
        }
        i += 1;
    }
    proof {
        assert(cells@.take(i as int) == cells@);
    }
    draws
}

/// Whether a drawing primitive is a fill.
pub open spec fn spec_is_fill(draw: DrawCommand) -> bool {
    draw is Fill
}

/// The number of fills in a drawing.
pub open spec fn spec_count_fills(draws: Seq<DrawCommand>) -> nat
    decreases draws.len(),
{
    if draws.len() == 0 {
        0
    } else {
        spec_count_fills(draws.drop_last()) + if spec_is_fill(draws.last()) {
            1nat
        } else {
            0nat
        }
    }
}

/// The number of cells in a run that hold a character to draw.
pub open spec fn spec_count_inked(cells: Seq<GridCell>) -> nat
    decreases cells.len(),
{
    if cells.len() == 0 {
        0
    } else {
        spec_count_inked(cells.drop_last()) + if spec_has_glyph(cells.last().character) {
            1nat
        } else {
            0nat
        }
    }
}

/// Reverse video and selection share one exchange of colours. Where
/// exactly one of the two holds of a cell, its colours are exchanged once:
/// the fill takes the foreground and the glyph the background. Where
/// neither holds, they are not exchanged.
pub proof fn lemma_swap_for_exactly_one(theme: TermTheme, cell: RenderedCell)
    requires
        !(spec_is_inverse(cell.flags) && cell.in_selection),
    ensures
        spec_swapped(cell) == (spec_is_inverse(cell.flags) != cell.in_selection),
        spec_is_inverse(cell.flags) != cell.in_selection ==> spec_fill_color(theme, cell)
            == theme.spec_get_color(cell.foreground_color) && spec_glyph_color(theme, cell)
            == theme.spec_get_color(cell.background_color),
        !spec_is_inverse(cell.flags) && !cell.in_selection ==> spec_fill_color(theme, cell)
            == theme.spec_get_color(cell.background_color) && spec_glyph_color(theme, cell)
            == theme.spec_get_color(cell.foreground_color),
{
}

/// A cell that is both reverse video and selected has its colours
/// exchanged once, not twice.
pub proof fn lemma_swap_once_for_both(theme: TermTheme, cell: RenderedCell)
    requires
        spec_is_inverse(cell.flags),
        cell.in_selection,
    ensures
        spec_fill_color(theme, cell) == theme.spec_get_color(cell.foreground_color),
        spec_glyph_color(theme, cell) == theme.spec_get_color(cell.background_color),
{
}

proof fn lemma_count_fills_push(draws: Seq<DrawCommand>, draw: DrawCommand)
    ensures
        spec_count_fills(draws.push(draw)) == spec_count_fills(draws) + if spec_is_fill(draw) {
            1nat
        } else {
            0nat
        },
{
    assert(draws.push(draw).drop_last() == draws);
}

/// Every cell is filled, blank or not, and only a cell that holds a
/// character to draw adds a glyph: a drawing has one fill for each cell and
/// one primitive more for each cell that is not blank.
pub proof fn lemma_every_cell_is_filled(
    theme: TermTheme,
    origin: Pos,
    metrics: Size,
    display_offset: int,
    selection: Option<SelectionRange>,
    cells: Seq<GridCell>,
)
    ensures
        spec_count_fills(
            spec_draw_cells(theme, origin, metrics, display_offset, selection, cells),
        ) == cells.len(),
        spec_draw_cells(theme, origin, metrics, display_offset, selection, cells).len()
            == cells.len() + spec_count_inked(cells),
    decreases cells.len(),
{
    if cells.len() > 0 {
        let head = spec_draw_cells(
            theme,
            origin,
            metrics,
            display_offset,
            selection,
            cells.drop_last(),
        );
        lemma_every_cell_is_filled(
            theme,
            origin,
            metrics,
            display_offset,
            selection,
            cells.drop_last(),
        );
        let cell = spec_project(cells.last(), selection);
        let fill = spec_fill(theme, origin, metrics, display_offset, cell);
        let glyph = spec_glyph(theme, origin, metrics, display_offset, cell);
        lemma_count_fills_push(head, fill);
        if spec_has_glyph(cell.character) {
            lemma_count_fills_push(head.push(fill), glyph);
            assert(head + seq![fill, glyph] == head.push(fill).push(glyph));
        } else {
            assert(head + seq![fill] == head.push(fill));
        }
    }
}

/// The display offset moves no cell on the screen. Of cells in display
/// order, the cell at position `k` is drawn in column `k % columns` of row
/// `k / columns`, counted from the widget's corner, however far the
/// display is scrolled back; and that row is a row of the screen.
pub proof fn lemma_cells_keep_their_place(
    origin: Pos,
    metrics: Size,
    selection: Option<SelectionRange>,
    cells: Seq<GridCell>,
    columns: nat,
    screen_lines: nat,
    display_offset: nat,
    k: int,
)
    requires
        spec_in_display_order(cells, columns, screen_lines, display_offset),
        0 <= k < cells.len(),
    ensures
        columns > 0,
        0 <= k / (columns as int) < screen_lines,
        0 <= k % (columns as int) < columns,
        spec_cell_min(origin, metrics, display_offset as int, spec_project(cells[k], selection))
            == (Pos {
            x: clamp_i64(origin.x + (k % (columns as int)) * metrics.width) as i64,
            y: clamp_i64(origin.y + (k / (columns as int)) * metrics.height) as i64,
        }),
{
    let width = columns as int;
    let height = screen_lines as int;
    assert(width > 0) by (nonlinear_arith)
        requires
            0 <= k < height * width,
            width >= 0,
    ;
    assert(0 <= k / width < height && 0 <= k % width < width) by (nonlinear_arith)
        requires
            0 <= k < height * width,
            width > 0,
    ;
}

} // verus!
