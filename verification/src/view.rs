//! The terminal view: its configuration, and the steps of one frame.
//!
//! A frame asks, in this order, whether to take the focus, for the resize
//! command, for the commands of the frame's input events, and, once the
//! backend has taken those, for the drawing of its grid.

use vstd::prelude::*;
use crate::backend::command_views;
use crate::backend::BackendCommand;
use crate::backend::CommandView;
use crate::backend::RenderableContent;
use crate::backend::TermMode;
use crate::bindings::Binding;
use crate::bindings::BindingAction;
use crate::bindings::BindingsLayout;
use crate::font::TermFont;
use crate::font::DEFAULT_FONT_SIZE;
use crate::grid::display_cells;
use crate::grid::display_offset;
use crate::grid::grid_cells;
use crate::grid::grid_columns;
use crate::grid::grid_display_offset;
use crate::grid::grid_displayable;
use crate::grid::grid_screen_lines;
use crate::grid::is_displayable;
use crate::grid::spec_in_display_order;
use crate::identity::spec_widget_key;
use crate::identity::widget_key;
use crate::input::handle_keyboard_event;
use crate::input::handle_mouse_wheel;
use crate::input::spec_handle_keyboard_event;
use crate::input::spec_scroll_action;
use crate::input::spec_wheel_lines;
use crate::input::spec_wheel_remainder;
use crate::input::spec_write_text;
use crate::input::ActionView;
use crate::input::InputAction;
use crate::input::InputEvent;
use crate::render::lemma_every_cell_is_filled;
use crate::render::render_cells;
use crate::render::spec_count_fills;
use crate::render::spec_draw_cells;
use crate::render::DrawCommand;
use crate::state::TerminalViewState;
use crate::theme::spec_is_default_theme;
use crate::theme::TermTheme;
use crate::types::Pos;
use crate::types::Size;

verus! {

/// A terminal view: the identity under which its state is kept, and what it
/// is drawn and driven with.
pub struct TerminalView {
    /// The identity of the backend instance that the view shows.
    pub backend_id: u64,
    pub font: TermFont,
    pub theme: TermTheme,
    pub bindings_layout: BindingsLayout,
}

/// What one input event resolves to, given the wheel remainder before it:
/// the remainder after it, and the action.
pub open spec fn spec_resolve_event(
    view: TerminalView,
    remainder: int,
    term_mode: TermMode,
    event: InputEvent,
) -> (int, ActionView) {
    match event {
        InputEvent::MouseWheel { unit, delta } => (
            spec_wheel_remainder(remainder, view.font.size as int, unit, delta.y as int),
            spec_scroll_action(
                spec_wheel_lines(remainder, view.font.size as int, unit, delta.y as int),
            ),
        ),
        _ => (remainder, spec_handle_keyboard_event(event, view.bindings_layout, term_mode)),
    }
}

/// The commands that an action adds to those before it.
pub open spec fn spec_forward(commands: Seq<CommandView>, action: ActionView) -> Seq<CommandView> {
    match action {
        ActionView::BackendCall(command) => commands.push(command),
        ActionView::Ignore => commands,
    }
}

/// What a queue of input events resolves to, from the first event to the
/// last: the wheel remainder after them, and the backend calls in the order
/// of their events.
pub open spec fn spec_process_input(
    view: TerminalView,
    remainder: int,
    term_mode: TermMode,
    events: Seq<InputEvent>,
) -> (int, Seq<CommandView>)
    decreases events.len(),
{
    if events.len() == 0 {
        (remainder, Seq::empty())
    } else {
        let before = spec_process_input(view, remainder, term_mode, events.drop_last());
        let step = spec_resolve_event(view, before.0, term_mode, events.last());
        (step.0, spec_forward(before.1, step.1))
    }
}

impl TerminalView {
    /// The view of a backend instance, with the default font and theme and
    /// no bindings.
    pub fn new(backend_id: u64) -> (view: TerminalView)
        ensures
            view.backend_id == backend_id,
            view.font.size == DEFAULT_FONT_SIZE,
            spec_is_default_theme(view.theme),
            view.bindings_layout.layout@.len() == 0,
    {
        TerminalView {
            backend_id,
            font: TermFont::default(),
            theme: TermTheme::default(),
            bindings_layout: BindingsLayout::new(),
        }
    }

    /// The key under which the host keeps the state of this view.
    pub fn widget_id(&self) -> (key: String)
        ensures
            key@ == spec_widget_key(self.backend_id),
    {
        widget_key(self.backend_id)
    }

    /// The same view with another theme.
    pub fn set_theme(self, theme: TermTheme) -> (view: TerminalView)
        ensures
            view.theme == theme,
            view.backend_id == self.backend_id,
            view.font == self.font,
            view.bindings_layout == self.bindings_layout,
    {
        let mut view = self;
        view.theme = theme;
        view
    }

    /// The same view with another font.
    pub fn set_font(self, font: TermFont) -> (view: TerminalView)
        ensures
            view.font == font,
            view.backend_id == self.backend_id,
            view.theme == self.theme,
            view.bindings_layout == self.bindings_layout,
    {
        let mut view = self;
        view.font = font;
        view
    }

    /// The same view with further bindings, after those it has.
    pub fn add_bindings(self, bindings: Vec<(Binding, BindingAction)>) -> (view: TerminalView)
        ensures
            view.bindings_layout.layout@ == self.bindings_layout.layout@ + bindings@,
            view.backend_id == self.backend_id,
            view.font == self.font,
            view.theme == self.theme,
    {
        let mut view = self;
        view.bindings_layout.add_bindings(bindings);
        view
    }

    /// Whether the view asks for the input focus this frame: exactly when
    /// it was clicked.
    pub fn focus(&self, clicked: bool) -> (request: bool)
        ensures
            request == clicked,
    {
        clicked
    }

    /// The resize command of a frame. Every frame has one, with the size of
    /// the widget and the measure of a cell in that frame, whether or not
    /// they have changed.
    pub fn resize(&self, layout_size: Size, font_measure: Size) -> (command: BackendCommand)
        ensures
            command@ == CommandView::Resize(layout_size, font_measure),
    {
        BackendCommand::Resize(layout_size, font_measure)
    }

    /// Resolves one input event to one action.
    pub fn resolve_event(
        &self,
        state: &mut TerminalViewState,
        term_mode: TermMode,
        event: &InputEvent,
    ) -> (action: InputAction)
        ensures
            (final(state).scroll_pixels as int, action@) == spec_resolve_event(
                *self,
                old(state).scroll_pixels as int,
                term_mode,
                *event,
            ),
            event matches InputEvent::Text(text) ==> action@ == spec_write_text(text@),
            event matches InputEvent::Key { pressed: false, .. } ==> action@ == ActionView::Ignore,
            final(state).is_dragged == old(state).is_dragged,
            final(state).is_focused == old(state).is_focused,
            final(state).keyboard_modifiers == old(state).keyboard_modifiers,
    {
        match event {
            InputEvent::MouseWheel { unit, delta } => handle_mouse_wheel(
                state,
                self.font.size,
                *unit,
                *delta,
            ),
            _ => handle_keyboard_event(event, &self.bindings_layout, term_mode),
        }
    }

    /// Resolves the input events of a frame, in their order, to the backend
    /// calls of the frame. A view without the input focus resolves none.
    pub fn process_input(
        &self,
        state: &mut TerminalViewState,
        has_focus: bool,
        term_mode: TermMode,
        events: &Vec<InputEvent>,
    ) -> (commands: Vec<BackendCommand>)
        ensures
            !has_focus ==> commands@.len() == 0 && *final(state) == *old(state),
            has_focus ==> (final(state).scroll_pixels as int, command_views(commands@))
                == spec_process_input(*self, old(state).scroll_pixels as int, term_mode, events@),
            commands@.len() <= events@.len(),
            final(state).is_dragged == old(state).is_dragged,
            final(state).is_focused == old(state).is_focused,
            final(state).keyboard_modifiers == old(state).keyboard_modifiers,
    {
        let mut commands: Vec<BackendCommand> = Vec::new();
        if !has_focus {
            return commands;
        }
        let mut i: usize = 0;
        while i < events.len()
            invariant
                i <= events.len(),
                commands@.len() <= i,
                (state.scroll_pixels as int, command_views(commands@)) == spec_process_input(
                    *self,
                    old(state).scroll_pixels as int,
                    term_mode,
                    events@.take(i as int),
                ),
                state.is_dragged == old(state).is_dragged,
                state.is_focused == old(state).is_focused,
                state.keyboard_modifiers == old(state).keyboard_modifiers,
            decreases events.len() - i,
        {
            let action = self.resolve_event(state, term_mode, &events[i]);
            match action {
                InputAction::BackendCall(command) => {
                    commands.push(command);
                },
                InputAction::Ignore => {},
            }
            proof {
                let next = events@.take(i + 1);
                assert(next.drop_last() == events@.take(i as int));
            }
            i += 1;
        }
        proof {
            assert(events@.take(i as int) == events@);
        }
        commands
    }

    /// The drawing of a frame: what `render_cells` draws for the displayed
    /// cells of the snapshot's grid, with the measure of a cell in this
    /// frame and the widget's corner as origin. The displayed cells are in
    /// display order, so there is one fill for each position of the screen.
    /// A grid whose displayed region cannot be walked (see
    /// `grid_displayable`) has no drawing.
    pub fn show(
        &self,
        content: &RenderableContent,
        origin: Pos,
        font_measure: Size,
    ) -> (draws: Option<Vec<DrawCommand>>)
        ensures
            draws is Some <==> grid_displayable(content.grid),
            draws matches Some(list) ==> list@ == spec_draw_cells(
                self.theme,
                origin,
                font_measure,
                grid_display_offset(content.grid) as int,
                content.selectable_range,
                grid_cells(content.grid),
            ),
            draws is Some ==> spec_in_display_order(
                grid_cells(content.grid),
                grid_columns(content.grid),
                grid_screen_lines(content.grid),
                grid_display_offset(content.grid),
            ),
            draws matches Some(list) ==> spec_count_fills(list@) == grid_screen_lines(content.grid)
                * grid_columns(content.grid),
    {
        if !is_displayable(&content.grid) {
            return None;
        }
        let offset = display_offset(&content.grid);
        let cells = display_cells(&content.grid);
        proof {
            lemma_every_cell_is_filled(
                self.theme,
                origin,
                font_measure,
                offset as int,
                content.selectable_range,
                cells@,
            );
        }
        Some(
            render_cells(
                &self.theme,
                origin,
                font_measure,
                offset,
                &content.selectable_range,
                &cells,
            ),
        )
    }
}

/// Whether an event is a key going up.
pub open spec fn spec_is_key_release(event: InputEvent) -> bool {
    event matches InputEvent::Key { pressed: false, .. }
}

/// A key going up never makes a backend call: a queue of nothing but key
/// releases resolves to no call at all and leaves the wheel remainder as it
/// was, whatever the bindings and the terminal mode.
pub proof fn lemma_releases_make_no_call(
    view: TerminalView,
    remainder: int,
    term_mode: TermMode,
    events: Seq<InputEvent>,
)
    requires
        forall|i: int| 0 <= i < events.len() ==> spec_is_key_release(#[trigger] events[i]),
    ensures
        spec_process_input(view, remainder, term_mode, events) == (
            remainder,
            Seq::<CommandView>::empty(),
        ),
    decreases events.len(),
{
    if events.len() > 0 {
        lemma_releases_make_no_call(view, remainder, term_mode, events.drop_last());
    }
}

/// Entered text is written as it is: a text event resolves to the write of
/// its UTF-8 bytes under every binding table and in every terminal mode.
pub proof fn lemma_text_is_written_as_it_is(
    view: TerminalView,
    other: TerminalView,
    remainder: int,
    term_mode: TermMode,
    other_mode: TermMode,
    text: String,
)
    ensures
        spec_resolve_event(view, remainder, term_mode, InputEvent::Text(text)) == (
            remainder,
            spec_write_text(text@),
        ),
        spec_resolve_event(view, remainder, term_mode, InputEvent::Text(text))
            == spec_resolve_event(other, remainder, other_mode, InputEvent::Text(text)),
{
}

/// No event makes more than one backend call: a queue resolves to at most
/// as many calls as it has events.
pub proof fn lemma_one_call_at_most(
    view: TerminalView,
    remainder: int,
    term_mode: TermMode,
    events: Seq<InputEvent>,
)
    ensures
        spec_process_input(view, remainder, term_mode, events).1.len() <= events.len(),
    decreases events.len(),
{
    if events.len() > 0 {
        lemma_one_call_at_most(view, remainder, term_mode, events.drop_last());
    }
}

} // verus!
