//! The input resolver: from one input event to at most one backend call.

use vstd::prelude::*;
use vstd::utf8::encode_utf8;
use crate::backend::BackendCommand;
use crate::backend::CommandView;
use crate::backend::TermMode;
use crate::bindings::BindingAction;
use crate::bindings::BindingActionView;
use crate::bindings::BindingsLayout;
use crate::bindings::InputKind;
use crate::bindings::Key;
use crate::bindings::Modifiers;
use crate::bindings::PointerButton;
use crate::bindings::spec_lookup;
use crate::state::TerminalViewState;
use crate::types::clamp_i32;
use crate::types::saturate_i32;
use crate::types::FIXED_ONE;

verus! {

/// What the deltas of a wheel event count.
#[derive(Clone, Copy, Debug, PartialEq, Eq, Structural)]
pub enum MouseWheelUnit {
    /// Fixed-point pixels.
    Point,
    /// Fixed-point lines.
    Line,
    /// Pages.
    Page,
}

/// The motion of a wheel event, in fixed-point units of its
/// [`MouseWheelUnit`].
#[derive(Clone, Copy, Debug, PartialEq, Eq, Structural)]
pub struct WheelDelta {
    pub x: i32,
    pub y: i32,
}

/// One input event of a frame.
#[derive(Debug, PartialEq, Eq)]
pub enum InputEvent {
    /// Text was entered.
    Text(String),
    /// A key went down or up.
    Key { key: Key, pressed: bool, modifiers: Modifiers },
    /// The wheel moved.
    MouseWheel { unit: MouseWheelUnit, delta: WheelDelta },
    /// A pointer button went down or up.
    PointerButton { button: PointerButton, pressed: bool, modifiers: Modifiers },
    /// The pointer moved.
    MouseMoved,
    /// Any other event.
    Other,
}

/// What an input event resolves to.
#[derive(Debug, PartialEq, Eq)]
pub enum InputAction {
    BackendCall(BackendCommand),
    Ignore,
}

impl Clone for InputEvent {
    fn clone(&self) -> (copy: InputEvent)
        ensures
            copy == *self,
    {
        match self {
            InputEvent::Text(text) => InputEvent::Text(text.clone()),
            InputEvent::Key { key, pressed, modifiers } => InputEvent::Key {
                key: *key,
                pressed: *pressed,
                modifiers: *modifiers,
            },
            InputEvent::MouseWheel { unit, delta } => InputEvent::MouseWheel {
                unit: *unit,
                delta: *delta,
            },
            InputEvent::PointerButton { button, pressed, modifiers } => InputEvent::PointerButton {
                button: *button,
                pressed: *pressed,
                modifiers: *modifiers,
            },
            InputEvent::MouseMoved => InputEvent::MouseMoved,
            InputEvent::Other => InputEvent::Other,
        }
    }
}

impl Clone for InputAction {
    fn clone(&self) -> (copy: InputAction)
        ensures
            copy@ == self@,
    {
        match self {
            InputAction::BackendCall(command) => InputAction::BackendCall(command.clone()),
            InputAction::Ignore => InputAction::Ignore,
        }
    }
}

/// The mathematical value of an [`InputAction`].
pub enum ActionView {
    BackendCall(CommandView),
    Ignore,
}

impl View for InputAction {
    type V = ActionView;

    open spec fn view(&self) -> ActionView {
        match self {
            InputAction::BackendCall(command) => ActionView::BackendCall(command@),
            InputAction::Ignore => ActionView::Ignore,
        }
    }
}

/// The write of the UTF-8 bytes of some text.
pub open spec fn spec_write_text(text: Seq<char>) -> ActionView {
    ActionView::BackendCall(CommandView::Write(encode_utf8(text)))
}

/// What the action of a binding resolves to.
pub open spec fn spec_binding_action(action: BindingActionView) -> ActionView {
    match action {
        BindingActionView::Char(c) => spec_write_text(seq![c]),
        BindingActionView::Esc(sequence) => ActionView::BackendCall(CommandView::Write(sequence)),
        BindingActionView::Ignore => ActionView::Ignore,
    }
}

/// What a keyboard event resolves to. Text is written as it is, whatever
/// the bindings and the mode; a key counts when it goes down, and resolves
/// through the binding table in the given mode; nothing else acts.
pub open spec fn spec_handle_keyboard_event(
    event: InputEvent,
    bindings: BindingsLayout,
    term_mode: TermMode,
) -> ActionView {
    match event {
        InputEvent::Text(text) => spec_write_text(text@),
        InputEvent::Key { key, pressed, modifiers } => if pressed {
            spec_binding_action(
                spec_lookup(bindings.layout@, InputKind::KeyCode(key), modifiers, term_mode),
            )
        } else {
            ActionView::Ignore
        },
        _ => ActionView::Ignore,
    }
}

/// Calls `char::encode_utf8` on a buffer of four bytes and copies the part
/// that it filled. Trusted: that part is the UTF-8 encoding of the
/// character.
#[verifier::external_body]
fn encode_char(c: char) -> (bytes: Vec<u8>)
    ensures
        bytes@ == encode_utf8(seq![c]),
{
    let mut buffer = [0u8; 4];
    c.encode_utf8(&mut buffer).as_bytes().to_vec()
}

/// Resolves the action of a binding.
pub fn resolve_binding(action: BindingAction) -> (resolved: InputAction)
    ensures
        resolved@ == spec_binding_action(action@),
{
    match action {
        BindingAction::Char(c) => InputAction::BackendCall(BackendCommand::Write(encode_char(c))),
        BindingAction::Esc(sequence) => InputAction::BackendCall(BackendCommand::Write(sequence)),
        BindingAction::Ignore => InputAction::Ignore,
    }
}

/// Resolves one keyboard event.
pub fn handle_keyboard_event(
    event: &InputEvent,
    bindings_layout: &BindingsLayout,
    term_mode: TermMode,
) -> (action: InputAction)
    ensures
        action@ == spec_handle_keyboard_event(*event, *bindings_layout, term_mode),
        event matches InputEvent::Text(text) ==> action@ == spec_write_text(text@),
        event matches InputEvent::Key { pressed: false, .. } ==> action@ == ActionView::Ignore,
{
    match event {
        InputEvent::Text(text) => {
            InputAction::BackendCall(BackendCommand::Write(text.as_str().as_bytes_vec()))
        },
        InputEvent::Key { key, pressed, modifiers } => {
            if !*pressed {
                return InputAction::Ignore;
            }
            resolve_binding(
                bindings_layout.get_action(InputKind::KeyCode(*key), *modifiers, term_mode),
            )
        },
        _ => InputAction::Ignore,
    }
}

/// The quotient of `a` by a positive `b`, rounded towards zero.
pub open spec fn spec_trunc_div(a: int, b: int) -> int {
    if a >= 0 {
        a / b
    } else {
        -((-a) / b)
    }
}

/// What `spec_trunc_div` leaves: `a` less the whole multiples of `b` in it.
pub open spec fn spec_trunc_rem(a: int, b: int) -> int {
    a - b * spec_trunc_div(a, b)
}

/// The lines of a line-granular wheel motion: its magnitude rounded up to
/// whole lines, with its sign.
pub open spec fn spec_line_count(delta_y: int) -> int {
    if delta_y > 0 {
        (delta_y + (FIXED_ONE - 1)) / (FIXED_ONE as int)
    } else if delta_y < 0 {
        -((-delta_y + (FIXED_ONE - 1)) / (FIXED_ONE as int))
    } else {
        0
    }
}

/// The scroll of `lines` lines, or nothing for no line.
pub open spec fn spec_scroll_action(lines: int) -> ActionView {
    if lines != 0 {
        ActionView::BackendCall(CommandView::Scroll(lines))
    } else {
        ActionView::Ignore
    }
}

/// The lines that a wheel event scrolls by. Pixel motion is taken off the
/// remainder, and the whole cell heights in the result are the lines
/// (limited to the range of `i32`); without a positive cell height there
/// are none.
pub open spec fn spec_wheel_lines(
    remainder: int,
    cell_height: int,
    unit: MouseWheelUnit,
    delta_y: int,
) -> int {
    match unit {
        MouseWheelUnit::Line => spec_line_count(delta_y),
        MouseWheelUnit::Point => if cell_height > 0 {
            clamp_i32(spec_trunc_div(remainder - delta_y, cell_height))
        } else {
            0
        },
        MouseWheelUnit::Page => 0,
    }
}

/// The remainder that a wheel event leaves.
pub open spec fn spec_wheel_remainder(
    remainder: int,
    cell_height: int,
    unit: MouseWheelUnit,
    delta_y: int,
) -> int {
    match unit {
        MouseWheelUnit::Point => if cell_height > 0 {
            spec_trunc_rem(remainder - delta_y, cell_height)
        } else {
            remainder
        },
        _ => remainder,
    }
}

fn line_count(delta_y: i32) -> (lines: i32)
    ensures
        lines == spec_line_count(delta_y as int),
{
    let d = delta_y as i64;
    if d > 0 {
        ((d + (FIXED_ONE as i64 - 1)) / (FIXED_ONE as i64)) as i32
    } else if d < 0 {
        (-((-d + (FIXED_ONE as i64 - 1)) / (FIXED_ONE as i64))) as i32
    } else {
        0
    }
}

/// Resolves one wheel event, and keeps in the state the motion that has not
/// made a whole line yet.
pub fn handle_mouse_wheel(
    state: &mut TerminalViewState,
    font_size: i32,
    unit: MouseWheelUnit,
    delta: WheelDelta,
) -> (action: InputAction)
    ensures
        action@ == spec_scroll_action(
            spec_wheel_lines(
                old(state).scroll_pixels as int,
                font_size as int,
                unit,
                delta.y as int,
            ),
        ),
        final(state).scroll_pixels == spec_wheel_remainder(
            old(state).scroll_pixels as int,
            font_size as int,
            unit,
            delta.y as int,
        ),
        final(state).is_dragged == old(state).is_dragged,
        final(state).is_focused == old(state).is_focused,
        final(state).keyboard_modifiers == old(state).keyboard_modifiers,
{
    let lines = match unit {
        MouseWheelUnit::Line => line_count(delta.y),
        MouseWheelUnit::Point => {
            if font_size > 0 {
                let total = state.scroll_pixels as i64 - delta.y as i64;
                let height = font_size as i64;
                let whole = total / height;
                let rest = total % height;
                proof {
                    lemma_trunc_div_rem(total as int, height as int);
                }
                state.scroll_pixels = rest as i32;
                saturate_i32(whole)
            } else {
                0
            }
        },
        MouseWheelUnit::Page => 0,
    };
    if lines != 0 {
        InputAction::BackendCall(BackendCommand::Scroll(lines))
    } else {
        InputAction::Ignore
    }
}

/// Division towards zero: the rest is smaller than the divisor and has the
/// sign of the dividend.
pub proof fn lemma_trunc_div_rem(a: int, b: int)
    requires
        b > 0,
    ensures
        a == b * spec_trunc_div(a, b) + spec_trunc_rem(a, b),
        -b < spec_trunc_rem(a, b) < b,
        a >= 0 ==> spec_trunc_rem(a, b) >= 0 && spec_trunc_rem(a, b) == a % b,
        a <= 0 ==> spec_trunc_rem(a, b) <= 0 && spec_trunc_rem(a, b) == -((-a) % b),
{
    if a >= 0 {
        vstd::arithmetic::div_mod::lemma_fundamental_div_mod(a, b);
        vstd::arithmetic::div_mod::lemma_mod_bound(a, b);
    } else {
        vstd::arithmetic::div_mod::lemma_fundamental_div_mod(-a, b);
        vstd::arithmetic::div_mod::lemma_mod_bound(-a, b);
        assert(b * (-((-a) / b)) == -(b * ((-a) / b))) by (nonlinear_arith);
    }
}

/// The line count of a line-granular motion is its magnitude rounded up to
/// whole lines, with its sign: one line less would not hold the motion.
pub proof fn lemma_line_count_rounds_up(delta_y: int)
    ensures
        delta_y > 0 ==> (spec_line_count(delta_y) - 1) * FIXED_ONE < delta_y <= spec_line_count(
            delta_y,
        ) * FIXED_ONE,
        delta_y < 0 ==> spec_line_count(delta_y) * FIXED_ONE <= delta_y < (spec_line_count(delta_y)
            + 1) * FIXED_ONE,
        delta_y == 0 <==> spec_line_count(delta_y) == 0,
{
}

} // verus!
