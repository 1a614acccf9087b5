//! What holds of the scroll accumulator over a whole run of wheel events,
//! however the run is cut into frames.

use vstd::prelude::*;
use crate::backend::CommandView;
use crate::backend::TermMode;
use crate::input::lemma_trunc_div_rem;
use crate::input::spec_trunc_div;
use crate::input::spec_trunc_rem;
use crate::input::InputEvent;
use crate::input::MouseWheelUnit;
use crate::view::spec_process_input;
use crate::view::TerminalView;

verus! {

/// Whether an event is a wheel motion counted in pixels.
pub open spec fn spec_is_pixel_wheel(event: InputEvent) -> bool {
    event matches InputEvent::MouseWheel { unit: MouseWheelUnit::Point, .. }
}

/// The vertical motion of a wheel event; nothing for any other event.
pub open spec fn spec_delta_y(event: InputEvent) -> int {
    match event {
        InputEvent::MouseWheel { delta, .. } => delta.y as int,
        _ => 0,
    }
}

/// The vertical wheel motion of a run of events, added up.
pub open spec fn spec_wheel_sum(events: Seq<InputEvent>) -> int
    decreases events.len(),
{
    if events.len() == 0 {
        0
    } else {
        spec_wheel_sum(events.drop_last()) + spec_delta_y(events.last())
    }
}

/// The lines that a command scrolls by; nothing for any other command.
pub open spec fn spec_scroll_lines(command: CommandView) -> int {
    match command {
        CommandView::Scroll(lines) => lines,
        _ => 0,
    }
}

/// The lines that a run of commands scrolls by, added up.
pub open spec fn spec_scroll_total(commands: Seq<CommandView>) -> int
    decreases commands.len(),
{
    if commands.len() == 0 {
        0
    } else {
        spec_scroll_total(commands.drop_last()) + spec_scroll_lines(commands.last())
    }
}

proof fn lemma_trunc_small(a: int, b: int)
    requires
        -b < a < b,
    ensures
        spec_trunc_div(a, b) == 0,
        spec_trunc_rem(a, b) == a,
{
    if a >= 0 {
        assert(a / b == 0) by (nonlinear_arith)
            requires
                0 <= a < b,
        ;
    } else {
        assert((-a) / b == 0) by (nonlinear_arith)
            requires
                0 <= -a < b,
        ;
    }
}

proof fn lemma_trunc_whole(b: int)
    requires
        b > 0,
    ensures
        spec_trunc_div(b, b) == 1,
        spec_trunc_rem(b, b) == 0,
        spec_trunc_div(-b, b) == -1,
        spec_trunc_rem(-b, b) == 0,
{
    vstd::arithmetic::div_mod::lemma_div_by_self(b);
}

/// Two frames resolve to what one frame with both their queues resolves
/// to: the remainder is carried over, and the calls follow one another.
pub proof fn lemma_frames_compose(
    view: TerminalView,
    remainder: int,
    term_mode: TermMode,
    first: Seq<InputEvent>,
    second: Seq<InputEvent>,
)
    ensures
        ({
            let one = spec_process_input(view, remainder, term_mode, first);
            let two = spec_process_input(view, one.0, term_mode, second);
            spec_process_input(view, remainder, term_mode, first + second) == (
                two.0,
                one.1 + two.1,
            )
        }),
    decreases second.len(),
{
    if second.len() > 0 {
        lemma_frames_compose(view, remainder, term_mode, first, second.drop_last());
        assert((first + second).drop_last() == first + second.drop_last());
    }
}

/// Pixel motion is neither lost nor made: the lines scrolled, times the
/// cell height, and the remainder left make up the remainder at the start
/// less the motion of the run. The remainder left is smaller than a cell
/// height. This holds of every run of pixel-granular wheel events in which
/// no line count is limited to the range of `i32`: the cell height is more
/// than one unit, or no delta is the least `i32`.
pub proof fn lemma_motion_is_kept(
    view: TerminalView,
    remainder: int,
    term_mode: TermMode,
    events: Seq<InputEvent>,
)
    requires
        view.font.size > 0,
        -view.font.size < remainder < view.font.size,
        forall|i: int| 0 <= i < events.len() ==> spec_is_pixel_wheel(#[trigger] events[i]),
        view.font.size >= 2 || forall|i: int|
            0 <= i < events.len() ==> spec_delta_y(#[trigger] events[i]) > i32::MIN,
    ensures
        ({
            let run = spec_process_input(view, remainder, term_mode, events);
            &&& view.font.size * spec_scroll_total(run.1) + run.0 == remainder - spec_wheel_sum(
                events,
            )
            &&& -view.font.size < run.0 < view.font.size
        }),
    decreases events.len(),
{
    let height = view.font.size as int;
    if events.len() > 0 {
        let head = events.drop_last();
        lemma_motion_is_kept(view, remainder, term_mode, head);
        let before = spec_process_input(view, remainder, term_mode, head);
        let total = before.0 - spec_delta_y(events.last());
        let whole = spec_trunc_div(total, height);
        lemma_trunc_div_rem(total, height);
        assert(-0x8000_0000 <= whole <= 0x7fff_ffff) by (nonlinear_arith)
            requires
                height > 0,
                -height - 0x7fff_ffff <= total <= height + 0x7fff_ffff,
                height >= 2 || total <= height + 0x7fff_ffff - 1,
                total == height * whole + spec_trunc_rem(total, height),
                -height < spec_trunc_rem(total, height) < height,
                total >= 0 ==> spec_trunc_rem(total, height) >= 0,
                total <= 0 ==> spec_trunc_rem(total, height) <= 0,
        ;
        if whole != 0 {
            let run = spec_process_input(view, remainder, term_mode, events);
            assert(run.1.drop_last() == before.1);
        }
        assert(height * (spec_scroll_total(before.1) + whole) == height * spec_scroll_total(
            before.1,
        ) + height * whole) by (nonlinear_arith);
    }
}

/// Motion of exactly one cell height makes exactly one line, however it is
/// split: from an empty remainder, pixel-granular wheel events whose deltas
/// add up to one cell height, up or down, leave no remainder, and the lines
/// of the calls they resolve to add up to one line against the motion.
/// As in `lemma_motion_is_kept`, no line count may be limited.
pub proof fn lemma_cell_height_is_one_line(
    view: TerminalView,
    term_mode: TermMode,
    events: Seq<InputEvent>,
)
    requires
        view.font.size > 0,
        forall|i: int| 0 <= i < events.len() ==> spec_is_pixel_wheel(#[trigger] events[i]),
        view.font.size >= 2 || forall|i: int|
            0 <= i < events.len() ==> spec_delta_y(#[trigger] events[i]) > i32::MIN,
        spec_wheel_sum(events) == view.font.size || spec_wheel_sum(events) == -view.font.size,
    ensures
        ({
            let run = spec_process_input(view, 0, term_mode, events);
            &&& run.0 == 0
            &&& run.1.len() >= 1
            &&& spec_wheel_sum(events) == view.font.size ==> spec_scroll_total(run.1) == -1
            &&& spec_wheel_sum(events) == -view.font.size ==> spec_scroll_total(run.1) == 1
        }),
{
    lemma_motion_is_kept(view, 0, term_mode, events);
    let run = spec_process_input(view, 0, term_mode, events);
    let height = view.font.size as int;
    let lines = spec_scroll_total(run.1);
    let sum = spec_wheel_sum(events);
    assert(run.0 == 0 && (sum == height ==> lines == -1) && (sum == -height ==> lines == 1))
        by (nonlinear_arith)
        requires
            height > 0,
            height * lines + run.0 == -sum,
            -height < run.0 < height,
            sum == height || sum == -height,
    ;
}

/// Motion of one cell height in one direction makes exactly one call. From
/// an empty remainder, pixel-granular wheel events that all move down (no
/// delta below zero) resolve to no call while their deltas add up to less
/// than a cell height, and to the single call `Scroll(-1)`, with no
/// remainder, once they add up to exactly one.
pub proof fn lemma_down_by_cell_height(
    view: TerminalView,
    term_mode: TermMode,
    events: Seq<InputEvent>,
)
    requires
        view.font.size > 0,
        forall|i: int| 0 <= i < events.len() ==> spec_is_pixel_wheel(#[trigger] events[i]),
        forall|i: int| 0 <= i < events.len() ==> spec_delta_y(#[trigger] events[i]) >= 0,
        spec_wheel_sum(events) <= view.font.size,
    ensures
        0 <= spec_wheel_sum(events),
        spec_wheel_sum(events) < view.font.size ==> spec_process_input(
            view,
            0,
            term_mode,
            events,
        ) == (-spec_wheel_sum(events), Seq::<CommandView>::empty()),
        spec_wheel_sum(events) == view.font.size ==> spec_process_input(
            view,
            0,
            term_mode,
            events,
        ) == (0int, seq![CommandView::Scroll(-1)]),
    decreases events.len(),
{
    let height = view.font.size as int;
    if events.len() > 0 {
        let head = events.drop_last();
        lemma_nonnegative_sum(head);
        lemma_down_by_cell_height(view, term_mode, head);
        let before = spec_process_input(view, 0, term_mode, head);
        let total = before.0 - spec_delta_y(events.last());
        if spec_wheel_sum(head) < height {
            if spec_wheel_sum(events) < height {
                lemma_trunc_small(total, height);
            } else {
                lemma_trunc_whole(height);
                assert(Seq::<CommandView>::empty().push(CommandView::Scroll(-1))
                    == seq![CommandView::Scroll(-1)]);
            }
        } else {
            lemma_trunc_small(total, height);
        }
    }
}

/// The mirror of `lemma_down_by_cell_height`: events that all move up (no
/// delta above zero) resolve to the single call `Scroll(1)` once their
/// deltas add up to exactly one cell height.
pub proof fn lemma_up_by_cell_height(
    view: TerminalView,
    term_mode: TermMode,
    events: Seq<InputEvent>,
)
    requires
        view.font.size > 0,
        forall|i: int| 0 <= i < events.len() ==> spec_is_pixel_wheel(#[trigger] events[i]),
        forall|i: int| 0 <= i < events.len() ==> spec_delta_y(#[trigger] events[i]) <= 0,
        -view.font.size <= spec_wheel_sum(events),
    ensures
        spec_wheel_sum(events) <= 0,
        -view.font.size < spec_wheel_sum(events) ==> spec_process_input(
            view,
            0,
            term_mode,
            events,
        ) == (-spec_wheel_sum(events), Seq::<CommandView>::empty()),
        spec_wheel_sum(events) == -view.font.size ==> spec_process_input(
            view,
            0,
            term_mode,
            events,
        ) == (0int, seq![CommandView::Scroll(1)]),
    decreases events.len(),
{
    let height = view.font.size as int;
    if events.len() > 0 {
        let head = events.drop_last();
        lemma_nonpositive_sum(head);
        lemma_up_by_cell_height(view, term_mode, head);
        let before = spec_process_input(view, 0, term_mode, head);
        let total = before.0 - spec_delta_y(events.last());
        if -height < spec_wheel_sum(head) {
            if -height < spec_wheel_sum(events) {
                lemma_trunc_small(total, height);
            } else {
                lemma_trunc_whole(height);
                assert(Seq::<CommandView>::empty().push(CommandView::Scroll(1))
                    == seq![CommandView::Scroll(1)]);
            }
        } else {
            lemma_trunc_small(total, height);
        }
    }
}

proof fn lemma_nonnegative_sum(events: Seq<InputEvent>)
    requires
        forall|i: int| 0 <= i < events.len() ==> spec_delta_y(#[trigger] events[i]) >= 0,
    ensures
        spec_wheel_sum(events) >= 0,
    decreases events.len(),
{
    if events.len() > 0 {
        lemma_nonnegative_sum(events.drop_last());
    }
}

proof fn lemma_nonpositive_sum(events: Seq<InputEvent>)
    requires
        forall|i: int| 0 <= i < events.len() ==> spec_delta_y(#[trigger] events[i]) <= 0,
    ensures
        spec_wheel_sum(events) <= 0,
    decreases events.len(),
{
    if events.len() > 0 {
        lemma_nonpositive_sum(events.drop_last());
    }
}

/// Whether a run of events moves the wheel one way only: no delta is below
/// zero, or none is above.
pub open spec fn spec_one_way(events: Seq<InputEvent>) -> bool {
    ||| forall|i: int| 0 <= i < events.len() ==> spec_delta_y(#[trigger] events[i]) >= 0
    ||| forall|i: int| 0 <= i < events.len() ==> spec_delta_y(#[trigger] events[i]) <= 0
}

proof fn lemma_trunc_is_unique(x: int, b: int, quotient: int, rest: int)
    requires
        b > 0,
        x == b * quotient + rest,
        -b < rest < b,
        x >= 0 ==> rest >= 0,
        x <= 0 ==> rest <= 0,
    ensures
        quotient == spec_trunc_div(x, b),
        rest == spec_trunc_rem(x, b),
{
    lemma_trunc_div_rem(x, b);
    let q = spec_trunc_div(x, b);
    let r = spec_trunc_rem(x, b);
    assert(quotient == q) by (nonlinear_arith)
        requires
            b > 0,
            b * quotient + rest == b * q + r,
            -b < rest - r < b,
    ;
}

proof fn lemma_step_follows_the_sum(
    view: TerminalView,
    remainder: int,
    term_mode: TermMode,
    events: Seq<InputEvent>,
    down: bool,
)
    requires
        view.font.size > 0,
        -view.font.size < remainder < view.font.size,
        forall|i: int| 0 <= i < events.len() ==> spec_is_pixel_wheel(#[trigger] events[i]),
        down ==> forall|i: int|
            0 <= i < events.len() ==> spec_delta_y(#[trigger] events[i]) >= 0,
        !down ==> forall|i: int|
            0 <= i < events.len() ==> spec_delta_y(#[trigger] events[i]) <= 0,
        view.font.size >= 2 || forall|i: int|
            0 <= i < events.len() ==> spec_delta_y(#[trigger] events[i]) > i32::MIN,
    ensures
        ({
            let run = spec_process_input(view, remainder, term_mode, events);
            let moved = remainder - spec_wheel_sum(events);
            &&& run.0 == spec_trunc_rem(moved, view.font.size as int)
            &&& spec_scroll_total(run.1) == spec_trunc_div(moved, view.font.size as int)
        }),
    decreases events.len(),
{
    let height = view.font.size as int;
    if events.len() == 0 {
        lemma_trunc_small(remainder, height);
    } else {
        let head = events.drop_last();
        lemma_step_follows_the_sum(view, remainder, term_mode, head, down);
        if down {
            lemma_nonnegative_sum(head);
        } else {
            lemma_nonpositive_sum(head);
        }
        let before = spec_process_input(view, remainder, term_mode, head);
        let moved_before = remainder - spec_wheel_sum(head);
        let delta = spec_delta_y(events.last());
        let total = before.0 - delta;
        let whole = spec_trunc_div(total, height);
        let rest = spec_trunc_rem(total, height);
        lemma_trunc_div_rem(moved_before, height);
        lemma_trunc_div_rem(total, height);
        assert(-0x8000_0000 <= whole <= 0x7fff_ffff) by (nonlinear_arith)
            requires
                height > 0,
                -height - 0x7fff_ffff <= total <= height + 0x7fff_ffff,
                height >= 2 || total <= height + 0x7fff_ffff - 1,
                total == height * whole + rest,
                -height < rest < height,
                total >= 0 ==> rest >= 0,
                total <= 0 ==> rest <= 0,
        ;
        if whole != 0 {
            let run = spec_process_input(view, remainder, term_mode, events);
            assert(run.1.drop_last() == before.1);
        }
        if (down && moved_before > 0) || (!down && moved_before < 0) {
            lemma_trunc_small(moved_before, height);
        } else {
            let lines = spec_scroll_total(before.1);
            assert(moved_before - delta == height * (lines + whole) + rest) by (nonlinear_arith)
                requires
                    moved_before == height * lines + before.0,
                    before.0 - delta == height * whole + rest,
            ;
            lemma_trunc_is_unique(moved_before - delta, height, lines + whole, rest);
        }
    }
}

/// Motion one way depends on its sum alone. From a remainder smaller than a
/// cell height, pixel-granular wheel events that all move one way scroll,
/// all calls together, by the whole cell heights in the remainder less
/// their sum, and leave the rest of it, however the sum is split into
/// events. As in `lemma_motion_is_kept`, no line count may be limited.
pub proof fn lemma_one_way_motion_is_its_sum(
    view: TerminalView,
    remainder: int,
    term_mode: TermMode,
    events: Seq<InputEvent>,
)
    requires
        view.font.size > 0,
        -view.font.size < remainder < view.font.size,
        forall|i: int| 0 <= i < events.len() ==> spec_is_pixel_wheel(#[trigger] events[i]),
        spec_one_way(events),
        view.font.size >= 2 || forall|i: int|
            0 <= i < events.len() ==> spec_delta_y(#[trigger] events[i]) > i32::MIN,
    ensures
        ({
            let run = spec_process_input(view, remainder, term_mode, events);
            let moved = remainder - spec_wheel_sum(events);
            &&& run.0 == spec_trunc_rem(moved, view.font.size as int)
            &&& spec_scroll_total(run.1) == spec_trunc_div(moved, view.font.size as int)
        }),
{
    if forall|i: int| 0 <= i < events.len() ==> spec_delta_y(#[trigger] events[i]) >= 0 {
        lemma_step_follows_the_sum(view, remainder, term_mode, events, true);
    } else {
        lemma_step_follows_the_sum(view, remainder, term_mode, events, false);
    }
}

/// Equal sums scroll alike. From one remainder smaller than a cell height,
/// two runs of pixel-granular wheel events, each moving one way, whose
/// deltas add up to the same sum scroll by the same number of lines, all
/// calls together, and leave the same remainder.
pub proof fn lemma_equal_sums_scroll_alike(
    view: TerminalView,
    remainder: int,
    term_mode: TermMode,
    first: Seq<InputEvent>,
    second: Seq<InputEvent>,
)
    requires
        view.font.size > 0,
        -view.font.size < remainder < view.font.size,
        forall|i: int| 0 <= i < first.len() ==> spec_is_pixel_wheel(#[trigger] first[i]),
        forall|i: int| 0 <= i < second.len() ==> spec_is_pixel_wheel(#[trigger] second[i]),
        spec_one_way(first),
        spec_one_way(second),
        view.font.size >= 2 || forall|i: int|
            0 <= i < first.len() ==> spec_delta_y(#[trigger] first[i]) > i32::MIN,
        view.font.size >= 2 || forall|i: int|
            0 <= i < second.len() ==> spec_delta_y(#[trigger] second[i]) > i32::MIN,
        spec_wheel_sum(first) == spec_wheel_sum(second),
    ensures
        ({
            let one = spec_process_input(view, remainder, term_mode, first);
            let two = spec_process_input(view, remainder, term_mode, second);
            &&& one.0 == two.0
            &&& spec_scroll_total(one.1) == spec_scroll_total(two.1)
        }),
{
    lemma_one_way_motion_is_its_sum(view, remainder, term_mode, first);
    lemma_one_way_motion_is_its_sum(view, remainder, term_mode, second);
}

} // verus!
