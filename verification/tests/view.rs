use egui_term::backend::BackendCommand;
use egui_term::backend::TermMode;
use egui_term::bindings::Binding;
use egui_term::bindings::BindingAction;
use egui_term::bindings::InputKind;
use egui_term::bindings::Key;
use egui_term::bindings::Modifiers;
use egui_term::font::TermFont;
use egui_term::font::DEFAULT_FONT_SIZE;
use egui_term::identity::widget_key;
use egui_term::identity::EGUI_TERM_WIDGET_ID_PREFIX;
use egui_term::input::InputAction;
use egui_term::input::InputEvent;
use egui_term::input::MouseWheelUnit;
use egui_term::input::WheelDelta;
use egui_term::state::TerminalViewState;
use egui_term::theme::TermTheme;
use egui_term::types::saturate_i32;
use egui_term::types::saturate_i64;
use egui_term::types::Rgba;
use egui_term::types::Size;
use egui_term::types::FIXED_ONE;
use egui_term::view::TerminalView;

const KEY_ENTER: Key = Key(9);

fn px(pixels: i32) -> i32 {
    pixels * FIXED_ONE
}

fn mode(bits: u32) -> TermMode {
    TermMode { bits }
}

fn view() -> TerminalView {
    TerminalView::new(7).set_font(TermFont::new(px(10))).add_bindings(vec![(
        Binding {
            target: InputKind::KeyCode(KEY_ENTER),
            modifiers: Modifiers::none(),
            terminal_mode_include: mode(0),
            terminal_mode_exclude: mode(0),
        },
        BindingAction::Char('\r'),
    )])
}

fn pixels(y: i32) -> InputEvent {
    InputEvent::MouseWheel { unit: MouseWheelUnit::Point, delta: WheelDelta { x: 0, y } }
}

fn key(pressed: bool) -> InputEvent {
    InputEvent::Key { key: KEY_ENTER, pressed, modifiers: Modifiers::none() }
}

fn run(
    view: &TerminalView,
    state: &mut TerminalViewState,
    events: Vec<InputEvent>,
) -> Vec<BackendCommand> {
    view.process_input(state, true, mode(0), &events)
}

#[test]
fn new_view_has_the_defaults() {
    let view = TerminalView::new(42);
    assert_eq!(view.backend_id, 42);
    assert_eq!(view.font, TermFont::default());
    assert_eq!(view.font.size, DEFAULT_FONT_SIZE);
    assert_eq!(view.font.size, 14 * FIXED_ONE);
    assert_eq!(view.theme.palette, TermTheme::default().palette);
    assert_eq!(view.theme.fallback, TermTheme::default().fallback);
    assert_eq!(view.bindings_layout.layout.len(), 0);
}

#[test]
fn builders_replace_one_part() {
    let theme = TermTheme { palette: vec![], fallback: Rgba { r: 1, g: 2, b: 3, a: 4 } };
    let view = TerminalView::new(42).set_theme(theme).set_font(TermFont::new(px(20)));
    assert_eq!(view.backend_id, 42);
    assert_eq!(view.font.size, px(20));
    assert_eq!(view.theme.palette.len(), 0);
    assert_eq!(view.theme.fallback, Rgba { r: 1, g: 2, b: 3, a: 4 });
    let view = view.set_font(TermFont::new(px(9)));
    assert_eq!(view.font.size, px(9));
    assert_eq!(view.theme.fallback, Rgba { r: 1, g: 2, b: 3, a: 4 });
}

#[test]
fn widget_key_is_the_prefix_and_the_decimal_identity() {
    assert_eq!(EGUI_TERM_WIDGET_ID_PREFIX, "egui_term::instance::");
    assert_eq!(widget_key(0), "egui_term::instance::0");
    assert_eq!(widget_key(7), "egui_term::instance::7");
    assert_eq!(widget_key(10), "egui_term::instance::10");
    assert_eq!(widget_key(1203), "egui_term::instance::1203");
    assert_eq!(widget_key(u64::MAX), "egui_term::instance::18446744073709551615");
    assert_eq!(TerminalView::new(42).widget_id(), "egui_term::instance::42");
    assert_ne!(TerminalView::new(1).widget_id(), TerminalView::new(10).widget_id());
    assert_eq!(TerminalView::new(5).widget_id(), TerminalView::new(5).widget_id());
}

#[test]
fn default_state_is_blank() {
    assert_eq!(
        TerminalViewState::default(),
        TerminalViewState {
            is_dragged: false,
            is_focused: false,
            scroll_pixels: 0,
            keyboard_modifiers: Modifiers {
                alt: false,
                ctrl: false,
                shift: false,
                mac_cmd: false,
                command: false,
            },
        }
    );
}

#[test]
fn focus_is_requested_on_click_only() {
    let view = view();
    assert!(view.focus(true));
    assert!(!view.focus(false));
}

#[test]
fn resize_is_requested_every_frame() {
    let view = view();
    let size = Size { width: px(640), height: px(480) };
    let cell = Size { width: px(8), height: px(16) };
    for _ in 0..3 {
        assert_eq!(view.resize(size, cell), BackendCommand::Resize(size, cell));
    }
    let other = Size { width: px(641), height: px(480) };
    assert_eq!(view.resize(other, cell), BackendCommand::Resize(other, cell));
    assert_eq!(view.resize(cell, size), BackendCommand::Resize(cell, size));
}

#[test]
fn without_focus_no_event_reaches_the_backend() {
    let view = view();
    let mut state = TerminalViewState::default();
    state.scroll_pixels = px(9);
    let before = state;
    let events = vec![InputEvent::Text("ls".to_string()), key(true), pixels(-px(30))];
    assert_eq!(view.process_input(&mut state, false, mode(0), &events), vec![]);
    assert_eq!(state, before);
    assert_eq!(
        view.process_input(&mut state, true, mode(0), &events),
        vec![
            BackendCommand::Write(b"ls".to_vec()),
            BackendCommand::Write(b"\r".to_vec()),
            BackendCommand::Scroll(3),
        ]
    );
    assert_eq!(state.scroll_pixels, px(9));
}

#[test]
fn events_are_resolved_in_arrival_order() {
    let view = view();
    let mut state = TerminalViewState::default();
    let events = vec![
        key(true),
        key(false),
        InputEvent::MouseMoved,
        InputEvent::Text("a".to_string()),
        pixels(px(10)),
        InputEvent::Other,
        InputEvent::MouseWheel { unit: MouseWheelUnit::Line, delta: WheelDelta { x: 0, y: px(2) } },
        InputEvent::MouseWheel { unit: MouseWheelUnit::Page, delta: WheelDelta { x: 0, y: px(2) } },
        InputEvent::Text("b".to_string()),
    ];
    assert_eq!(
        run(&view, &mut state, events),
        vec![
            BackendCommand::Write(b"\r".to_vec()),
            BackendCommand::Write(b"a".to_vec()),
            BackendCommand::Scroll(-1),
            BackendCommand::Scroll(2),
            BackendCommand::Write(b"b".to_vec()),
        ]
    );
    assert_eq!(run(&view, &mut state, vec![]), vec![]);
}

#[test]
fn key_releases_make_no_call() {
    let view = view();
    let mut state = TerminalViewState::default();
    assert_eq!(run(&view, &mut state, vec![key(false), key(false), key(false)]), vec![]);
    assert_eq!(run(&view, &mut state, vec![key(true), key(false)]).len(), 1);
}

#[test]
fn one_event_resolves_to_one_action() {
    let view = view();
    let mut state = TerminalViewState::default();
    assert_eq!(
        view.resolve_event(&mut state, mode(0), &key(true)),
        InputAction::BackendCall(BackendCommand::Write(b"\r".to_vec()))
    );
    assert_eq!(view.resolve_event(&mut state, mode(0), &key(false)), InputAction::Ignore);
    assert_eq!(view.resolve_event(&mut state, mode(0), &pixels(-px(4))), InputAction::Ignore);
    assert_eq!(state.scroll_pixels, px(4));
    assert_eq!(
        view.resolve_event(&mut state, mode(0), &pixels(-px(6))),
        InputAction::BackendCall(BackendCommand::Scroll(1))
    );
    assert_eq!(state.scroll_pixels, 0);
}

#[test]
fn one_cell_height_is_one_scroll_however_it_is_split() {
    let view = view();
    let splits: Vec<Vec<i32>> = vec![
        vec![px(10)],
        vec![px(5), px(5)],
        vec![px(1), px(2), px(3), px(4)],
        vec![1, px(10) - 1],
        vec![px(10) - 1, 1],
        vec![0, px(3), 0, px(7), 0],
        vec![px(10), 0, 0],
    ];
    for split in &splits {
        let mut state = TerminalViewState::default();
        let down = run(&view, &mut state, split.iter().map(|d| pixels(*d)).collect());
        assert_eq!(down, vec![BackendCommand::Scroll(-1)]);
        assert_eq!(state.scroll_pixels, 0);
        let up = run(&view, &mut state, split.iter().map(|d| pixels(-*d)).collect());
        assert_eq!(up, vec![BackendCommand::Scroll(1)]);
        assert_eq!(state.scroll_pixels, 0);
    }
}

#[test]
fn one_cell_height_is_one_scroll_across_frames() {
    let view = view();
    let mut state = TerminalViewState::default();
    let mut calls = Vec::new();
    for _ in 0..4 {
        calls.extend(run(&view, &mut state, vec![pixels(-px(1)), key(false)]));
        calls.extend(run(&view, &mut state, vec![]));
        calls.extend(run(&view, &mut state, vec![pixels(-px(1)), pixels(-px(1) / 2)]));
    }
    assert_eq!(calls, vec![BackendCommand::Scroll(1)]);
    assert_eq!(state.scroll_pixels, 0);
}

#[test]
fn two_frames_resolve_as_one() {
    let view = view();
    let first = vec![pixels(-px(7)), key(true)];
    let second = vec![pixels(-px(7)), InputEvent::Text("x".to_string()), pixels(px(30))];
    let mut split = TerminalViewState::default();
    let mut calls = run(&view, &mut split, first.clone());
    calls.extend(run(&view, &mut split, second.clone()));
    let mut whole = TerminalViewState::default();
    let mut both = first;
    both.extend(second);
    assert_eq!(run(&view, &mut whole, both), calls);
    assert_eq!(whole, split);
}

#[test]
fn reversed_motion_nets_one_line_in_two_calls() {
    let view = view();
    let mut state = TerminalViewState::default();
    let calls = run(&view, &mut state, vec![pixels(-px(25)), pixels(px(15))]);
    assert_eq!(calls, vec![BackendCommand::Scroll(2), BackendCommand::Scroll(-1)]);
    assert_eq!(state.scroll_pixels, 0);
}

#[test]
fn saturation_limits_to_the_integer_range() {
    assert_eq!(saturate_i32(5), 5);
    assert_eq!(saturate_i32(i32::MAX as i64 + 1), i32::MAX);
    assert_eq!(saturate_i32(i32::MIN as i64 - 1), i32::MIN);
    assert_eq!(saturate_i32(i64::MAX), i32::MAX);
    assert_eq!(saturate_i64(-5), -5);
    assert_eq!(saturate_i64(i64::MAX as i128 + 1), i64::MAX);
    assert_eq!(saturate_i64(i64::MIN as i128 - 1), i64::MIN);
}

#[test]
fn equal_sums_one_way_scroll_alike() {
    let view = view();
    let splits: Vec<Vec<i32>> = vec![
        vec![px(47)],
        vec![px(20), px(27)],
        vec![px(1), px(9), px(10), px(27)],
        vec![px(46), px(1) / 2, px(1) / 2],
        vec![0, px(47), 0],
    ];
    for start in [0, px(3), -px(3), px(10) - 1, 1 - px(10)] {
        for sign in [1, -1] {
            let mut outcomes = Vec::new();
            for split in &splits {
                let mut state = TerminalViewState::default();
                state.scroll_pixels = start;
                let calls = run(&view, &mut state, split.iter().map(|d| pixels(sign * *d)).collect());
                let lines: i32 = calls
                    .iter()
                    .map(|c| match c {
                        BackendCommand::Scroll(lines) => *lines,
                        _ => 0,
                    })
                    .sum();
                outcomes.push((lines, state.scroll_pixels));
            }
            let total = (start - sign * px(47)) as i64;
            let expected = ((total / px(10) as i64) as i32, (total % px(10) as i64) as i32);
            for outcome in &outcomes {
                assert_eq!(*outcome, expected);
            }
        }
    }
}

#[test]
fn a_remainder_of_more_than_a_cell_height_depends_on_the_split() {
    let view = TerminalView::new(7).set_font(TermFont::new(10));
    let mut state = TerminalViewState::default();
    state.scroll_pixels = 25;
    assert_eq!(run(&view, &mut state, vec![pixels(6)]), vec![BackendCommand::Scroll(1)]);
    assert_eq!(state.scroll_pixels, 9);
    state.scroll_pixels = 25;
    assert_eq!(
        run(&view, &mut state, vec![pixels(1), pixels(5)]),
        vec![BackendCommand::Scroll(2)]
    );
    assert_eq!(state.scroll_pixels, -1);
}
