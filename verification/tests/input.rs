use egui_term::backend::BackendCommand;
use egui_term::backend::TermMode;
use egui_term::bindings::Binding;
use egui_term::bindings::BindingAction;
use egui_term::bindings::BindingsLayout;
use egui_term::bindings::InputKind;
use egui_term::bindings::Key;
use egui_term::bindings::Modifiers;
use egui_term::bindings::PointerButton;
use egui_term::input::handle_keyboard_event;
use egui_term::input::handle_mouse_wheel;
use egui_term::input::resolve_binding;
use egui_term::input::InputAction;
use egui_term::input::InputEvent;
use egui_term::input::MouseWheelUnit;
use egui_term::input::WheelDelta;
use egui_term::state::TerminalViewState;
use egui_term::types::FIXED_ONE;

const APP_CURSOR: u32 = 2;
const ALT_SCREEN: u32 = 1 << 12;
const KEY_UP: Key = Key(3);
const KEY_ENTER: Key = Key(9);
const KEY_A: Key = Key(40);

fn px(pixels: i32) -> i32 {
    pixels * FIXED_ONE
}

fn ctrl() -> Modifiers {
    Modifiers { alt: false, ctrl: true, shift: false, mac_cmd: false, command: false }
}

fn mode(bits: u32) -> TermMode {
    TermMode { bits }
}

fn binding(key: Key, modifiers: Modifiers, needs: u32, forbids: u32) -> Binding {
    Binding {
        target: InputKind::KeyCode(key),
        modifiers,
        terminal_mode_include: mode(needs),
        terminal_mode_exclude: mode(forbids),
    }
}

fn table() -> BindingsLayout {
    let mut bindings = BindingsLayout::new();
    bindings.add_bindings(vec![
        (
            binding(KEY_UP, Modifiers::none(), APP_CURSOR, 0),
            BindingAction::Esc(b"\x1bOA".to_vec()),
        ),
        (
            binding(KEY_UP, Modifiers::none(), 0, APP_CURSOR),
            BindingAction::Esc(b"\x1b[A".to_vec()),
        ),
        (binding(KEY_ENTER, Modifiers::none(), 0, 0), BindingAction::Char('\r')),
        (binding(KEY_ENTER, Modifiers::none(), 0, 0), BindingAction::Char('\n')),
        (binding(KEY_A, ctrl(), 0, 0), BindingAction::Char('\u{1}')),
        (binding(KEY_A, Modifiers::none(), 0, 0), BindingAction::Ignore),
    ]);
    bindings
}

fn press(key: Key, modifiers: Modifiers) -> InputEvent {
    InputEvent::Key { key, pressed: true, modifiers }
}

fn release(key: Key, modifiers: Modifiers) -> InputEvent {
    InputEvent::Key { key, pressed: false, modifiers }
}

fn write(bytes: &[u8]) -> InputAction {
    InputAction::BackendCall(BackendCommand::Write(bytes.to_vec()))
}

fn scroll(lines: i32) -> InputAction {
    InputAction::BackendCall(BackendCommand::Scroll(lines))
}

fn wheel(state: &mut TerminalViewState, height: i32, unit: MouseWheelUnit, y: i32) -> InputAction {
    handle_mouse_wheel(state, height, unit, WheelDelta { x: 0, y })
}

#[test]
fn text_is_written_as_utf8_in_every_mode() {
    let bindings = table();
    for bits in [0, APP_CURSOR, ALT_SCREEN, u32::MAX] {
        let text = InputEvent::Text("aé€😀".to_string());
        let action = handle_keyboard_event(&text, &bindings, mode(bits));
        assert_eq!(
            action,
            write(&[0x61, 0xc3, 0xa9, 0xe2, 0x82, 0xac, 0xf0, 0x9f, 0x98, 0x80])
        );
    }
    assert_eq!(
        handle_keyboard_event(&InputEvent::Text("\r".to_string()), &BindingsLayout::new(), mode(0)),
        write(b"\r")
    );
}

#[test]
fn empty_text_is_an_empty_write() {
    let action = handle_keyboard_event(&InputEvent::Text(String::new()), &table(), mode(0));
    assert_eq!(action, write(b""));
}

#[test]
fn key_release_is_ignored() {
    let bindings = table();
    for bits in [0, APP_CURSOR] {
        assert_eq!(
            handle_keyboard_event(&release(KEY_UP, Modifiers::none()), &bindings, mode(bits)),
            InputAction::Ignore
        );
        assert_eq!(
            handle_keyboard_event(&release(KEY_ENTER, Modifiers::none()), &bindings, mode(bits)),
            InputAction::Ignore
        );
        assert_eq!(
            handle_keyboard_event(&release(KEY_A, ctrl()), &bindings, mode(bits)),
            InputAction::Ignore
        );
    }
}

#[test]
fn key_press_resolves_by_terminal_mode() {
    let bindings = table();
    let up = press(KEY_UP, Modifiers::none());
    assert_eq!(handle_keyboard_event(&up, &bindings, mode(0)), write(b"\x1b[A"));
    assert_eq!(handle_keyboard_event(&up, &bindings, mode(ALT_SCREEN)), write(b"\x1b[A"));
    assert_eq!(handle_keyboard_event(&up, &bindings, mode(APP_CURSOR)), write(b"\x1bOA"));
    assert_eq!(
        handle_keyboard_event(&up, &bindings, mode(APP_CURSOR | ALT_SCREEN)),
        write(b"\x1bOA")
    );
}

#[test]
fn key_press_resolves_by_exact_modifiers() {
    let bindings = table();
    assert_eq!(handle_keyboard_event(&press(KEY_A, ctrl()), &bindings, mode(0)), write(&[1]));
    assert_eq!(
        handle_keyboard_event(&press(KEY_A, Modifiers::none()), &bindings, mode(0)),
        InputAction::Ignore
    );
    let mut more = ctrl();
    more.shift = true;
    assert_eq!(
        handle_keyboard_event(&press(KEY_A, more), &bindings, mode(0)),
        InputAction::Ignore
    );
    assert_eq!(
        handle_keyboard_event(&press(KEY_UP, ctrl()), &bindings, mode(0)),
        InputAction::Ignore
    );
}

#[test]
fn first_binding_that_applies_wins() {
    let bindings = table();
    assert_eq!(
        handle_keyboard_event(&press(KEY_ENTER, Modifiers::none()), &bindings, mode(0)),
        write(b"\r")
    );
    assert_eq!(
        bindings.get_action(InputKind::KeyCode(KEY_ENTER), Modifiers::none(), mode(0)),
        BindingAction::Char('\r')
    );
}

#[test]
fn unbound_key_is_ignored() {
    assert_eq!(
        handle_keyboard_event(&press(Key(77), Modifiers::none()), &table(), mode(0)),
        InputAction::Ignore
    );
    assert_eq!(
        handle_keyboard_event(&press(KEY_UP, Modifiers::none()), &BindingsLayout::new(), mode(0)),
        InputAction::Ignore
    );
    assert_eq!(
        table().get_action(InputKind::Mouse(PointerButton::Primary), Modifiers::none(), mode(0)),
        BindingAction::Ignore
    );
}

#[test]
fn a_binding_needs_all_included_flags_and_none_excluded() {
    let one = binding(KEY_UP, Modifiers::none(), 0b0110, 0b1000);
    let key = InputKind::KeyCode(KEY_UP);
    assert!(one.is_triggered(key, Modifiers::none(), mode(0b0110)));
    assert!(one.is_triggered(key, Modifiers::none(), mode(0b0111)));
    assert!(!one.is_triggered(key, Modifiers::none(), mode(0b0100)));
    assert!(!one.is_triggered(key, Modifiers::none(), mode(0b1110)));
    assert!(!one.is_triggered(InputKind::KeyCode(KEY_A), Modifiers::none(), mode(0b0110)));
    assert!(mode(0b0110).contains(mode(0b0100)));
    assert!(mode(0b0110).contains(mode(0)));
    assert!(!mode(0b0110).contains(mode(0b0101)));
    assert!(mode(0b0110).intersects(mode(0b0101)));
    assert!(!mode(0b0110).intersects(mode(0b1001)));
    assert_eq!(TermMode::empty(), mode(0));
}

#[test]
fn other_events_resolve_to_nothing() {
    let bindings = table();
    let events = [
        InputEvent::MouseMoved,
        InputEvent::Other,
        InputEvent::PointerButton {
            button: PointerButton::Primary,
            pressed: true,
            modifiers: Modifiers::none(),
        },
        InputEvent::MouseWheel { unit: MouseWheelUnit::Line, delta: WheelDelta { x: 0, y: px(1) } },
    ];
    for event in &events {
        assert_eq!(handle_keyboard_event(event, &bindings, mode(0)), InputAction::Ignore);
    }
}

#[test]
fn binding_actions_resolve_to_writes() {
    assert_eq!(resolve_binding(BindingAction::Char('a')), write(b"a"));
    assert_eq!(resolve_binding(BindingAction::Char('é')), write(&[0xc3, 0xa9]));
    assert_eq!(resolve_binding(BindingAction::Char('€')), write(&[0xe2, 0x82, 0xac]));
    assert_eq!(resolve_binding(BindingAction::Char('😀')), write(&[0xf0, 0x9f, 0x98, 0x80]));
    assert_eq!(resolve_binding(BindingAction::Char('\u{0}')), write(&[0]));
    assert_eq!(resolve_binding(BindingAction::Esc(vec![0x1b, 0x5b, 0x41])), write(b"\x1b[A"));
    assert_eq!(resolve_binding(BindingAction::Esc(vec![0xff, 0x00])), write(&[0xff, 0x00]));
    assert_eq!(resolve_binding(BindingAction::Ignore), InputAction::Ignore);
}

#[test]
fn add_bindings_appends_in_order() {
    let mut bindings = BindingsLayout::new();
    assert_eq!(bindings.layout.len(), 0);
    bindings
        .add_bindings(vec![(binding(KEY_A, Modifiers::none(), 0, 0), BindingAction::Char('1'))]);
    bindings.add_bindings(vec![
        (binding(KEY_A, Modifiers::none(), 0, 0), BindingAction::Char('2')),
        (binding(KEY_UP, Modifiers::none(), 0, 0), BindingAction::Char('3')),
    ]);
    assert_eq!(bindings.layout.len(), 3);
    assert_eq!(
        bindings.get_action(InputKind::KeyCode(KEY_A), Modifiers::none(), mode(0)),
        BindingAction::Char('1')
    );
    assert_eq!(
        bindings.get_action(InputKind::KeyCode(KEY_UP), Modifiers::none(), mode(0)),
        BindingAction::Char('3')
    );
}

#[test]
fn line_wheel_rounds_up_to_whole_lines() {
    let mut state = TerminalViewState::default();
    state.scroll_pixels = 5;
    let line = MouseWheelUnit::Line;
    assert_eq!(wheel(&mut state, px(14), line, px(1)), scroll(1));
    assert_eq!(wheel(&mut state, px(14), line, px(3)), scroll(3));
    assert_eq!(wheel(&mut state, px(14), line, px(1) / 2), scroll(1));
    assert_eq!(wheel(&mut state, px(14), line, 1), scroll(1));
    assert_eq!(wheel(&mut state, px(14), line, px(2) + 1), scroll(3));
    assert_eq!(wheel(&mut state, px(14), line, -px(1)), scroll(-1));
    assert_eq!(wheel(&mut state, px(14), line, -1), scroll(-1));
    assert_eq!(wheel(&mut state, px(14), line, -px(2) - px(1) / 4), scroll(-3));
    assert_eq!(wheel(&mut state, px(14), line, i32::MAX), scroll(32768));
    assert_eq!(wheel(&mut state, px(14), line, i32::MIN), scroll(-32768));
    assert_eq!(wheel(&mut state, 0, line, px(1)), scroll(1));
    assert_eq!(state.scroll_pixels, 5);
}

#[test]
fn line_wheel_without_motion_scrolls_nothing() {
    let mut state = TerminalViewState::default();
    assert_eq!(wheel(&mut state, px(14), MouseWheelUnit::Line, 0), InputAction::Ignore);
    assert_eq!(state, TerminalViewState::default());
}

#[test]
fn pixel_wheel_holds_back_what_makes_no_line() {
    let mut state = TerminalViewState::default();
    let point = MouseWheelUnit::Point;
    assert_eq!(wheel(&mut state, px(14), point, -px(7)), InputAction::Ignore);
    assert_eq!(state.scroll_pixels, px(7));
    assert_eq!(wheel(&mut state, px(14), point, -px(6)), InputAction::Ignore);
    assert_eq!(state.scroll_pixels, px(13));
    assert_eq!(wheel(&mut state, px(14), point, -px(1)), scroll(1));
    assert_eq!(state.scroll_pixels, 0);
    assert_eq!(wheel(&mut state, px(14), point, 0), InputAction::Ignore);
    assert_eq!(state.scroll_pixels, 0);
}

#[test]
fn pixel_wheel_truncates_towards_zero() {
    let point = MouseWheelUnit::Point;
    let mut state = TerminalViewState::default();
    assert_eq!(wheel(&mut state, 10, point, 35), scroll(-3));
    assert_eq!(state.scroll_pixels, -5);
    assert_eq!(wheel(&mut state, 10, point, -9), InputAction::Ignore);
    assert_eq!(state.scroll_pixels, 4);
    assert_eq!(wheel(&mut state, 10, point, -26), scroll(3));
    assert_eq!(state.scroll_pixels, 0);
    state.scroll_pixels = -7;
    assert_eq!(wheel(&mut state, 3, point, 0), scroll(-2));
    assert_eq!(state.scroll_pixels, -1);
}

#[test]
fn pixel_wheel_saturates_the_line_count() {
    let point = MouseWheelUnit::Point;
    let mut state = TerminalViewState::default();
    assert_eq!(wheel(&mut state, 1, point, i32::MIN), scroll(i32::MAX));
    assert_eq!(state.scroll_pixels, 0);
    assert_eq!(wheel(&mut state, 1, point, i32::MAX), scroll(-i32::MAX));
    state.scroll_pixels = i32::MAX;
    assert_eq!(wheel(&mut state, 1, point, i32::MIN), scroll(i32::MAX));
    assert_eq!(state.scroll_pixels, 0);
    state.scroll_pixels = i32::MIN;
    assert_eq!(wheel(&mut state, 1, point, i32::MAX), scroll(i32::MIN));
    assert_eq!(state.scroll_pixels, 0);
    state.scroll_pixels = i32::MIN;
    assert_eq!(wheel(&mut state, 2, point, i32::MAX), scroll(-i32::MAX));
    assert_eq!(state.scroll_pixels, -1);
}

#[test]
fn pixel_wheel_without_a_cell_height_scrolls_nothing() {
    let point = MouseWheelUnit::Point;
    let mut state = TerminalViewState::default();
    state.scroll_pixels = 3;
    assert_eq!(wheel(&mut state, 0, point, px(100)), InputAction::Ignore);
    assert_eq!(wheel(&mut state, -px(14), point, px(100)), InputAction::Ignore);
    assert_eq!(state.scroll_pixels, 3);
}

#[test]
fn page_wheel_is_ignored() {
    let mut state = TerminalViewState::default();
    state.scroll_pixels = 3;
    assert_eq!(wheel(&mut state, px(14), MouseWheelUnit::Page, px(2)), InputAction::Ignore);
    assert_eq!(wheel(&mut state, px(14), MouseWheelUnit::Page, -px(2)), InputAction::Ignore);
    assert_eq!(state.scroll_pixels, 3);
}

#[test]
fn wheel_leaves_the_rest_of_the_state() {
    let mut state = TerminalViewState {
        is_dragged: true,
        is_focused: true,
        scroll_pixels: 0,
        keyboard_modifiers: ctrl(),
    };
    wheel(&mut state, px(14), MouseWheelUnit::Point, -px(20));
    assert_eq!(
        state,
        TerminalViewState {
            is_dragged: true,
            is_focused: true,
            scroll_pixels: px(6),
            keyboard_modifiers: ctrl(),
        }
    );
}

#[test]
fn copies_are_equal() {
    let event = InputEvent::Text("abc".to_string());
    assert_eq!(event.clone(), event);
    let key = press(KEY_A, ctrl());
    assert_eq!(key.clone(), key);
    let action = write(b"xyz");
    assert_eq!(action.clone(), action);
    let esc = BindingAction::Esc(vec![1, 2, 3]);
    assert_eq!(esc.clone(), esc);
    let resize = BackendCommand::Scroll(-4);
    assert_eq!(resize.clone(), resize);
}
