use std::cell::Cell;
use text_input::input::keyboard::{self, KeyCode, ModifiersState};
use text_input::input::{mouse, ButtonState};
use text_input::renderer::Null;
use text_input::text_input::field::{paste_content, without_control_codes};
use text_input::text_input::{Notification, Platform, Renderer, State, TextInput, Value};
use text_input::{Clipboard, Event, Font, Layout, Point, Rectangle};

/// A renderer to which every scalar value is 10 units wide and every text
/// is scrolled by as many units as the renderer holds.
struct Monospace(u32);

impl Renderer for Monospace {
    fn default_size(&self) -> u16 {
        16
    }

    fn measure_value(&self, value: &str, _size: u16, _font: Font) -> u32 {
        value.chars().count() as u32 * 10
    }

    fn offset(&self, _: Rectangle, _: u16, _: &Value, _: &State, _: Font) -> u32 {
        self.0
    }
}

/// A clipboard that holds a fixed content and counts how often it is read.
struct Fixed {
    content: Option<String>,
    reads: Cell<usize>,
}

impl Fixed {
    fn holding(content: &str) -> Fixed {
        Fixed { content: Some(content.to_string()), reads: Cell::new(0) }
    }

    fn empty() -> Fixed {
        Fixed { content: None, reads: Cell::new(0) }
    }
}

impl Clipboard for Fixed {
    fn content(&self) -> Option<String> {
        self.reads.set(self.reads.get() + 1);
        self.content.clone()
    }
}

const NONE: ModifiersState = ModifiersState { shift: false, control: false, alt: false, logo: false };

const CONTROL: ModifiersState =
    ModifiersState { shift: false, control: true, alt: false, logo: false };

const ALT: ModifiersState = ModifiersState { shift: false, control: false, alt: true, logo: false };

const LOGO: ModifiersState = ModifiersState { shift: false, control: false, alt: false, logo: true };

fn layout() -> Layout {
    Layout {
        bounds: Rectangle { x: 100, y: 50, width: 200, height: 30 },
        text_bounds: Rectangle { x: 105, y: 55, width: 190, height: 20 },
    }
}

fn character(c: char) -> Event {
    Event::Keyboard(keyboard::Event::CharacterReceived(c))
}

fn press(key_code: KeyCode, modifiers: ModifiersState) -> Event {
    Event::Keyboard(keyboard::Event::Input { state: ButtonState::Pressed, key_code, modifiers })
}

fn release(key_code: KeyCode) -> Event {
    Event::Keyboard(keyboard::Event::Input {
        state: ButtonState::Released,
        key_code,
        modifiers: NONE,
    })
}

fn click() -> Event {
    Event::Mouse(mouse::Event::Input { state: ButtonState::Pressed, button: mouse::Button::Left })
}

fn send(field: &mut TextInput, event: Event) -> Option<Notification> {
    field.on_event(event, layout(), Point { x: 0, y: 0 }, &Null::new(), None::<&Fixed>)
}

fn send_with(field: &mut TextInput, event: Event, clipboard: &Fixed) -> Option<Notification> {
    field.on_event(event, layout(), Point { x: 0, y: 0 }, &Null::new(), Some(clipboard))
}

fn click_at(field: &mut TextInput, x: i32, y: i32, renderer: &Monospace) -> Option<Notification> {
    field.on_event(click(), layout(), Point { x, y }, renderer, None::<&Fixed>)
}

fn changed(notification: Option<Notification>) -> String {
    match notification {
        Some(Notification::ContentChanged(text)) => text,
        other => panic!("no content changed: {:?}", other),
    }
}

fn text(field: &TextInput) -> String {
    field.value().to_string()
}

fn caret(field: &TextInput) -> usize {
    field.state().cursor_position(field.value())
}

#[test]
fn typing_then_backspace_then_home_then_end() {
    let mut field = TextInput::new(State::focused(), "");
    assert_eq!(changed(send(&mut field, character('a'))), "a");
    assert_eq!(changed(send(&mut field, character('b'))), "ab");
    assert_eq!(changed(send(&mut field, character('c'))), "abc");
    assert_eq!(text(&field), "abc");
    assert_eq!(caret(&field), 3);
    assert_eq!(changed(send(&mut field, press(KeyCode::Backspace, NONE))), "ab");
    assert_eq!(text(&field), "ab");
    assert_eq!(caret(&field), 2);
    assert!(send(&mut field, press(KeyCode::Home, NONE)).is_none());
    assert_eq!(caret(&field), 0);
    assert!(send(&mut field, press(KeyCode::End, NONE)).is_none());
    assert_eq!(caret(&field), 2);
    assert_eq!(text(&field), "ab");
}

#[test]
fn held_paste_key_inserts_once() {
    let clipboard = Fixed::holding("XY");
    let mut field = TextInput::new(State::focused(), "");
    assert_eq!(changed(send_with(&mut field, press(KeyCode::V, CONTROL), &clipboard)), "XY");
    assert!(send_with(&mut field, press(KeyCode::V, CONTROL), &clipboard).is_none());
    assert_eq!(text(&field), "XY");
    assert_eq!(caret(&field), 2);
    assert!(field.state().is_pasting());
    assert_eq!(clipboard.reads.get(), 1);
}

#[test]
fn paste_key_pressed_again_after_release_pastes_again() {
    let clipboard = Fixed::holding("XY");
    let mut field = TextInput::new(State::focused(), "");
    assert_eq!(changed(send_with(&mut field, press(KeyCode::V, CONTROL), &clipboard)), "XY");
    assert!(send_with(&mut field, release(KeyCode::V), &clipboard).is_none());
    assert!(!field.state().is_pasting());
    assert_eq!(changed(send_with(&mut field, press(KeyCode::V, CONTROL), &clipboard)), "XYXY");
    assert_eq!(caret(&field), 4);
    assert_eq!(clipboard.reads.get(), 2);
}

#[test]
fn secure_field_shows_bullets_and_moves_by_clusters() {
    let mut field = TextInput::new(State::focused(), "secret word").password();
    assert!(field.is_secure());
    assert_eq!(field.shown_value().to_string(), "•••••••••••");
    assert_eq!(field.shown_value().len(), 11);
    assert!(send(&mut field, press(KeyCode::Left, CONTROL)).is_none());
    assert_eq!(caret(&field), 10);
    assert!(send(&mut field, press(KeyCode::Home, NONE)).is_none());
    assert!(send(&mut field, press(KeyCode::Right, CONTROL)).is_none());
    assert_eq!(caret(&field), 1);
    assert_eq!(text(&field), "secret word");
}

#[test]
fn secure_value_of_secret_is_six_bullets() {
    let field = TextInput::new(State::new(), "secret").password();
    assert_eq!(field.shown_value().to_string(), "••••••");
    assert_eq!(field.value().to_string(), "secret");
}

#[test]
fn plain_field_shows_its_value() {
    let field = TextInput::new(State::new(), "secre\u{301}t");
    assert!(!field.is_secure());
    assert_eq!(field.shown_value().to_string(), "secre\u{301}t");
    assert_eq!(field.shown_value().len(), 6);
}

#[test]
fn arrows_jump_over_words_with_the_jump_modifier() {
    let mut field = TextInput::new(State::focused(), "hello world foo");
    assert!(send(&mut field, press(KeyCode::Left, CONTROL)).is_none());
    assert_eq!(caret(&field), 12);
    assert!(send(&mut field, press(KeyCode::Left, CONTROL)).is_none());
    assert_eq!(caret(&field), 6);
    assert!(send(&mut field, press(KeyCode::Right, CONTROL)).is_none());
    assert_eq!(caret(&field), 11);
    assert!(send(&mut field, press(KeyCode::Left, ALT)).is_none());
    assert_eq!(caret(&field), 10);
    assert!(send(&mut field, press(KeyCode::Right, NONE)).is_none());
    assert_eq!(caret(&field), 11);
}

#[test]
fn on_macos_alt_jumps_and_logo_pastes() {
    let clipboard = Fixed::holding("XY");
    let mut field = TextInput::new(State::focused(), "hello world").platform(Platform::MacOs);
    assert!(send(&mut field, press(KeyCode::Left, CONTROL)).is_none());
    assert_eq!(caret(&field), 10);
    assert!(send(&mut field, press(KeyCode::Left, ALT)).is_none());
    assert_eq!(caret(&field), 6);
    assert!(send_with(&mut field, press(KeyCode::V, CONTROL), &clipboard).is_none());
    assert_eq!(clipboard.reads.get(), 0);
    assert_eq!(changed(send_with(&mut field, press(KeyCode::V, LOGO), &clipboard)), "hello XYworld");
    assert_eq!(caret(&field), 8);
}

#[test]
fn arrows_stop_at_the_ends() {
    let mut field = TextInput::new(focused_at(0), "ab");
    assert!(send(&mut field, press(KeyCode::Left, NONE)).is_none());
    assert_eq!(caret(&field), 0);
    assert!(send(&mut field, press(KeyCode::End, NONE)).is_none());
    assert!(send(&mut field, press(KeyCode::Right, NONE)).is_none());
    assert_eq!(caret(&field), 2);
}

fn focused_at(cursor: usize) -> State {
    let mut state = State::focused();
    state.move_cursor_to(cursor);
    state
}

#[test]
fn backspace_at_the_start_changes_nothing() {
    let mut field = TextInput::new(focused_at(0), "ab");
    assert!(send(&mut field, press(KeyCode::Backspace, NONE)).is_none());
    assert_eq!(text(&field), "ab");
    assert_eq!(caret(&field), 0);
}

#[test]
fn backspace_removes_a_whole_cluster() {
    let mut field = TextInput::new(State::focused(), "ae\u{301}");
    assert_eq!(changed(send(&mut field, press(KeyCode::Backspace, NONE))), "a");
    assert_eq!(caret(&field), 1);
}

#[test]
fn delete_removes_the_cluster_at_the_caret() {
    let mut field = TextInput::new(focused_at(1), "abc");
    assert_eq!(changed(send(&mut field, press(KeyCode::Delete, NONE))), "ac");
    assert_eq!(caret(&field), 1);
    assert_eq!(changed(send(&mut field, press(KeyCode::Delete, NONE))), "a");
    assert!(send(&mut field, press(KeyCode::Delete, NONE)).is_none());
    assert_eq!(text(&field), "a");
    assert_eq!(caret(&field), 1);
}

#[test]
fn character_goes_in_at_the_caret() {
    let mut field = TextInput::new(focused_at(1), "ac");
    assert_eq!(changed(send(&mut field, character('b'))), "abc");
    assert_eq!(caret(&field), 2);
}

#[test]
fn combining_character_joins_the_cluster_before_the_caret() {
    let mut field = TextInput::new(focused_at(1), "eb");
    assert_eq!(changed(send(&mut field, character('\u{301}'))), "e\u{301}b");
    assert_eq!(field.value().len(), 2);
    assert_eq!(caret(&field), 2);
}

#[test]
fn control_character_is_not_taken() {
    let mut field = TextInput::new(State::focused(), "ab");
    assert!(send(&mut field, character('\u{8}')).is_none());
    assert!(send(&mut field, character('\r')).is_none());
    assert!(send(&mut field, character('\u{7f}')).is_none());
    assert_eq!(text(&field), "ab");
}

#[test]
fn character_is_not_taken_while_a_paste_is_in_progress() {
    let clipboard = Fixed::holding("XY");
    let mut field = TextInput::new(State::focused(), "");
    assert_eq!(changed(send_with(&mut field, press(KeyCode::V, CONTROL), &clipboard)), "XY");
    assert!(send(&mut field, character('v')).is_none());
    assert_eq!(text(&field), "XY");
    assert!(send(&mut field, release(KeyCode::V)).is_none());
    assert_eq!(changed(send(&mut field, character('v'))), "XYv");
}

#[test]
fn unfocused_field_takes_no_keys() {
    let clipboard = Fixed::holding("XY");
    let mut field = TextInput::new(State::new(), "ab").on_submit();
    assert!(send(&mut field, character('c')).is_none());
    assert!(send(&mut field, press(KeyCode::Backspace, NONE)).is_none());
    assert!(send(&mut field, press(KeyCode::Delete, NONE)).is_none());
    assert!(send(&mut field, press(KeyCode::End, NONE)).is_none());
    assert!(send(&mut field, press(KeyCode::Enter, NONE)).is_none());
    assert!(send_with(&mut field, press(KeyCode::V, CONTROL), &clipboard).is_none());
    assert_eq!(text(&field), "ab");
    assert_eq!(caret(&field), 0);
    assert_eq!(clipboard.reads.get(), 0);
}

#[test]
fn enter_submits_where_the_field_asks_for_it() {
    let mut field = TextInput::new(State::focused(), "ab").on_submit();
    assert!(matches!(send(&mut field, press(KeyCode::Enter, NONE)), Some(Notification::Submit)));
    assert_eq!(text(&field), "ab");
    let mut quiet = TextInput::new(State::focused(), "ab");
    assert!(send(&mut quiet, press(KeyCode::Enter, NONE)).is_none());
}

#[test]
fn other_events_change_nothing() {
    let mut field = TextInput::new(State::focused(), "ab");
    assert!(send(&mut field, press(KeyCode::Other, CONTROL)).is_none());
    assert!(send(&mut field, release(KeyCode::Backspace)).is_none());
    assert!(send(&mut field, Event::Mouse(mouse::Event::CursorMoved { x: 110, y: 60 })).is_none());
    assert!(send(
        &mut field,
        Event::Mouse(mouse::Event::Input {
            state: ButtonState::Released,
            button: mouse::Button::Left
        })
    )
    .is_none());
    assert!(send(
        &mut field,
        Event::Mouse(mouse::Event::Input {
            state: ButtonState::Pressed,
            button: mouse::Button::Right
        })
    )
    .is_none());
    assert!(send(&mut field, Event::Window(text_input::window::Event::Resized { width: 1, height: 1 }))
        .is_none());
    assert_eq!(text(&field), "ab");
    assert_eq!(caret(&field), 2);
    assert!(field.state().is_focused());
}

#[test]
fn paste_goes_in_at_the_caret_without_control_codes() {
    let clipboard = Fixed::holding("X\tY\r\nZ\u{0}");
    let mut field = TextInput::new(focused_at(1), "ab");
    assert_eq!(changed(send_with(&mut field, press(KeyCode::V, CONTROL), &clipboard)), "aXYZb");
    assert_eq!(caret(&field), 4);
    assert!(field.state().is_pasting());
}

#[test]
fn paste_without_content_changes_nothing() {
    let clipboard = Fixed::empty();
    let mut field = TextInput::new(State::focused(), "ab");
    assert!(send_with(&mut field, press(KeyCode::V, CONTROL), &clipboard).is_none());
    assert_eq!(clipboard.reads.get(), 1);
    assert_eq!(text(&field), "ab");
    assert!(!field.state().is_pasting());
    assert!(send(&mut field, press(KeyCode::V, CONTROL)).is_none());
    assert!(!field.state().is_pasting());
}

#[test]
fn paste_of_empty_content_is_recorded() {
    let clipboard = Fixed::holding("");
    let mut field = TextInput::new(State::focused(), "ab");
    assert_eq!(changed(send_with(&mut field, press(KeyCode::V, CONTROL), &clipboard)), "ab");
    assert!(field.state().is_pasting());
    assert_eq!(caret(&field), 2);
}

#[test]
fn paste_key_without_its_modifier_ends_the_paste() {
    let clipboard = Fixed::holding("XY");
    let mut field = TextInput::new(State::focused(), "");
    assert_eq!(changed(send_with(&mut field, press(KeyCode::V, CONTROL), &clipboard)), "XY");
    assert!(send_with(&mut field, press(KeyCode::V, NONE), &clipboard).is_none());
    assert!(!field.state().is_pasting());
    assert_eq!(text(&field), "XY");
    assert_eq!(clipboard.reads.get(), 1);
}

#[test]
fn update_takes_the_pasted_text_as_it_is_given() {
    let mut field = TextInput::new(focused_at(0), "b");
    let out = field.update(
        press(KeyCode::V, CONTROL),
        layout(),
        Point { x: 0, y: 0 },
        &Null::new(),
        Some("a\u{7}".to_string()),
    );
    assert_eq!(changed(out), "ab");
    assert_eq!(caret(&field), 1);
}

#[test]
fn asks_clipboard_only_for_a_fresh_paste() {
    let clipboard = Fixed::holding("XY");
    let mut field = TextInput::new(State::focused(), "");
    assert!(field.asks_clipboard(&press(KeyCode::V, CONTROL)));
    assert!(!field.asks_clipboard(&press(KeyCode::V, NONE)));
    assert!(!field.asks_clipboard(&press(KeyCode::V, LOGO)));
    assert!(!field.asks_clipboard(&release(KeyCode::V)));
    assert!(!field.asks_clipboard(&press(KeyCode::Enter, CONTROL)));
    assert!(!field.asks_clipboard(&character('v')));
    let _ = send_with(&mut field, press(KeyCode::V, CONTROL), &clipboard);
    assert!(!field.asks_clipboard(&press(KeyCode::V, CONTROL)));
    assert!(!TextInput::new(State::new(), "").asks_clipboard(&press(KeyCode::V, CONTROL)));
}

#[test]
fn click_inside_takes_the_focus_and_moves_the_caret() {
    let renderer = Monospace(0);
    let mut field = TextInput::new(State::new(), "hello");
    assert!(click_at(&mut field, 105 + 26, 60, &renderer).is_none());
    assert!(field.state().is_focused());
    assert_eq!(caret(&field), 3);
    assert!(click_at(&mut field, 105 + 24, 60, &renderer).is_none());
    assert_eq!(caret(&field), 2);
    assert!(click_at(&mut field, 300, 80, &renderer).is_none());
    assert_eq!(caret(&field), 5);
    assert_eq!(text(&field), "hello");
}

#[test]
fn click_at_or_left_of_the_text_goes_to_the_start() {
    let renderer = Monospace(0);
    let mut field = TextInput::new(State::focused(), "hello");
    assert!(click_at(&mut field, 105, 60, &renderer).is_none());
    assert_eq!(caret(&field), 0);
    assert!(send(&mut field, press(KeyCode::End, NONE)).is_none());
    assert!(click_at(&mut field, 100, 50, &renderer).is_none());
    assert_eq!(caret(&field), 0);
    assert!(field.state().is_focused());
}

#[test]
fn click_outside_gives_up_the_focus_and_keeps_the_caret() {
    let renderer = Monospace(0);
    let mut field = TextInput::new(focused_at(2), "hello");
    assert!(click_at(&mut field, 99, 60, &renderer).is_none());
    assert!(!field.state().is_focused());
    assert_eq!(caret(&field), 2);
    assert!(click_at(&mut field, 150, 81, &renderer).is_none());
    assert!(!field.state().is_focused());
    assert!(click_at(&mut field, 301, 60, &renderer).is_none());
    assert!(!field.state().is_focused());
    assert_eq!(caret(&field), 2);
}

#[test]
fn click_counts_how_far_the_text_is_scrolled() {
    let renderer = Monospace(20);
    let mut field = TextInput::new(State::new(), "hello");
    assert!(click_at(&mut field, 105 + 6, 60, &renderer).is_none());
    assert_eq!(caret(&field), 3);
}

#[test]
fn click_in_a_secure_field_measures_the_bullets() {
    struct Bullets;
    impl Renderer for Bullets {
        fn default_size(&self) -> u16 {
            16
        }
        fn measure_value(&self, value: &str, _size: u16, _font: Font) -> u32 {
            value.chars().map(|c| if c == '•' { 10 } else { 1000 }).sum()
        }
        fn offset(&self, _: Rectangle, _: u16, value: &Value, _: &State, _: Font) -> u32 {
            if value.to_string() == "•••••" {
                0
            } else {
                1000
            }
        }
    }
    let mut field = TextInput::new(State::new(), "hello").password();
    let out = field.on_event(click(), layout(), Point { x: 105 + 26, y: 60 }, &Bullets, None::<&Fixed>);
    assert!(out.is_none());
    assert_eq!(caret(&field), 3);
}

#[test]
fn click_uses_the_size_of_the_field_or_else_that_of_the_renderer() {
    struct BySize;
    impl Renderer for BySize {
        fn default_size(&self) -> u16 {
            10
        }
        fn measure_value(&self, value: &str, size: u16, _font: Font) -> u32 {
            value.chars().count() as u32 * size as u32
        }
        fn offset(&self, _: Rectangle, size: u16, _: &Value, _: &State, _: Font) -> u32 {
            size as u32
        }
    }
    let at = Point { x: 105 + 20, y: 60 };
    let mut field = TextInput::new(State::new(), "hello");
    let _ = field.on_event(click(), layout(), at, &BySize, None::<&Fixed>);
    assert_eq!(caret(&field), 3);
    let mut sized = TextInput::new(State::new(), "hello").size(20);
    let _ = sized.on_event(click(), layout(), at, &BySize, None::<&Fixed>);
    assert_eq!(caret(&sized), 2);
}

#[test]
fn into_state_gives_the_state_back() {
    let mut field = TextInput::new(State::new(), "hello").font(Font::Default);
    let _ = click_at(&mut field, 105 + 26, 60, &Monospace(0));
    let state = field.into_state();
    assert!(state.is_focused());
    assert_eq!(state.cursor_position(&Value::new("hello")), 3);
}

#[test]
fn paste_content_is_split_into_clusters_without_control_codes() {
    let content = paste_content("e\u{301}\u{0}x\n");
    assert_eq!(content.len(), 2);
    assert_eq!(content.to_string(), "e\u{301}x");
    assert_eq!(paste_content("").len(), 0);
}

#[test]
fn without_control_codes_keeps_the_rest_in_order() {
    assert_eq!(without_control_codes("a\tb\u{1f}c\u{7f}d\u{9f}e é"), "abcde é");
    assert_eq!(without_control_codes("\r\n"), "");
    assert_eq!(without_control_codes("plain"), "plain");
}
