//! The field itself: how events change its value and its state.
use crate::clipboard::Clipboard;
use crate::event::Event;
use crate::font::Font;
use crate::geometry::{Layout, Point};
use crate::input::keyboard::{KeyCode, ModifiersState};
use crate::input::{keyboard, mouse, ButtonState};
use crate::segmentation::{char_is_control, grapheme_clusters, is_control, push_char};
use crate::text_input::platform::{
    copies_or_pastes, is_copy_paste_modifier_pressed, is_jump_modifier_pressed, jumps, Platform,
};
use crate::text_input::renderer::{renders, Answers, Renderer};
use crate::text_input::search::{bisected, find_cursor_position, nearer};
use crate::text_input::state::{State, StateView};
use crate::text_input::value::{masked, spliced, text_with, Value};
use vstd::prelude::*;

verus! {

/// What a text field tells the application of an event.
#[derive(Debug)]
pub enum Notification {
    /// The content changed; this is the new text.
    ContentChanged(String),
    /// The text was submitted.
    Submit,
}

/// A [`Notification`], with the text as the scalar values it is made of.
pub enum NotificationView {
    /// The content changed; this is the new text.
    ContentChanged(Seq<char>),
    /// The text was submitted.
    Submit,
}

/// What `notification` tells, if there is one.
pub open spec fn told(notification: Option<Notification>) -> Option<NotificationView> {
    match notification {
        Some(Notification::ContentChanged(text)) => Some(NotificationView::ContentChanged(text@)),
        Some(Notification::Submit) => Some(NotificationView::Submit),
        None => None,
    }
}

/// The text of `string`, if there is one.
pub open spec fn text_of(string: Option<String>) -> Option<Seq<char>> {
    match string {
        Some(string) => Some(string@),
        None => None,
    }
}

/// The scalar values of `raw` that are no control codes, in order.
pub open spec fn printable(raw: Seq<char>) -> Seq<char> {
    raw.filter(|c: char| !is_control(c))
}

/// What a [`TextInput`] holds.
pub struct TextInputView {
    /// The caret, the focus and the paste in progress.
    pub state: StateView,
    /// The clusters of the value.
    pub value: Seq<Seq<char>>,
    /// Whether the field hides its content.
    pub is_secure: bool,
    /// The font of the text.
    pub font: Font,
    /// The size of the text, where the field sets one.
    pub size: Option<u16>,
    /// Whether the field tells when its text is submitted.
    pub on_submit: bool,
    /// The platform whose modifier keys the field goes by.
    pub platform: Platform,
}

impl TextInputView {
    /// The clusters as the field shows them: bullets where it is secure.
    pub open spec fn shown(self) -> Seq<Seq<char>> {
        if self.is_secure {
            masked(self.value)
        } else {
            self.value
        }
    }

    /// The size of the text: the one that the field sets, or else the one
    /// that the renderer gives.
    pub open spec fn text_size(self, answers: Answers) -> u16 {
        match self.size {
            Some(size) => size,
            None => answers.text_size,
        }
    }

    /// The same field in the given `state`.
    pub open spec fn with_state(self, state: StateView) -> TextInputView {
        TextInputView { state, ..self }
    }

    /// The same field with the given `value` in the given `state`.
    pub open spec fn with(self, value: Seq<Seq<char>>, state: StateView) -> TextInputView {
        TextInputView { state, value, ..self }
    }

    /// The caret index that a press at `cursor_position` inside the field
    /// asks for.
    ///
    /// At or left of the left edge of the text it is 0. Right of it, the
    /// search goes over the clusters as shown, for the distance from that
    /// edge plus how far the text is scrolled.
    pub open spec fn pressed_at(
        self,
        layout: Layout,
        cursor_position: Point,
        answers: Answers,
    ) -> int {
        let target = cursor_position.x - layout.text_bounds.x;
        if target > 0 {
            let size = self.text_size(answers);
            let offset = (answers.offset)(
                layout.text_bounds,
                size,
                self.shown(),
                self.state,
                self.font,
            );
            nearer(
                answers.width,
                target + offset,
                self.shown(),
                size,
                bisected(
                    answers.width,
                    target + offset,
                    self.shown(),
                    size,
                    0,
                    self.value.len() as int,
                    self.font,
                ),
                self.font,
            )
        } else {
            0
        }
    }

    /// The field after the left button went down at `cursor_position`.
    ///
    /// Inside the bounds the field takes the focus and the caret goes where
    /// the press asks. Outside, the field loses the focus.
    pub open spec fn after_press(
        self,
        layout: Layout,
        cursor_position: Point,
        answers: Answers,
    ) -> TextInputView {
        if layout.bounds.holds(cursor_position) {
            let cursor = self.pressed_at(layout, cursor_position, answers);
            self.with_state(self.state.with_cursor(cursor as usize).with_focus(true))
        } else {
            self.with_state(self.state.with_focus(false))
        }
    }

    /// Whether the field takes the character `c`: it has the focus, no paste
    /// is in progress, and `c` is no control code.
    pub open spec fn takes(self, c: char) -> bool {
        self.state.is_focused && self.state.is_pasting.is_none() && !is_control(c)
    }

    /// The field after the keyboard produced `c`, and what it tells.
    pub open spec fn after_character(self, c: char) -> (TextInputView, Option<NotificationView>) {
        if self.takes(c) {
            let text = text_with(self.value, self.state.cursor(self.value), c);
            let value = grapheme_clusters(text);
            (
                self.with(value, self.state.moved_right_by(value, 1)),
                Some(NotificationView::ContentChanged(text)),
            )
        } else {
            (self, None)
        }
    }

    /// The field after the backspace key, and what it tells.
    pub open spec fn after_backspace(self) -> (TextInputView, Option<NotificationView>) {
        let cursor = self.state.cursor(self.value);
        if cursor > 0 {
            let value = self.value.remove(cursor - 1);
            (
                self.with(value, self.state.moved_left(self.value)),
                Some(NotificationView::ContentChanged(value.flatten())),
            )
        } else {
            (self, None)
        }
    }

    /// The field after the delete key, and what it tells.
    pub open spec fn after_delete(self) -> (TextInputView, Option<NotificationView>) {
        let cursor = self.state.cursor(self.value);
        if cursor < self.value.len() {
            let value = self.value.remove(cursor);
            (self.with(value, self.state), Some(NotificationView::ContentChanged(value.flatten())))
        } else {
            (self, None)
        }
    }

    /// Whether the paste key, pressed with these `modifiers`, makes the
    /// field read the clipboard: the paste modifier is held and no paste is
    /// in progress.
    pub open spec fn reads_clipboard(self, modifiers: ModifiersState) -> bool {
        copies_or_pastes(modifiers, self.platform) && self.state.is_pasting.is_none()
    }

    /// The field after the paste key went down, and what it tells.
    ///
    /// Without the paste modifier the key ends a paste in progress. With it,
    /// and a paste in progress, the key is the same press once more and
    /// changes nothing. Else `pasted` is what the clipboard gave: if
    /// anything, its clusters without control codes go in at the caret, the
    /// caret goes behind them, and they are recorded as the paste in
    /// progress.
    pub open spec fn after_paste(self, modifiers: ModifiersState, pasted: Option<Seq<char>>) -> (
        TextInputView,
        Option<NotificationView>,
    ) {
        if !copies_or_pastes(modifiers, self.platform) {
            (self.with_state(self.state.with_pasting(None)), None)
        } else if self.state.is_pasting.is_some() || pasted.is_none() {
            (self, None)
        } else {
            let content = grapheme_clusters(printable(pasted.unwrap()));
            let value = spliced(self.value, self.state.cursor(self.value), content);
            let state = self.state.moved_right_by(value, content.len() as usize).with_pasting(
                Some(content),
            );
            (self.with(value, state), Some(NotificationView::ContentChanged(value.flatten())))
        }
    }

    /// The field with the focus after `key_code` went down with `modifiers`
    /// held, and what it tells.
    pub open spec fn after_key_press(
        self,
        key_code: KeyCode,
        modifiers: ModifiersState,
        pasted: Option<Seq<char>>,
    ) -> (TextInputView, Option<NotificationView>) {
        let by_words = jumps(modifiers, self.platform) && !self.is_secure;
        match key_code {
            KeyCode::Enter => (
                self,
                if self.on_submit {
                    Some(NotificationView::Submit)
                } else {
                    None
                },
            ),
            KeyCode::Backspace => self.after_backspace(),
            KeyCode::Delete => self.after_delete(),
            KeyCode::Left => (
                self.with_state(
                    if by_words {
                        self.state.moved_left_by_words(self.value)
                    } else {
                        self.state.moved_left(self.value)
                    },
                ),
                None,
            ),
            KeyCode::Right => (
                self.with_state(
                    if by_words {
                        self.state.moved_right_by_words(self.value)
                    } else {
                        self.state.moved_right_by(self.value, 1)
                    },
                ),
                None,
            ),
            KeyCode::Home => (self.with_state(self.state.with_cursor(0)), None),
            KeyCode::End => (
                self.with_state(self.state.with_cursor(self.value.len() as usize)),
                None,
            ),
            KeyCode::V => self.after_paste(modifiers, pasted),
            KeyCode::Other => (self, None),
        }
    }

    /// Whether `event` makes the field ask the renderer: it is a press of
    /// the left button inside the bounds, right of the left edge of the text.
    pub open spec fn asks_renderer(
        self,
        event: Event,
        layout: Layout,
        cursor_position: Point,
    ) -> bool {
        &&& event == Event::Mouse(
            mouse::Event::Input { state: ButtonState::Pressed, button: mouse::Button::Left },
        )
        &&& layout.bounds.holds(cursor_position)
        &&& cursor_position.x > layout.text_bounds.x
    }

    /// Whether `event` makes the field read the clipboard.
    pub open spec fn asks_clipboard(self, event: Event) -> bool {
        match event {
            Event::Keyboard(
                keyboard::Event::Input {
                    state: ButtonState::Pressed,
                    key_code: KeyCode::V,
                    modifiers,
                },
            ) => self.state.is_focused && self.reads_clipboard(modifiers),
            _ => false,
        }
    }

    /// The field after `event`, and what it tells.
    ///
    /// A press of the left button moves the focus and the caret. A
    /// character goes in at the caret. A key that goes down while the field
    /// has the focus edits, moves the caret, pastes or submits. The paste key
    /// going up ends the paste in progress. Any other event changes nothing.
    /// `answers` is what the renderer answers, `pasted` what the clipboard
    /// gives where the event asks for it.
    pub open spec fn after_event(
        self,
        event: Event,
        layout: Layout,
        cursor_position: Point,
        answers: Answers,
        pasted: Option<Seq<char>>,
    ) -> (TextInputView, Option<NotificationView>) {
        match event {
            Event::Mouse(
                mouse::Event::Input { state: ButtonState::Pressed, button: mouse::Button::Left },
            ) => (self.after_press(layout, cursor_position, answers), None),
            Event::Keyboard(keyboard::Event::CharacterReceived(c)) => self.after_character(c),
            Event::Keyboard(
                keyboard::Event::Input { state: ButtonState::Pressed, key_code, modifiers },
            ) => if self.state.is_focused {
                self.after_key_press(key_code, modifiers, pasted)
            } else {
                (self, None)
            },
            Event::Keyboard(
                keyboard::Event::Input { state: ButtonState::Released, key_code: KeyCode::V, .. },
            ) => (self.with_state(self.state.with_pasting(None)), None),
            _ => (self, None),
        }
    }

    /// Whether `event` can make this field into `after`, telling `told`,
    /// with `renderer` to ask and `pasted` from the clipboard.
    ///
    /// Where the event asks nothing of the renderer, or the renderer answers
    /// as some `answers` tell, `after` and `told` are as
    /// [`TextInputView::after_event`] has them for those answers. Whatever
    /// the renderer answers, an event that asks it gives the field the focus,
    /// puts the caret within the value, changes nothing else and tells
    /// nothing.
    pub open spec fn becomes<R: Renderer>(
        self,
        event: Event,
        layout: Layout,
        cursor_position: Point,
        renderer: &R,
        pasted: Option<Seq<char>>,
        after: TextInputView,
        told: Option<NotificationView>,
    ) -> bool {
        &&& forall|answers: Answers|
            renders(renderer, answers) || !self.asks_renderer(event, layout, cursor_position) ==> (
                after,
                told,
            ) == #[trigger] self.after_event(event, layout, cursor_position, answers, pasted)
        &&& self.asks_renderer(event, layout, cursor_position) ==> {
            &&& told.is_none()
            &&& after.state.cursor_position <= self.value.len()
            &&& after == self.with_state(
                self.state.with_cursor(after.state.cursor_position).with_focus(true),
            )
        }
    }
}

/// A field that can be filled with text.
#[derive(Debug)]
pub struct TextInput {
    state: State,
    value: Value,
    is_secure: bool,
    font: Font,
    size: Option<u16>,
    on_submit: bool,
    platform: Platform,
}

impl View for TextInput {
    type V = TextInputView;

    closed spec fn view(&self) -> TextInputView {
        TextInputView {
            state: self.state@,
            value: self.value@,
            is_secure: self.is_secure,
            font: self.font,
            size: self.size,
            on_submit: self.on_submit,
            platform: self.platform,
        }
    }
}

impl TextInput {
    /// Creates a field in the given `state` that holds `value`.
    ///
    /// It shows its content, has the default font, leaves the size of the
    /// text to the renderer, tells nothing on submit and goes by the modifier
    /// keys of [`Platform::Other`].
    pub fn new(state: State, value: &str) -> (field: TextInput)
        ensures
            field@ == (TextInputView {
                state: state@,
                value: grapheme_clusters(value@),
                is_secure: false,
                font: Font::Default,
                size: None,
                on_submit: false,
                platform: Platform::Other,
            }),
            field@.value.flatten() == value@,
    {
        TextInput {
            state,
            value: Value::new(value),
            is_secure: false,
            font: Font::Default,
            size: None,
            on_submit: false,
            platform: Platform::Other,
        }
    }

    /// Makes the field hide its content, as for a password.
    pub fn password(self) -> (field: TextInput)
        ensures
            field@ == (TextInputView { is_secure: true, ..self@ }),
    {
        let mut field = self;
        field.is_secure = true;
        field
    }

    /// Sets the font of the text.
    pub fn font(self, font: Font) -> (field: TextInput)
        ensures
            field@ == (TextInputView { font, ..self@ }),
    {
        let mut field = self;
        field.font = font;
        field
    }

    /// Sets the size of the text.
    pub fn size(self, size: u16) -> (field: TextInput)
        ensures
            field@ == (TextInputView { size: Some(size), ..self@ }),
    {
        let mut field = self;
        field.size = Some(size);
        field
    }

    /// Makes the field tell when the enter key goes down while it has the
    /// focus.
    pub fn on_submit(self) -> (field: TextInput)
        ensures
            field@ == (TextInputView { on_submit: true, ..self@ }),
    {
        let mut field = self;
        field.on_submit = true;
        field
    }

    /// Makes the field go by the modifier keys of `platform`.
    pub fn platform(self, platform: Platform) -> (field: TextInput)
        ensures
            field@ == (TextInputView { platform, ..self@ }),
    {
        let mut field = self;
        field.platform = platform;
        field
    }

    /// The state of the field.
    pub fn state(&self) -> (state: &State)
        ensures
            state@ == self@.state,
    {
        &self.state
    }

    /// The value of the field.
    pub fn value(&self) -> (value: &Value)
        ensures
            value@ == self@.value,
    {
        &self.value
    }

    /// Whether the field hides its content.
    pub fn is_secure(&self) -> (is_secure: bool)
        ensures
            is_secure == self@.is_secure,
    {
        self.is_secure
    }

    /// Gives up the field for its state.
    pub fn into_state(self) -> (state: State)
        ensures
            state@ == self@.state,
    {
        self.state
    }

    /// The value as the field shows it: bullets where it is secure.
    pub fn shown_value(&self) -> (shown: Value)
        ensures
            shown@ == self@.shown(),
    {
        if self.is_secure {
            self.value.secure()
        } else {
            self.value.clone()
        }
    }

    /// Handles the left button going down at `cursor_position`.
    fn press<R: Renderer>(&mut self, layout: Layout, cursor_position: Point, renderer: &R)
        ensures
            final(self)@ == old(self)@.with_state(
                old(self)@.state.with_cursor(final(self)@.state.cursor_position).with_focus(
                    layout.bounds.holds(cursor_position),
                ),
            ),
            !layout.bounds.holds(cursor_position) ==> final(self)@.state.cursor_position == old(
                self,
            )@.state.cursor_position,
            layout.bounds.holds(cursor_position) ==> final(self)@.state.cursor_position <= old(
                self,
            )@.value.len(),
            forall|answers: Answers|
                renders(renderer, answers) || cursor_position.x <= layout.text_bounds.x
                    ==> final(self)@ == #[trigger] old(self)@.after_press(
                    layout,
                    cursor_position,
                    answers,
                ),
    {
        let is_clicked = layout.bounds.contains(cursor_position);
        if is_clicked {
            let target = cursor_position.x as i64 - layout.text_bounds.x as i64;
            if target > 0 {
                let value = self.shown_value();
                let size = match self.size {
                    Some(size) => size,
                    None => renderer.default_size(),
                };
                let offset = renderer.offset(
                    layout.text_bounds,
                    size,
                    &value,
                    &self.state,
                    self.font,
                );
                let cursor = find_cursor_position(
                    renderer,
                    target + offset as i64,
                    &value,
                    size,
                    0,
                    self.value.len(),
                    self.font,
                );
                self.state.move_cursor_to(cursor);
            } else {
                self.state.move_cursor_to(0);
            }
        }
        self.state.set_focus(is_clicked);
    }

    /// Handles the character `c`.
    fn receive(&mut self, c: char) -> (out: Option<Notification>)
        ensures
            (final(self)@, told(out)) == old(self)@.after_character(c),
    {
        if self.state.is_focused() && !self.state.is_pasting() && !char_is_control(c) {
            let cursor = self.state.cursor_position(&self.value);
            let inserted = self.value.insert(cursor, c);
            assert(inserted is Ok);
            self.state.move_cursor_right(&self.value);
            Some(Notification::ContentChanged(self.value.to_string()))
        } else {
            None
        }
    }

    /// Handles the backspace key.
    fn backspace(&mut self) -> (out: Option<Notification>)
        ensures
            (final(self)@, told(out)) == old(self)@.after_backspace(),
    {
        let cursor = self.state.cursor_position(&self.value);
        if cursor > 0 {
            self.state.move_cursor_left(&self.value);
            let removed = self.value.remove(cursor - 1);
            assert(removed is Ok);
            Some(Notification::ContentChanged(self.value.to_string()))
        } else {
            None
        }
    }

    /// Handles the delete key.
    fn delete(&mut self) -> (out: Option<Notification>)
        ensures
            (final(self)@, told(out)) == old(self)@.after_delete(),
    {
        let cursor = self.state.cursor_position(&self.value);
        if cursor < self.value.len() {
            let removed = self.value.remove(cursor);
            assert(removed is Ok);
            Some(Notification::ContentChanged(self.value.to_string()))
        } else {
            None
        }
    }

    /// Handles the paste key going down with `modifiers` held, `pasted`
    /// being what the clipboard gave.
    fn paste(&mut self, modifiers: ModifiersState, pasted: Option<String>) -> (out: Option<
        Notification,
    >)
        ensures
            (final(self)@, told(out)) == old(self)@.after_paste(modifiers, text_of(pasted)),
    {
        if !is_copy_paste_modifier_pressed(modifiers, self.platform) {
            self.state.set_pasting(None);
            return None;
        }
        if self.state.is_pasting() {
            return None;
        }
        match pasted {
            None => None,
            Some(raw) => {
                let content = paste_content(raw.as_str());
                let cursor = self.state.cursor_position(&self.value);
                let inserted = self.value.insert_many(cursor, content.clone());
                assert(inserted is Ok);
                self.state.move_cursor_right_by_amount(&self.value, content.len());
                self.state.set_pasting(Some(content));
                Some(Notification::ContentChanged(self.value.to_string()))
            },
        }
    }

    /// Handles `key_code` going down with `modifiers` held while the field
    /// has the focus.
    fn key_press(
        &mut self,
        key_code: KeyCode,
        modifiers: ModifiersState,
        pasted: Option<String>,
    ) -> (out: Option<Notification>)
        ensures
            (final(self)@, told(out)) == old(self)@.after_key_press(
                key_code,
                modifiers,
                text_of(pasted),
            ),
    {
        let by_words = is_jump_modifier_pressed(modifiers, self.platform) && !self.is_secure;
        match key_code {
            KeyCode::Enter => {
                if self.on_submit {
                    Some(Notification::Submit)
                } else {
                    None
                }
            },
            KeyCode::Backspace => self.backspace(),
            KeyCode::Delete => self.delete(),
            KeyCode::Left => {
                if by_words {
                    self.state.move_cursor_left_by_words(&self.value);
                } else {
                    self.state.move_cursor_left(&self.value);
                }
                None
            },
            KeyCode::Right => {
                if by_words {
                    self.state.move_cursor_right_by_words(&self.value);
                } else {
                    self.state.move_cursor_right(&self.value);
                }
                None
            },
            KeyCode::Home => {
                self.state.move_cursor_to(0);
                None
            },
            KeyCode::End => {
                self.state.move_cursor_to_end(&self.value);
                None
            },
            KeyCode::V => self.paste(modifiers, pasted),
            KeyCode::Other => None,
        }
    }

    /// Whether `event` makes the field read the clipboard.
    pub fn asks_clipboard(&self, event: &Event) -> (asks: bool)
        ensures
            asks == self@.asks_clipboard(*event),
    {
        match event {
            Event::Keyboard(
                keyboard::Event::Input {
                    state: ButtonState::Pressed,
                    key_code: KeyCode::V,
                    modifiers,
                },
            ) => {
                self.state.is_focused() && !self.state.is_pasting()
                    && is_copy_paste_modifier_pressed(*modifiers, self.platform)
            },
            _ => false,
        }
    }

    /// Handles `event`, `pasted` being what the clipboard gives where the
    /// event asks for it, and returns what the field tells.
    pub fn update<R: Renderer>(
        &mut self,
        event: Event,
        layout: Layout,
        cursor_position: Point,
        renderer: &R,
        pasted: Option<String>,
    ) -> (out: Option<Notification>)
        ensures
            old(self)@.becomes(
                event,
                layout,
                cursor_position,
                renderer,
                text_of(pasted),
                final(self)@,
                told(out),
            ),
    {
        match event {
            Event::Mouse(
                mouse::Event::Input { state: ButtonState::Pressed, button: mouse::Button::Left },
            ) => {
                self.press(layout, cursor_position, renderer);
                None
            },
            Event::Keyboard(keyboard::Event::CharacterReceived(c)) => self.receive(c),
            Event::Keyboard(
                keyboard::Event::Input { state: ButtonState::Pressed, key_code, modifiers },
            ) => {
                if self.state.is_focused() {
                    self.key_press(key_code, modifiers, pasted)
                } else {
                    None
                }
            },
            Event::Keyboard(
                keyboard::Event::Input { state: ButtonState::Released, key_code: KeyCode::V, .. },
            ) => {
                self.state.set_pasting(None);
                None
            },
            _ => None,
        }
    }

    /// Handles `event` and returns what the field tells.
    ///
    /// The clipboard is read only where the event asks for it, and without
    /// a clipboard there is nothing to paste.
    pub fn on_event<R: Renderer, C: Clipboard>(
        &mut self,
        event: Event,
        layout: Layout,
        cursor_position: Point,
        renderer: &R,
        clipboard: Option<&C>,
    ) -> (out: Option<Notification>)
        ensures
            exists|pasted: Option<Seq<char>>|
                {
                    &&& #[trigger] old(self)@.becomes(
                        event,
                        layout,
                        cursor_position,
                        renderer,
                        pasted,
                        final(self)@,
                        told(out),
                    )
                    &&& !old(self)@.asks_clipboard(event) || clipboard.is_none()
                        ==> pasted.is_none()
                },
    {
        let pasted = if self.asks_clipboard(&event) {
            match clipboard {
                Some(clipboard) => clipboard.content(),
                None => None,
            }
        } else {
            None
        };
        self.update(event, layout, cursor_position, renderer, pasted)
    }
}

/// Makes the content of a paste out of what the clipboard gave: the
/// grapheme clusters of `raw` without its control codes.
pub fn paste_content(raw: &str) -> (content: Value)
    ensures
        content@ == grapheme_clusters(printable(raw@)),
{
    let kept = without_control_codes(raw);
    Value::new(kept.as_str())
}

/// Nothing is kept of no text, and one more scalar value is kept unless it
/// is a control code.
proof fn lemma_printable_push(seen: Seq<char>, c: char)
    ensures
        printable(Seq::empty()) == Seq::<char>::empty(),
        printable(seen.push(c)) == if is_control(c) {
            printable(seen)
        } else {
            printable(seen).push(c)
        },
{
    reveal(Seq::filter);
    assert(seen.push(c).drop_last() == seen);
}

/// Copies `raw` without its control codes.
#[verifier::loop_isolation(false)]
pub fn without_control_codes(raw: &str) -> (kept: String)
    ensures
        kept@ == printable(raw@),
{
    let mut kept = String::new();
    proof {
        lemma_printable_push(Seq::empty(), ' ');
    }
    for c in it: raw.chars()
        invariant
            it.seq() == raw@,
            kept@ == printable(raw@.take(it.index() as int)),
    {
        proof {
            let seen = raw@.take(it.index() as int);
            assert(raw@.take(it.index() + 1) == seen.push(c));
            lemma_printable_push(seen, c);
        }
        if !char_is_control(c) {
            push_char(&mut kept, c);
        }
    }
    assert(raw@.take(raw@.len() as int) == raw@);
    kept
}

} // verus!
