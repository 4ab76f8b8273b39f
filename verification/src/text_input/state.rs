//! The caret, the focus and the paste in progress of a text field.
use crate::text_input::value::{clamped, word_end_after, word_start_before, Value};
use vstd::prelude::*;

verus! {

/// What a [`State`] holds, with the recorded paste as its clusters.
pub struct StateView {
    /// Whether the field has the focus.
    pub is_focused: bool,
    /// The content that the paste in progress inserted, if one is in
    /// progress.
    pub is_pasting: Option<Seq<Seq<char>>>,
    /// The caret as it is stored. It may lie beyond the end of the value:
    /// every reader clamps it first.
    pub cursor_position: usize,
}

impl StateView {
    /// The caret within a value of these `clusters`: the stored caret,
    /// clamped to their number.
    pub open spec fn cursor(self, clusters: Seq<Seq<char>>) -> int {
        clamped(self.cursor_position as int, clusters.len() as int)
    }

    /// The same state with the caret stored as `cursor_position`.
    pub open spec fn with_cursor(self, cursor_position: usize) -> StateView {
        StateView { cursor_position, ..self }
    }

    /// The same state with `is_pasting` as the paste in progress.
    pub open spec fn with_pasting(self, is_pasting: Option<Seq<Seq<char>>>) -> StateView {
        StateView { is_pasting, ..self }
    }

    /// The same state with the focus set to `is_focused`.
    pub open spec fn with_focus(self, is_focused: bool) -> StateView {
        StateView { is_focused, ..self }
    }

    /// The state after the caret went one cluster to the left, if it was not
    /// at the start.
    pub open spec fn moved_left(self, clusters: Seq<Seq<char>>) -> StateView {
        let current = self.cursor(clusters);
        if current > 0 {
            self.with_cursor((current - 1) as usize)
        } else {
            self
        }
    }

    /// The state after the caret went `amount` clusters to the right, if
    /// that many follow it. The sum saturates at `usize::MAX`.
    pub open spec fn moved_right_by(self, clusters: Seq<Seq<char>>, amount: usize) -> StateView {
        let current = self.cursor(clusters);
        let reach = if current + amount > usize::MAX {
            usize::MAX as int
        } else {
            current + amount
        };
        if reach <= clusters.len() {
            self.with_cursor(reach as usize)
        } else {
            self
        }
    }

    /// The state after the caret went to the start of the word before it,
    /// if there is such a place.
    pub open spec fn moved_left_by_words(self, clusters: Seq<Seq<char>>) -> StateView {
        let start = word_start_before(clusters, self.cursor(clusters));
        if start >= 0 {
            self.with_cursor(start as usize)
        } else {
            self
        }
    }

    /// The state after the caret went to the end of the word after it, if a
    /// `usize` can hold that place.
    pub open spec fn moved_right_by_words(self, clusters: Seq<Seq<char>>) -> StateView {
        let end = word_end_after(clusters, self.cursor(clusters));
        if end <= usize::MAX {
            self.with_cursor(end as usize)
        } else {
            self
        }
    }
}

/// The state of a text field.
#[derive(Debug)]
pub struct State {
    is_focused: bool,
    is_pasting: Option<Value>,
    cursor_position: usize,
}

impl View for State {
    type V = StateView;

    closed spec fn view(&self) -> StateView {
        StateView {
            is_focused: self.is_focused,
            is_pasting: match self.is_pasting {
                Some(content) => Some(content@),
                None => None,
            },
            cursor_position: self.cursor_position,
        }
    }
}

impl Default for State {
    /// The state of a field without the focus, the caret at the start.
    fn default() -> (state: State)
        ensures
            state@ == (StateView { is_focused: false, is_pasting: None, cursor_position: 0 }),
    {
        State { is_focused: false, is_pasting: None, cursor_position: 0 }
    }
}

impl Clone for State {
    /// A state of its own that holds the same.
    fn clone(&self) -> (copy: State)
        ensures
            copy@ == self@,
    {
        let is_pasting = match &self.is_pasting {
            Some(content) => Some(content.clone()),
            None => None,
        };
        State { is_focused: self.is_focused, is_pasting, cursor_position: self.cursor_position }
    }
}

impl State {
    /// Creates the state of a field without the focus, the caret at the
    /// start.
    pub fn new() -> (state: State)
        ensures
            state@ == (StateView { is_focused: false, is_pasting: None, cursor_position: 0 }),
    {
        State::default()
    }

    /// Creates the state of a field with the focus, the caret at the end of
    /// whatever value the field has.
    pub fn focused() -> (state: State)
        ensures
            state@ == (StateView {
                is_focused: true,
                is_pasting: None,
                cursor_position: usize::MAX,
            }),
    {
        State { is_focused: true, is_pasting: None, cursor_position: usize::MAX }
    }

    /// Whether the field has the focus.
    pub fn is_focused(&self) -> (focused: bool)
        ensures
            focused == self@.is_focused,
    {
        self.is_focused
    }

    /// Whether a paste is in progress.
    pub fn is_pasting(&self) -> (pasting: bool)
        ensures
            pasting == self@.is_pasting.is_some(),
    {
        self.is_pasting.is_some()
    }

    /// The caret within `value`: a cluster index from 0 to its length.
    pub fn cursor_position(&self, value: &Value) -> (cursor: usize)
        ensures
            cursor == self@.cursor(value@),
            cursor <= value@.len(),
    {
        let len = value.len();
        if self.cursor_position < len {
            self.cursor_position
        } else {
            len
        }
    }

    /// Gives or takes the focus.
    pub fn set_focus(&mut self, is_focused: bool)
        ensures
            final(self)@ == old(self)@.with_focus(is_focused),
    {
        self.is_focused = is_focused;
    }

    /// Records `content` as what the paste in progress inserted, or that
    /// none is in progress.
    pub fn set_pasting(&mut self, content: Option<Value>)
        ensures
            final(self)@ == old(self)@.with_pasting(
                match content {
                    Some(content) => Some(content@),
                    None => None,
                },
            ),
    {
        self.is_pasting = content;
    }

    /// Puts the caret at `cursor_position`.
    pub fn move_cursor_to(&mut self, cursor_position: usize)
        ensures
            final(self)@ == old(self)@.with_cursor(cursor_position),
    {
        self.cursor_position = cursor_position;
    }

    /// Moves the caret one cluster to the left, unless it is at the start.
    pub fn move_cursor_left(&mut self, value: &Value)
        ensures
            final(self)@ == old(self)@.moved_left(value@),
    {
        let current = self.cursor_position(value);
        if current > 0 {
            self.cursor_position = current - 1;
        }
    }

    /// Moves the caret one cluster to the right, unless it is at the end.
    pub fn move_cursor_right(&mut self, value: &Value)
        ensures
            final(self)@ == old(self)@.moved_right_by(value@, 1),
    {
        self.move_cursor_right_by_amount(value, 1)
    }

    /// Moves the caret `amount` clusters to the right, unless fewer follow
    /// it.
    pub fn move_cursor_right_by_amount(&mut self, value: &Value, amount: usize)
        ensures
            final(self)@ == old(self)@.moved_right_by(value@, amount),
    {
        let current = self.cursor_position(value);
        let new_position = current.saturating_add(amount);
        if new_position <= value.len() {
            self.cursor_position = new_position;
        }
    }

    /// Moves the caret to the start of the word before it.
    ///
    /// Leaves it where it is if the clusters of that word and of what
    /// follows it outnumber the caret.
    pub fn move_cursor_left_by_words(&mut self, value: &Value)
        ensures
            final(self)@ == old(self)@.moved_left_by_words(value@),
    {
        let current = self.cursor_position(value);
        match value.checked_previous_start_of_word(current) {
            Some(start) => self.cursor_position = start,
            None => {},
        }
    }

    /// Moves the caret to the end of the word after it.
    ///
    /// Leaves it where it is if no `usize` can hold that place.
    pub fn move_cursor_right_by_words(&mut self, value: &Value)
        ensures
            final(self)@ == old(self)@.moved_right_by_words(value@),
    {
        let current = self.cursor_position(value);
        match value.checked_next_end_of_word(current) {
            Some(end) => self.cursor_position = end,
            None => {},
        }
    }

    /// Moves the caret to the end of `value`.
    pub fn move_cursor_to_end(&mut self, value: &Value)
        ensures
            final(self)@ == old(self)@.with_cursor(value@.len() as usize),
    {
        self.cursor_position = value.len();
    }
}

} // verus!
