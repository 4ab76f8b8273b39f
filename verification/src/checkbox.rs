//! Boxes that can be checked.
use crate::color::Color;
use vstd::prelude::*;
use vstd::std_specs::convert::IntoSpec;

verus! {

/// What a [`Checkbox`] holds, besides what it does when it is toggled.
pub struct CheckboxView {
    /// Whether the box is checked.
    pub is_checked: bool,
    /// The label beside the box.
    pub label: Seq<char>,
    /// The color of the label, where one is set.
    pub label_color: Option<Color>,
}

/// A box that can be checked.
///
/// `F` makes a message of the new state of the box when it is toggled.
pub struct Checkbox<F> {
    is_checked: bool,
    on_toggle: F,
    label: String,
    label_color: Option<Color>,
}

impl<F> View for Checkbox<F> {
    type V = CheckboxView;

    closed spec fn view(&self) -> CheckboxView {
        CheckboxView {
            is_checked: self.is_checked,
            label: self.label@,
            label_color: self.label_color,
        }
    }
}

impl<F> Checkbox<F> {
    /// What makes a message of the new state of the box.
    pub closed spec fn on_toggle(&self) -> F {
        self.on_toggle
    }

    /// Creates a checkbox from whether it is checked, its label, and the
    /// function that makes a message of its new state when it is toggled.
    pub fn new<Message>(is_checked: bool, label: &str, f: F) -> (checkbox: Checkbox<F>) where
        F: Fn(bool) -> Message,

        ensures
            checkbox@ == (CheckboxView { is_checked, label: label@, label_color: None }),
            checkbox.on_toggle() == f,
    {
        Checkbox { is_checked, on_toggle: f, label: label.to_owned(), label_color: None }
    }

    /// Sets the color of the label.
    pub fn label_color<C: Into<Color>>(self, color: C) -> (checkbox: Checkbox<F>)
        ensures
            checkbox@ == (CheckboxView { label_color: checkbox@.label_color, ..self@ }),
            checkbox@.label_color.is_some(),
            C::obeys_into_spec() ==> checkbox@.label_color == Some(color.into_spec()),
            checkbox.on_toggle() == self.on_toggle(),
    {
        let mut checkbox = self;
        checkbox.label_color = Some(color.into());
        checkbox
    }

    /// Whether the box is checked.
    pub fn is_checked(&self) -> (is_checked: bool)
        ensures
            is_checked == self@.is_checked,
    {
        self.is_checked
    }

    /// The label beside the box.
    pub fn label(&self) -> (label: &str)
        ensures
            label@ == self@.label,
    {
        self.label.as_str()
    }

    /// The message of the box once it is toggled: the one that its function
    /// makes of the state that the box is not in.
    pub fn toggled<Message>(&self) -> (message: Message) where F: Fn(bool) -> Message
        requires
            call_requires(self.on_toggle(), (!self@.is_checked,)),
        ensures
            call_ensures(self.on_toggle(), (!self@.is_checked,), message),
    {
        (self.on_toggle)(!self.is_checked)
    }
}

} // verus!
