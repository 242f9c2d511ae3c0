//! A labelled free-text field.

use vstd::prelude::*;
use crate::key::KeyCode;

verus! {

/// A text field: a fixed label and the text typed so far.
#[derive(Debug)]
pub struct StringField {
    label: &'static str,
    value: String,
}

/// What a text becomes when `key` is typed into it: a character is added at
/// the end, Backspace takes the last one away, every other key does nothing.
pub open spec fn typed(text: Seq<char>, key: KeyCode) -> Seq<char> {
    match key {
        KeyCode::Char(c) => text.push(c),
        KeyCode::Backspace => if text.len() > 0 {
            text.drop_last()
        } else {
            text
        },
        _ => text,
    }
}

/// `String::push` of std: the character is appended to the text.
#[verifier::external_body]
fn push_char(text: &mut String, c: char)
    ensures
        final(text)@ == old(text)@.push(c),
{
    text.push(c);
}

/// `String::pop` of std: the last character is removed and returned, or
/// `None` is returned and the text left alone when it is empty.
#[verifier::external_body]
fn pop_char(text: &mut String) -> (last: Option<char>)
    ensures
        old(text)@.len() == 0 ==> last == None::<char> && final(text)@ == old(text)@,
        old(text)@.len() > 0 ==> last == Some(old(text)@.last()) && final(text)@ == old(text)@.drop_last(),
{
    text.pop()
}

impl Clone for StringField {
    fn clone(&self) -> (copy: StringField)
        ensures
            copy.label() == self.label(),
            copy.text() == self.text(),
    {
        StringField { label: self.label, value: self.value.clone() }
    }
}

impl StringField {
    /// The label shown before the text.
    pub closed spec fn label(&self) -> Seq<char> {
        self.label@
    }

    /// The text typed so far.
    pub closed spec fn text(&self) -> Seq<char> {
        self.value@
    }

    /// An empty field under `label`.
    pub fn new(label: &'static str) -> (field: StringField)
        ensures
            field.label() == label@,
            field.text() == Seq::<char>::empty(),
    {
        StringField { label, value: String::new() }
    }

    /// A copy of this field that starts out holding `value`.
    pub fn set_default_value(&self, value: String) -> (field: StringField)
        ensures
            field.label() == self.label(),
            field.text() == value@,
    {
        StringField { label: self.label, value }
    }

    /// Replaces the text.
    pub fn set_value(&mut self, value: String)
        ensures
            final(self).label() == old(self).label(),
            final(self).text() == value@,
    {
        self.value = value;
    }

    pub fn get_value(&self) -> (value: &str)
        ensures
            value@ == self.text(),
    {
        self.value.as_str()
    }

    pub fn get_label(&self) -> (label: &'static str)
        ensures
            label@ == self.label(),
    {
        self.label
    }

    /// Applies one key press to the text.
    pub fn on_key_press(&mut self, key: KeyCode)
        ensures
            final(self).label() == old(self).label(),
            final(self).text() == typed(old(self).text(), key),
    {
        match key {
            KeyCode::Char(c) => {
                push_char(&mut self.value, c);
            },
            KeyCode::Backspace => {
                let _ = pop_char(&mut self.value);
            },
            _ => {},
        }
    }

    /// Empties the text; the label stays.
    pub fn clear(&mut self)
        ensures
            final(self).label() == old(self).label(),
            final(self).text() == Seq::<char>::empty(),
    {
        self.value = String::new();
    }

    pub fn is_empty(&self) -> (empty: bool)
        ensures
            empty == (self.text().len() == 0),
    {
        self.value.as_str().is_empty()
    }
}

/// Backspace undoes the character typed just before it.
pub proof fn backspace_undoes_char(text: Seq<char>, c: char)
    ensures
        typed(typed(text, KeyCode::Char(c)), KeyCode::Backspace) == text,
{
    assert(text.push(c).drop_last() =~= text);
}

} // verus!
