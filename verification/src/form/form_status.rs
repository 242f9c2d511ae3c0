//! The three-state machine that decides whether a key reaches the focused
//! field of a form.

use vstd::prelude::*;
use crate::key::{KeyCode, KeyEvent};

verus! {

/// Whether a form is being looked at, typed into, or handed in.
#[derive(Clone, Copy, Debug, PartialEq, Eq, Structural)]
pub enum FormStatus {
    Viewing,
    Editing,
    Submitting,
}

/// A key pressed while the control key is held.
pub open spec fn is_control_chord(key_event: KeyEvent) -> bool {
    key_event.modifiers.control
}

/// The combination that hands the form in: control together with `s`.
pub open spec fn is_submit_combo(key: KeyCode, key_event: KeyEvent) -> bool {
    is_control_chord(key_event) && key == KeyCode::Char('s')
}

/// The confirm key: Enter without the control key.
pub open spec fn is_confirm(key: KeyCode, key_event: KeyEvent) -> bool {
    !is_control_chord(key_event) && key == KeyCode::Enter
}

/// The status that follows `status` when `key` is pressed.
pub open spec fn next_status(status: FormStatus, key: KeyCode, key_event: KeyEvent) -> FormStatus {
    if is_submit_combo(key, key_event) {
        FormStatus::Submitting
    } else if is_control_chord(key_event) {
        status
    } else {
        match status {
            FormStatus::Viewing => if key == KeyCode::Enter {
                FormStatus::Editing
            } else {
                FormStatus::Viewing
            },
            FormStatus::Editing => if key == KeyCode::Enter {
                FormStatus::Viewing
            } else {
                FormStatus::Editing
            },
            FormStatus::Submitting => FormStatus::Submitting,
        }
    }
}

/// The key handed on to the form when `key` is pressed in `status`: only an
/// unmodified key other than Enter, and only while editing.
pub open spec fn forwarded_key(status: FormStatus, key: KeyCode, key_event: KeyEvent) -> Option<
    KeyCode,
> {
    if !is_control_chord(key_event) && status == FormStatus::Editing && key != KeyCode::Enter {
        Some(key)
    } else {
        None
    }
}

impl Default for FormStatus {
    fn default() -> (s: FormStatus)
        ensures
            s == FormStatus::Viewing,
    {
        FormStatus::Viewing
    }
}

impl FormStatus {
    /// Advances the machine by one key press and returns the key if it is
    /// meant for the focused field. The submit combination is looked at
    /// before the current status, so it works from every status.
    pub fn handle_key_press(&mut self, key: KeyCode, key_event: KeyEvent) -> (out: Option<KeyCode>)
        ensures
            *final(self) == next_status(*old(self), key, key_event),
            out == forwarded_key(*old(self), key, key_event),
    {
        if key_event.modifiers.control {
            match key {
                KeyCode::Char(c) => {
                    if c == 's' {
                        *self = FormStatus::Submitting;
                    }
                },
                _ => {},
            }
            return None;
        }
        match *self {
            FormStatus::Viewing => {
                match key {
                    KeyCode::Enter => {
                        *self = FormStatus::Editing;
                        None
                    },
                    _ => None,
                }
            },
            FormStatus::Editing => {
                match key {
                    KeyCode::Enter => {
                        *self = FormStatus::Viewing;
                        None
                    },
                    _ => Some(key),
                }
            },
            FormStatus::Submitting => None,
        }
    }

    /// Back to `Viewing`.
    pub fn reset(&mut self)
        ensures
            *final(self) == FormStatus::Viewing,
    {
        *self = FormStatus::Viewing;
    }

    /// Puts a rejected submission back into `Editing`; any other status stays.
    pub fn resume_editing(&mut self)
        ensures
            *final(self) == (if *old(self) == FormStatus::Submitting {
                FormStatus::Editing
            } else {
                *old(self)
            }),
    {
        match *self {
            FormStatus::Submitting => {
                *self = FormStatus::Editing;
            },
            _ => {},
        }
    }

    /// The name of the status as shown to the user.
    pub open spec fn name(self) -> Seq<char> {
        match self {
            FormStatus::Viewing => "Viewing"@,
            FormStatus::Editing => "Editing"@,
            FormStatus::Submitting => "Submitting"@,
        }
    }

    pub fn to_str(&self) -> (s: &'static str)
        ensures
            s@ == self.name(),
    {
        match self {
            FormStatus::Viewing => "Viewing",
            FormStatus::Editing => "Editing",
            FormStatus::Submitting => "Submitting",
        }
    }

    pub fn _is_viewing(&self) -> (b: bool)
        ensures
            b == (*self == FormStatus::Viewing),
    {
        matches!(self, FormStatus::Viewing)
    }

    pub fn is_editing(&self) -> (b: bool)
        ensures
            b == (*self == FormStatus::Editing),
    {
        matches!(self, FormStatus::Editing)
    }

    pub fn is_submitting(&self) -> (b: bool)
        ensures
            b == (*self == FormStatus::Submitting),
    {
        matches!(self, FormStatus::Submitting)
    }
}

/// From `Viewing`, a key that is neither the confirm key nor the submit
/// combination leaves the status as it is and hands nothing to a field.
pub proof fn viewing_absorbs_other_keys(key: KeyCode, key_event: KeyEvent)
    requires
        !is_confirm(key, key_event),
        !is_submit_combo(key, key_event),
    ensures
        next_status(FormStatus::Viewing, key, key_event) == FormStatus::Viewing,
        forwarded_key(FormStatus::Viewing, key, key_event) == None::<KeyCode>,
{
}

/// From `Viewing`, no key at all is handed to a field.
pub proof fn viewing_forwards_nothing(key: KeyCode, key_event: KeyEvent)
    ensures
        forwarded_key(FormStatus::Viewing, key, key_event) == None::<KeyCode>,
{
}

/// The submit combination leads to `Submitting` from every status and is
/// never handed to a field.
pub proof fn submit_combo_always_submits(status: FormStatus, key: KeyCode, key_event: KeyEvent)
    requires
        is_submit_combo(key, key_event),
    ensures
        next_status(status, key, key_event) == FormStatus::Submitting,
        forwarded_key(status, key, key_event) == None::<KeyCode>,
{
}

/// Once `Submitting`, the machine stays there and hands nothing on,
/// whatever is pressed.
pub proof fn submitting_rejects_input(key: KeyCode, key_event: KeyEvent)
    ensures
        next_status(FormStatus::Submitting, key, key_event) == FormStatus::Submitting,
        forwarded_key(FormStatus::Submitting, key, key_event) == None::<KeyCode>,
{
}

} // verus!
