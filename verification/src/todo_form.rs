//! The form that edits one record: four fields, a focus that moves among
//! them, and the status machine that gates typing.

use vstd::prelude::*;
use crate::form::form_inputs::enum_field::{choice_after, EnumField};
use crate::form::form_inputs::string_field::{typed, StringField};
use crate::form::form_status::{forwarded_key, is_submit_combo, next_status, FormStatus};
use crate::key::{KeyCode, KeyEvent};
use crate::todo::{fresh_id, TodoItem, TodoStatus, ID_TEXT_LEN};

verus! {

/// The field of the form that has the focus. The fields stand in the order
/// id, title, description, status.
#[derive(Clone, Copy, Debug, PartialEq, Eq, Structural)]
pub enum TodoFormState {
    Id,
    Title,
    Description,
    Status,
}

impl Default for TodoFormState {
    fn default() -> (focus: TodoFormState)
        ensures
            focus == TodoFormState::Title,
    {
        TodoFormState::Title
    }
}

/// The field after `focus`, the last one wrapping round to the first.
pub open spec fn next_focus(focus: TodoFormState) -> TodoFormState {
    match focus {
        TodoFormState::Id => TodoFormState::Title,
        TodoFormState::Title => TodoFormState::Description,
        TodoFormState::Description => TodoFormState::Status,
        TodoFormState::Status => TodoFormState::Id,
    }
}

/// The field before `focus`, the first one wrapping round to the last.
pub open spec fn previous_focus(focus: TodoFormState) -> TodoFormState {
    match focus {
        TodoFormState::Id => TodoFormState::Status,
        TodoFormState::Title => TodoFormState::Id,
        TodoFormState::Description => TodoFormState::Title,
        TodoFormState::Status => TodoFormState::Description,
    }
}

/// Where the focus is after `key` is pressed: Tab and BackTab move it when
/// the status machine lets them through, nothing else does.
pub open spec fn focus_after(
    status: FormStatus,
    focus: TodoFormState,
    key: KeyCode,
    key_event: KeyEvent,
) -> TodoFormState {
    match forwarded_key(status, key, key_event) {
        Some(KeyCode::Tab) => next_focus(focus),
        Some(KeyCode::BackTab) => previous_focus(focus),
        _ => focus,
    }
}

/// The key that `field` receives when `key` is pressed: the key itself when
/// the status machine lets it through, it does not move the focus, and
/// `field` has the focus; otherwise none.
pub open spec fn key_reaching(
    status: FormStatus,
    focus: TodoFormState,
    key: KeyCode,
    key_event: KeyEvent,
    field: TodoFormState,
) -> Option<KeyCode> {
    match forwarded_key(status, key, key_event) {
        Some(k) => if k != KeyCode::Tab && k != KeyCode::BackTab && focus == field {
            Some(k)
        } else {
            None
        },
        None => None,
    }
}

/// The text of a field after it has received `key`, if any.
pub open spec fn text_after(text: Seq<char>, key: Option<KeyCode>) -> Seq<char> {
    match key {
        Some(k) => typed(text, k),
        None => text,
    }
}

/// The chosen position of a choice field after it has received `key`, if any.
pub open spec fn selected_after(selected: int, len: int, key: Option<KeyCode>) -> int {
    match key {
        Some(k) => choice_after(selected, len, k),
        None => selected,
    }
}

/// The statuses a record can be given, in the order the form offers them.
pub open spec fn status_options() -> Seq<TodoStatus> {
    seq![TodoStatus::Pending, TodoStatus::InProgress, TodoStatus::Completed]
}

/// The form for one record.
#[derive(Debug)]
pub struct TodoForm {
    pub form_status: FormStatus,
    pub form_render_state: TodoFormState,
    pub id: StringField,
    pub title: StringField,
    pub description: StringField,
    pub status: EnumField<TodoStatus>,
}

impl Default for TodoForm {
    /// An empty form with a fresh id, the focus on the title.
    fn default() -> (form: TodoForm)
        ensures
            form.is_fresh(),
    {
        let options: &'static [TodoStatus] = &[
            TodoStatus::Pending,
            TodoStatus::InProgress,
            TodoStatus::Completed,
        ];
        assert(options@ =~= status_options());
        TodoForm {
            form_status: FormStatus::default(),
            form_render_state: TodoFormState::default(),
            id: StringField::new("ID").set_default_value(fresh_id()),
            title: StringField::new("Title"),
            description: StringField::new("Description"),
            status: EnumField::new("Status", options),
        }
    }
}

impl TodoForm {
    /// A form as it starts out: being viewed, the focus on the title, a
    /// fresh id, no title and no description, the first status chosen.
    pub open spec fn is_fresh(&self) -> bool {
        &&& self.form_status == FormStatus::Viewing
        &&& self.form_render_state == TodoFormState::Title
        &&& self.id.label() == "ID"@
        &&& self.id.text().len() == ID_TEXT_LEN
        &&& self.title.label() == "Title"@
        &&& self.title.text() == Seq::<char>::empty()
        &&& self.description.label() == "Description"@
        &&& self.description.text() == Seq::<char>::empty()
        &&& self.status.label() == "Status"@
        &&& self.status.options() == status_options()
        &&& self.status.selected() == 0
    }

    /// Everything of the form that a contract can see is the same in `self`
    /// and `other`, but for the three texts.
    pub open spec fn same_but_texts(&self, other: &TodoForm) -> bool {
        &&& self.form_status == other.form_status
        &&& self.form_render_state == other.form_render_state
        &&& self.id.label() == other.id.label()
        &&& self.title.label() == other.title.label()
        &&& self.description.label() == other.description.label()
        &&& self.status.label() == other.status.label()
        &&& self.status.options() == other.status.options()
        &&& self.status.selected() == other.status.selected()
    }

    /// Whether the required fields, title and description, are filled in.
    pub open spec fn complete(&self) -> bool {
        self.title.text().len() > 0 && self.description.text().len() > 0
    }

    /// Whether `after` is this form after one press of `key`: the status and
    /// the focus have moved as the key says, each field has taken the key
    /// if it reached that field, and labels and options are as before.
    pub open spec fn pressed(&self, key: KeyCode, key_event: KeyEvent, after: &TodoForm) -> bool {
        let status = self.form_status;
        let focus = self.form_render_state;
        &&& after.form_status == next_status(status, key, key_event)
        &&& after.form_render_state == focus_after(status, focus, key, key_event)
        &&& after.id.label() == self.id.label()
        &&& after.title.label() == self.title.label()
        &&& after.description.label() == self.description.label()
        &&& after.status.label() == self.status.label()
        &&& after.status.options() == self.status.options()
        &&& after.id.text() == text_after(
            self.id.text(),
            key_reaching(status, focus, key, key_event, TodoFormState::Id),
        )
        &&& after.title.text() == text_after(
            self.title.text(),
            key_reaching(status, focus, key, key_event, TodoFormState::Title),
        )
        &&& after.description.text() == text_after(
            self.description.text(),
            key_reaching(status, focus, key, key_event, TodoFormState::Description),
        )
        &&& after.status.selected() == selected_after(
            self.status.selected(),
            self.status.options().len() as int,
            key_reaching(status, focus, key, key_event, TodoFormState::Status),
        )
    }

    /// Empties the texts and gives the form the id `id`; the choice, the
    /// focus and the status stay.
    pub fn reset_with_id(&mut self, id: String)
        ensures
            final(self).same_but_texts(old(self)),
            final(self).id.text() == id@,
            final(self).title.text() == Seq::<char>::empty(),
            final(self).description.text() == Seq::<char>::empty(),
    {
        self.clear();
        self.id.set_value(id);
    }

    /// Empties the texts and gives the form a fresh id; the choice, the
    /// focus and the status stay.
    pub fn reset(&mut self)
        ensures
            final(self).same_but_texts(old(self)),
            final(self).id.text().len() == ID_TEXT_LEN,
            final(self).title.text() == Seq::<char>::empty(),
            final(self).description.text() == Seq::<char>::empty(),
    {
        let id = fresh_id();
        self.reset_with_id(id);
    }

    /// Handles one key press. The status machine sees the key first; what it
    /// lets through moves the focus if it is Tab or BackTab, and goes to the
    /// focused field otherwise.
    pub fn on_key_press(&mut self, key: KeyCode, key_event: KeyEvent)
        ensures
            old(self).pressed(key, key_event, final(self)),
    {
        let forwarded = self.form_status.handle_key_press(key, key_event);
        match forwarded {
            None => {},
            Some(KeyCode::Tab) => {
                self.next_field();
            },
            Some(KeyCode::BackTab) => {
                self.previous_field();
            },
            Some(k) => {
                match self.form_render_state {
                    TodoFormState::Id => self.id.on_key_press(k),
                    TodoFormState::Title => self.title.on_key_press(k),
                    TodoFormState::Description => self.description.on_key_press(k),
                    TodoFormState::Status => self.status.on_key_press(k),
                }
            },
        }
    }

    /// Moves the focus to the next field.
    pub fn next_field(&mut self)
        ensures
            final(self).form_render_state == next_focus(old(self).form_render_state),
            final(self).form_status == old(self).form_status,
            final(self).id == old(self).id,
            final(self).title == old(self).title,
            final(self).description == old(self).description,
            final(self).status == old(self).status,
    {
        self.form_render_state =
        match self.form_render_state {
            TodoFormState::Id => TodoFormState::Title,
            TodoFormState::Title => TodoFormState::Description,
            TodoFormState::Description => TodoFormState::Status,
            TodoFormState::Status => TodoFormState::Id,
        }
    }

    /// Moves the focus to the field before.
    pub fn previous_field(&mut self)
        ensures
            final(self).form_render_state == previous_focus(old(self).form_render_state),
            final(self).form_status == old(self).form_status,
            final(self).id == old(self).id,
            final(self).title == old(self).title,
            final(self).description == old(self).description,
            final(self).status == old(self).status,
    {
        self.form_render_state =
        match self.form_render_state {
            TodoFormState::Id => TodoFormState::Status,
            TodoFormState::Title => TodoFormState::Id,
            TodoFormState::Description => TodoFormState::Title,
            TodoFormState::Status => TodoFormState::Description,
        }
    }

    /// Empties the three texts; everything else stays.
    pub fn clear(&mut self)
        ensures
            final(self).same_but_texts(old(self)),
            final(self).id.text() == Seq::<char>::empty(),
            final(self).title.text() == Seq::<char>::empty(),
            final(self).description.text() == Seq::<char>::empty(),
    {
        self.id.clear();
        self.title.clear();
        self.description.clear();
    }

    /// Whether the form may be handed in: title and description are filled in.
    pub fn is_complete(&self) -> (complete: bool)
        ensures
            complete == self.complete(),
    {
        !self.title.is_empty() && !self.description.is_empty()
    }

    /// The record that the form describes; a new record is not completed.
    pub fn to_item(&self) -> (item: TodoItem)
        ensures
            item.id@ == self.id.text(),
            item.title@ == self.title.text(),
            item.description@ == self.description.text(),
            !item.completed,
            item.status == self.status.options()[self.status.selected()],
    {
        TodoItem::new(
            self.id.get_value(),
            self.title.get_value(),
            self.description.get_value(),
            self.status.get_value(),
        )
    }
}

/// The focus goes round: four moves forward bring it back, and so do four
/// moves backward.
pub proof fn focus_comes_full_circle(focus: TodoFormState)
    ensures
        next_focus(next_focus(next_focus(next_focus(focus)))) == focus,
        previous_focus(previous_focus(previous_focus(previous_focus(focus)))) == focus,
{
}

/// A move forward and a move backward cancel each other.
pub proof fn focus_moves_cancel(focus: TodoFormState)
    ensures
        previous_focus(next_focus(focus)) == focus,
        next_focus(previous_focus(focus)) == focus,
{
}

/// While the form is being edited the submit combination hands it in
/// whichever field has the focus, and changes neither the focus nor a field.
pub proof fn submit_ignores_focus(form: TodoForm, key: KeyCode, key_event: KeyEvent, after: TodoForm)
    requires
        form.form_status == FormStatus::Editing,
        is_submit_combo(key, key_event),
        form.pressed(key, key_event, &after),
    ensures
        after.form_status == FormStatus::Submitting,
        after.form_render_state == form.form_render_state,
        after.id.text() == form.id.text(),
        after.title.text() == form.title.text(),
        after.description.text() == form.description.text(),
        after.status.selected() == form.status.selected(),
{
}

/// A form that was handed in takes no further input: no key changes its
/// status, its focus or a field.
pub proof fn submitted_form_is_frozen(
    form: TodoForm,
    key: KeyCode,
    key_event: KeyEvent,
    after: TodoForm,
)
    requires
        form.form_status == FormStatus::Submitting,
        form.pressed(key, key_event, &after),
    ensures
        after.form_status == FormStatus::Submitting,
        after.form_render_state == form.form_render_state,
        after.id.text() == form.id.text(),
        after.title.text() == form.title.text(),
        after.description.text() == form.description.text(),
        after.status.selected() == form.status.selected(),
{
}

/// While the form is not being edited no key changes a field or moves the
/// focus, whichever field has the focus.
pub proof fn only_editing_reaches_fields(
    status: FormStatus,
    focus: TodoFormState,
    key: KeyCode,
    key_event: KeyEvent,
    field: TodoFormState,
)
    requires
        status != FormStatus::Editing,
    ensures
        key_reaching(status, focus, key, key_event, field) == None::<KeyCode>,
        focus_after(status, focus, key, key_event) == focus,
{
}

/// A key reaches at most the field that has the focus.
pub proof fn only_focused_field_receives(
    status: FormStatus,
    focus: TodoFormState,
    key: KeyCode,
    key_event: KeyEvent,
    field: TodoFormState,
)
    requires
        field != focus,
    ensures
        key_reaching(status, focus, key, key_event, field) == None::<KeyCode>,
{
}

} // verus!
