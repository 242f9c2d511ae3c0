//! The top-level router: which component a key goes to in each mode of the
//! application, and what the session has to do next.

use vstd::prelude::*;
use crate::form::form_status::FormStatus;
use crate::key::{KeyCode, KeyEvent};
use crate::todo::{TodoItem, ID_TEXT_LEN};
use crate::todo_form::TodoForm;
use crate::todo_list::{
    in_bounds,
    selection_after,
    selection_after_removal,
    selection_before,
    selection_first,
    selection_last,
    TodoList,
};

verus! {

/// What the keyboard currently drives.
#[derive(Clone, Copy, Debug, PartialEq, Eq, Structural)]
pub enum AppMode {
    Normal,
    Editing,
    Adding,
}

/// What the session has to do after a key was handled.
#[derive(Clone, Copy, Debug, PartialEq, Eq, Structural)]
pub enum Action {
    /// Wait for the next key.
    Continue,
    /// Write the list to storage, then wait for the next key.
    Save,
    /// Write the list to storage and end the session.
    SaveAndQuit,
}

/// The whole state of the application.
#[derive(Debug)]
pub struct AppState {
    pub todos: TodoList,
    pub form: TodoForm,
    pub mode: AppMode,
}

/// The combination that saves and ends the session: control with `c`.
pub open spec fn is_quit_combo(key: KeyCode, key_event: KeyEvent) -> bool {
    key_event.modifiers.control && key == KeyCode::Char('c')
}

/// The keys that only move the selection.
pub open spec fn is_navigation_key(key: KeyCode) -> bool {
    ||| key == KeyCode::Char('h')
    ||| key == KeyCode::Char('j')
    ||| key == KeyCode::Char('k')
    ||| key == KeyCode::Char('l')
    ||| key == KeyCode::Char('L')
}

/// The mode that follows `Normal` mode's handling of a key: control with
/// `a` starts adding, control with `e` starts editing.
pub open spec fn mode_after_normal_key(mode: AppMode, key: KeyCode, key_event: KeyEvent) -> AppMode {
    if key_event.modifiers.control && key == KeyCode::Char('a') {
        AppMode::Adding
    } else if key_event.modifiers.control && key == KeyCode::Char('e') {
        AppMode::Editing
    } else {
        mode
    }
}

/// The records after a list command: `D` turns the completion flag of the
/// selected record over, `R` removes it, no other key changes a record.
pub open spec fn records_after_key(
    records: Seq<TodoItem>,
    cursor: Option<usize>,
    key: KeyCode,
) -> Seq<TodoItem> {
    match cursor {
        Some(i) => if key == KeyCode::Char('D') {
            records.update(i as int, records[i as int].toggled())
        } else if key == KeyCode::Char('R') {
            records.remove(i as int)
        } else {
            records
        },
        None => records,
    }
}

/// The selection after a list command: `h` selects nothing, `j` the record
/// before, `k` the record after, `l` the first, `L` the last; `R` moves it
/// to a record that is left; no other key moves it.
pub open spec fn cursor_after_key(len: nat, cursor: Option<usize>, key: KeyCode) -> Option<usize> {
    if key == KeyCode::Char('h') {
        None
    } else if key == KeyCode::Char('j') {
        selection_before(cursor, len)
    } else if key == KeyCode::Char('k') {
        selection_after(cursor, len)
    } else if key == KeyCode::Char('l') {
        selection_first(len)
    } else if key == KeyCode::Char('L') {
        selection_last(len)
    } else if key == KeyCode::Char('R') {
        match cursor {
            Some(i) => selection_after_removal(i, (len - 1) as nat),
            None => None,
        }
    } else {
        cursor
    }
}

/// The selection after the list commands `keys`, one after the other, on a
/// list of `len` records that none of them changes.
pub open spec fn cursor_after_keys(len: nat, cursor: Option<usize>, keys: Seq<KeyCode>) -> Option<
    usize,
>
    decreases keys.len(),
{
    if keys.len() == 0 {
        cursor
    } else {
        cursor_after_key(len, cursor_after_keys(len, cursor, keys.drop_last()), keys.last())
    }
}

impl Default for AppState {
    /// An empty list, a fresh form, and `Normal` mode.
    fn default() -> (state: AppState)
        ensures
            state.mode == AppMode::Normal,
            state.todos.records() == Seq::<TodoItem>::empty(),
            state.todos.cursor() == None::<usize>,
            state.form.is_fresh(),
    {
        AppState { todos: TodoList::default(), mode: AppMode::Normal, form: TodoForm::default() }
    }
}

/// Applies the list command that `c` stands for, if any.
fn apply_list_command(c: char, todos: &mut TodoList)
    ensures
        in_bounds(old(todos).cursor(), old(todos).records().len()),
        in_bounds(final(todos).cursor(), final(todos).records().len()),
        final(todos).records() == records_after_key(
            old(todos).records(),
            old(todos).cursor(),
            KeyCode::Char(c),
        ),
        final(todos).cursor() == cursor_after_key(
            old(todos).records().len(),
            old(todos).cursor(),
            KeyCode::Char(c),
        ),
{
    let _ = todos.selected();
    if c == 'h' {
        todos.select_none();
    } else if c == 'j' {
        todos.select_previous();
    } else if c == 'k' {
        todos.select_next();
    } else if c == 'l' {
        todos.select_first();
    } else if c == 'L' {
        todos.select_last();
    } else if c == 'D' {
        todos.mark_completed();
    } else if c == 'R' {
        todos.remove_selected();
    }
}

/// Handles a key in `Normal` mode. Control with `c` asks for save and quit
/// and changes nothing. Every other key first switches the mode if it is
/// control with `a` or `e`, and then runs as a list command.
pub fn handle_normal_mode_input(key: KeyCode, key_event: KeyEvent, app_state: &mut AppState) -> (action:
    Action)
    ensures
        is_quit_combo(key, key_event) ==> action == Action::SaveAndQuit && *final(app_state)
            == *old(app_state),
        !is_quit_combo(key, key_event) ==> {
            &&& action == Action::Continue
            &&& final(app_state).form == old(app_state).form
            &&& final(app_state).mode == mode_after_normal_key(
                old(app_state).mode,
                key,
                key_event,
            )
            &&& final(app_state).todos.records() == records_after_key(
                old(app_state).todos.records(),
                old(app_state).todos.cursor(),
                key,
            )
            &&& final(app_state).todos.cursor() == cursor_after_key(
                old(app_state).todos.records().len(),
                old(app_state).todos.cursor(),
                key,
            )
        },
        in_bounds(final(app_state).todos.cursor(), final(app_state).todos.records().len()),
{
    let _ = app_state.todos.selected();
    if key_event.modifiers.control {
        match key {
            KeyCode::Char(c) => {
                if c == 'c' {
                    return Action::SaveAndQuit;
                } else if c == 'a' {
                    app_state.mode = AppMode::Adding;
                } else if c == 'e' {
                    app_state.mode = AppMode::Editing;
                }
            },
            _ => {},
        }
    }
    match key {
        KeyCode::Char(c) => {
            apply_list_command(c, &mut app_state.todos);
        },
        _ => {},
    }
    Action::Continue
}

/// Handles a key in `Adding` mode: Esc goes back to `Normal` mode and
/// leaves the form as it is, every other key goes to the form.
pub fn handle_adding_mode_input(key: KeyCode, key_event: KeyEvent, app_state: &mut AppState) -> (action:
    Action)
    ensures
        action == Action::Continue,
        final(app_state).todos == old(app_state).todos,
        key == KeyCode::Esc ==> final(app_state).mode == AppMode::Normal && final(app_state).form
            == old(app_state).form,
        key != KeyCode::Esc ==> final(app_state).mode == old(app_state).mode && old(app_state).form.pressed(key, key_event, &final(app_state).form),
{
    match key {
        KeyCode::Esc => {
            app_state.mode = AppMode::Normal;
        },
        _ => {
            app_state.form.on_key_press(key, key_event);
        },
    }
    Action::Continue
}

/// Handles a key in `Editing` mode: Esc goes back to `Normal` mode, and no
/// other key does anything.
pub fn handle_editing_mode_input(key: KeyCode, _key_event: KeyEvent, app_state: &mut AppState) -> (action:
    Action)
    ensures
        action == Action::Continue,
        final(app_state).todos == old(app_state).todos,
        final(app_state).form == old(app_state).form,
        final(app_state).mode == (if key == KeyCode::Esc {
            AppMode::Normal
        } else {
            old(app_state).mode
        }),
{
    match key {
        KeyCode::Esc => {
            app_state.mode = AppMode::Normal;
        },
        _ => {},
    }
    Action::Continue
}

impl AppState {
    /// Whether a form is waiting to be taken over into the list.
    pub open spec fn submission_pending(&self) -> bool {
        self.form.form_status == FormStatus::Submitting
    }

    /// Routes one key press to the handler of the current mode.
    pub fn handle_key(&mut self, key_event: KeyEvent) -> (action: Action)
        ensures
            old(self).mode == AppMode::Normal && is_quit_combo(key_event.code, key_event) ==> action
                == Action::SaveAndQuit && *final(self) == *old(self),
            old(self).mode == AppMode::Normal && !is_quit_combo(key_event.code, key_event) ==> {
                &&& action == Action::Continue
                &&& final(self).form == old(self).form
                &&& final(self).mode == mode_after_normal_key(
                    AppMode::Normal,
                    key_event.code,
                    key_event,
                )
                &&& final(self).todos.records() == records_after_key(
                    old(self).todos.records(),
                    old(self).todos.cursor(),
                    key_event.code,
                )
                &&& final(self).todos.cursor() == cursor_after_key(
                    old(self).todos.records().len(),
                    old(self).todos.cursor(),
                    key_event.code,
                )
            },
            old(self).mode == AppMode::Adding ==> {
                &&& action == Action::Continue
                &&& final(self).todos == old(self).todos
                &&& key_event.code == KeyCode::Esc ==> final(self).mode == AppMode::Normal && final(self).form == old(self).form
                &&& key_event.code != KeyCode::Esc ==> final(self).mode == AppMode::Adding && old(self).form.pressed(key_event.code, key_event, &final(self).form)
            },
            old(self).mode == AppMode::Editing ==> {
                &&& action == Action::Continue
                &&& final(self).todos == old(self).todos
                &&& final(self).form == old(self).form
                &&& final(self).mode == (if key_event.code == KeyCode::Esc {
                    AppMode::Normal
                } else {
                    AppMode::Editing
                })
            },
    {
        match self.mode {
            AppMode::Normal => handle_normal_mode_input(key_event.code, key_event, self),
            AppMode::Editing => handle_editing_mode_input(key_event.code, key_event, self),
            AppMode::Adding => handle_adding_mode_input(key_event.code, key_event, self),
        }
    }

    /// Settles a form that was handed in. A complete form becomes a new
    /// record at the end of the list, the form is emptied and given a fresh
    /// id, and the application goes back to `Normal` mode; the list is then
    /// to be saved. An incomplete form adds nothing and goes back to
    /// `Editing`. Without a form handed in, nothing happens.
    pub fn consume_submission(&mut self) -> (action: Action)
        ensures
            !old(self).submission_pending() ==> action == Action::Continue && *final(self) == *old(self),
            old(self).submission_pending() && !old(self).form.complete() ==> {
                &&& action == Action::Continue
                &&& final(self).todos == old(self).todos
                &&& final(self).mode == old(self).mode
                &&& final(self).form.form_status == FormStatus::Editing
                &&& final(self).form.form_render_state == old(self).form.form_render_state
                &&& final(self).form.id == old(self).form.id
                &&& final(self).form.title == old(self).form.title
                &&& final(self).form.description == old(self).form.description
                &&& final(self).form.status == old(self).form.status
            },
            old(self).submission_pending() && old(self).form.complete() ==> {
                &&& action == Action::Save
                &&& final(self).mode == AppMode::Normal
                &&& final(self).todos.cursor() == old(self).todos.cursor()
                &&& final(self).todos.records().len() == old(self).todos.records().len() + 1
                &&& final(self).todos.records().drop_last() == old(self).todos.records()
                &&& final(self).todos.records().last().id@ == old(self).form.id.text()
                &&& final(self).todos.records().last().title@ == old(self).form.title.text()
                &&& final(self).todos.records().last().description@ == old(self).form.description.text()
                &&& !final(self).todos.records().last().completed
                &&& final(self).todos.records().last().status == old(self).form.status.options()[old(self).form.status.selected()]
                &&& final(self).form.form_status == FormStatus::Viewing
                &&& final(self).form.form_render_state == old(self).form.form_render_state
                &&& final(self).form.id.text().len() == ID_TEXT_LEN
                &&& final(self).form.title.text() == Seq::<char>::empty()
                &&& final(self).form.description.text() == Seq::<char>::empty()
                &&& final(self).form.status.selected() == old(self).form.status.selected()
                &&& final(self).form.status.options() == old(self).form.status.options()
            },
    {
        if !self.form.form_status.is_submitting() {
            return Action::Continue;
        }
        if !self.form.is_complete() {
            self.form.form_status.resume_editing();
            return Action::Continue;
        }
        let item = self.form.to_item();
        self.todos.insert(item);
        assert(self.todos.records().drop_last() =~= old(self).todos.records());
        self.form.reset();
        self.form.form_status.reset();
        self.mode = AppMode::Normal;
        Action::Save
    }
}

/// A navigation key changes no record.
pub proof fn navigation_keeps_records(records: Seq<TodoItem>, cursor: Option<usize>, key: KeyCode)
    requires
        is_navigation_key(key),
    ensures
        records_after_key(records, cursor, key) == records,
{
}

/// Whatever sequence of navigation keys is pressed, the selection stays on
/// a record of the list or on none.
pub proof fn navigation_never_leaves_list(len: nat, cursor: Option<usize>, keys: Seq<KeyCode>)
    requires
        len <= usize::MAX,
        in_bounds(cursor, len),
        forall|i: int| 0 <= i < keys.len() ==> is_navigation_key(#[trigger] keys[i]),
    ensures
        in_bounds(cursor_after_keys(len, cursor, keys), len),
    decreases keys.len(),
{
    if keys.len() > 0 {
        navigation_never_leaves_list(len, cursor, keys.drop_last());
        assert(is_navigation_key(keys.last()));
    }
}

/// Every list command, navigation or not, leaves the selection on a record
/// of the list as it then is, or on none.
pub proof fn list_command_keeps_selection_valid(
    records: Seq<TodoItem>,
    cursor: Option<usize>,
    key: KeyCode,
)
    requires
        records.len() <= usize::MAX,
        in_bounds(cursor, records.len()),
    ensures
        in_bounds(
            cursor_after_key(records.len(), cursor, key),
            records_after_key(records, cursor, key).len(),
        ),
{
}

} // verus!
