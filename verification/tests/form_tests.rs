use todo_tui::form::form_inputs::enum_field::{EnumDisplay, EnumField};
use todo_tui::form::form_inputs::string_field::StringField;
use todo_tui::form::form_status::FormStatus;
use todo_tui::key::{KeyCode, KeyEvent, KeyModifiers};
use todo_tui::todo::TodoStatus;
use todo_tui::todo_form::{TodoForm, TodoFormState};

fn press(form: &mut TodoForm, code: KeyCode) {
    form.on_key_press(code, KeyEvent::plain(code));
}

fn type_text(form: &mut TodoForm, text: &str) {
    for c in text.chars() {
        press(form, KeyCode::Char(c));
    }
}

#[test]
fn key_event_constructors_set_modifiers() {
    let plain = KeyEvent::plain(KeyCode::Enter);
    assert_eq!(plain.code, KeyCode::Enter);
    assert_eq!(plain.modifiers, KeyModifiers { shift: false, control: false, alt: false });
    let ctrl = KeyEvent::with_ctrl(KeyCode::Char('s'));
    assert_eq!(ctrl.code, KeyCode::Char('s'));
    assert!(ctrl.modifiers.control);
    assert!(!ctrl.modifiers.shift);
    assert!(!ctrl.modifiers.alt);
}

#[test]
fn status_starts_viewing() {
    let status = FormStatus::default();
    assert_eq!(status, FormStatus::Viewing);
    assert!(status._is_viewing());
    assert!(!status.is_editing());
    assert!(!status.is_submitting());
}

#[test]
fn viewing_enter_starts_editing_and_forwards_nothing() {
    let mut status = FormStatus::Viewing;
    let out = status.handle_key_press(KeyCode::Enter, KeyEvent::plain(KeyCode::Enter));
    assert_eq!(out, None);
    assert_eq!(status, FormStatus::Editing);
}

#[test]
fn viewing_ignores_other_keys() {
    let keys = [
        KeyCode::Char('a'),
        KeyCode::Backspace,
        KeyCode::Left,
        KeyCode::Right,
        KeyCode::Up,
        KeyCode::Down,
        KeyCode::Tab,
        KeyCode::BackTab,
        KeyCode::Esc,
        KeyCode::Other,
    ];
    for key in keys {
        let mut status = FormStatus::Viewing;
        let out = status.handle_key_press(key, KeyEvent::plain(key));
        assert_eq!(out, None);
        assert_eq!(status, FormStatus::Viewing);
    }
}

#[test]
fn editing_enter_returns_to_viewing() {
    let mut status = FormStatus::Editing;
    let out = status.handle_key_press(KeyCode::Enter, KeyEvent::plain(KeyCode::Enter));
    assert_eq!(out, None);
    assert_eq!(status, FormStatus::Viewing);
}

#[test]
fn editing_forwards_content_keys() {
    let mut status = FormStatus::Editing;
    let out = status.handle_key_press(KeyCode::Char('x'), KeyEvent::plain(KeyCode::Char('x')));
    assert_eq!(out, Some(KeyCode::Char('x')));
    assert_eq!(status, FormStatus::Editing);
    let out = status.handle_key_press(KeyCode::Tab, KeyEvent::plain(KeyCode::Tab));
    assert_eq!(out, Some(KeyCode::Tab));
    assert_eq!(status, FormStatus::Editing);
}

#[test]
fn submit_combo_works_from_every_status() {
    for start in [FormStatus::Viewing, FormStatus::Editing, FormStatus::Submitting] {
        let mut status = start;
        let out =
            status.handle_key_press(KeyCode::Char('s'), KeyEvent::with_ctrl(KeyCode::Char('s')));
        assert_eq!(out, None);
        assert_eq!(status, FormStatus::Submitting);
    }
}

#[test]
fn other_control_chords_are_swallowed() {
    for start in [FormStatus::Viewing, FormStatus::Editing, FormStatus::Submitting] {
        let mut status = start;
        let out =
            status.handle_key_press(KeyCode::Char('x'), KeyEvent::with_ctrl(KeyCode::Char('x')));
        assert_eq!(out, None);
        assert_eq!(status, start);
        let out = status.handle_key_press(KeyCode::Enter, KeyEvent::with_ctrl(KeyCode::Enter));
        assert_eq!(out, None);
        assert_eq!(status, start);
    }
}

#[test]
fn submitting_rejects_every_key() {
    for key in [KeyCode::Enter, KeyCode::Char('a'), KeyCode::Tab, KeyCode::Esc] {
        let mut status = FormStatus::Submitting;
        let out = status.handle_key_press(key, KeyEvent::plain(key));
        assert_eq!(out, None);
        assert_eq!(status, FormStatus::Submitting);
    }
}

#[test]
fn status_reset_and_resume() {
    let mut status = FormStatus::Submitting;
    status.resume_editing();
    assert_eq!(status, FormStatus::Editing);
    status.resume_editing();
    assert_eq!(status, FormStatus::Editing);
    let mut viewing = FormStatus::Viewing;
    viewing.resume_editing();
    assert_eq!(viewing, FormStatus::Viewing);
    status.reset();
    assert_eq!(status, FormStatus::Viewing);
}

#[test]
fn status_names() {
    assert_eq!(FormStatus::Viewing.to_str(), "Viewing");
    assert_eq!(FormStatus::Editing.to_str(), "Editing");
    assert_eq!(FormStatus::Submitting.to_str(), "Submitting");
}

#[test]
fn string_field_appends_characters() {
    let mut field = StringField::new("Title");
    assert_eq!(field.get_label(), "Title");
    assert!(field.is_empty());
    field.on_key_press(KeyCode::Char('h'));
    field.on_key_press(KeyCode::Char('i'));
    assert_eq!(field.get_value(), "hi");
    assert!(!field.is_empty());
}

#[test]
fn string_field_backspace_removes_last_character() {
    let mut field = StringField::new("Title");
    field.set_value("héllo".to_string());
    field.on_key_press(KeyCode::Backspace);
    assert_eq!(field.get_value(), "héll");
    field.on_key_press(KeyCode::Backspace);
    field.on_key_press(KeyCode::Backspace);
    field.on_key_press(KeyCode::Backspace);
    assert_eq!(field.get_value(), "h");
}

#[test]
fn string_field_backspace_on_empty_is_no_op() {
    let mut field = StringField::new("Title");
    field.on_key_press(KeyCode::Backspace);
    assert_eq!(field.get_value(), "");
    assert!(field.is_empty());
}

#[test]
fn string_field_ignores_other_keys() {
    let mut field = StringField::new("Title").set_default_value("abc".to_string());
    for key in [
        KeyCode::Enter,
        KeyCode::Left,
        KeyCode::Right,
        KeyCode::Up,
        KeyCode::Down,
        KeyCode::Tab,
        KeyCode::BackTab,
        KeyCode::Esc,
        KeyCode::Other,
    ] {
        field.on_key_press(key);
        assert_eq!(field.get_value(), "abc");
    }
    assert_eq!(field.get_label(), "Title");
}

#[test]
fn string_field_set_value_and_clear() {
    let mut field = StringField::new("ID");
    field.set_value("42".to_string());
    assert_eq!(field.get_value(), "42");
    field.clear();
    assert_eq!(field.get_value(), "");
    assert_eq!(field.get_label(), "ID");
    let copy = field.set_default_value("7".to_string());
    assert_eq!(copy.get_value(), "7");
    assert_eq!(copy.get_label(), "ID");
    assert_eq!(field.get_value(), "");
}

fn status_field() -> EnumField<TodoStatus> {
    EnumField::new(
        "Status",
        &[TodoStatus::Pending, TodoStatus::InProgress, TodoStatus::Completed],
    )
}

#[test]
fn enum_field_starts_on_first_option() {
    let field = status_field();
    assert_eq!(field.get_value(), TodoStatus::Pending);
    assert_eq!(field.selected_index(), 0);
    assert_eq!(field.get_label(), "Status");
}

#[test]
fn enum_field_next_wraps_at_end() {
    let mut field = status_field();
    field.on_key_press(KeyCode::Right);
    assert_eq!(field.get_value(), TodoStatus::InProgress);
    field.on_key_press(KeyCode::Down);
    assert_eq!(field.get_value(), TodoStatus::Completed);
    field.on_key_press(KeyCode::Right);
    assert_eq!(field.get_value(), TodoStatus::Pending);
}

#[test]
fn enum_field_previous_wraps_at_start() {
    let mut field = status_field();
    field.on_key_press(KeyCode::Left);
    assert_eq!(field.get_value(), TodoStatus::Completed);
    assert_eq!(field.selected_index(), 2);
    field.on_key_press(KeyCode::Up);
    assert_eq!(field.get_value(), TodoStatus::InProgress);
}

#[test]
fn enum_field_navigation_is_cyclic() {
    for start in [TodoStatus::Pending, TodoStatus::InProgress, TodoStatus::Completed] {
        let mut field = status_field();
        field.set_value(start);
        let index = field.selected_index();
        for _ in 0..3 {
            field.on_key_press(KeyCode::Right);
        }
        assert_eq!(field.selected_index(), index);
        assert_eq!(field.get_value(), start);
        for _ in 0..3 {
            field.on_key_press(KeyCode::Left);
        }
        assert_eq!(field.selected_index(), index);
    }
}

#[test]
fn enum_field_ignores_other_keys() {
    let mut field = status_field();
    field.on_key_press(KeyCode::Right);
    for key in [KeyCode::Char('x'), KeyCode::Backspace, KeyCode::Enter, KeyCode::Tab, KeyCode::Other]
    {
        field.on_key_press(key);
        assert_eq!(field.selected_index(), 1);
    }
}

#[test]
fn enum_field_set_value_picks_first_match() {
    let mut field = EnumField::new(
        "Status",
        &[TodoStatus::Pending, TodoStatus::Completed, TodoStatus::Completed],
    );
    field.set_value(TodoStatus::Completed);
    assert_eq!(field.selected_index(), 1);
    field.set_value(TodoStatus::InProgress);
    assert_eq!(field.selected_index(), 1);
    let copy = field.clone();
    assert_eq!(copy.selected_index(), 1);
    assert_eq!(copy.get_label(), "Status");
}

#[test]
fn single_option_field_never_moves() {
    let mut field = EnumField::new("Status", &[TodoStatus::Pending]);
    field.on_key_press(KeyCode::Right);
    assert_eq!(field.selected_index(), 0);
    field.on_key_press(KeyCode::Left);
    assert_eq!(field.selected_index(), 0);
}

#[test]
fn todo_status_names() {
    assert_eq!(TodoStatus::Completed.to_str(), "Completed");
    assert_eq!(TodoStatus::InProgress.to_str(), "InProgress");
    assert_eq!(TodoStatus::Pending.to_str(), "Pending");
}

#[test]
fn new_form_has_fresh_id_and_empty_texts() {
    let form = TodoForm::default();
    assert_eq!(form.form_status, FormStatus::Viewing);
    assert_eq!(form.form_render_state, TodoFormState::Title);
    assert_eq!(form.id.get_label(), "ID");
    assert_eq!(form.title.get_label(), "Title");
    assert_eq!(form.description.get_label(), "Description");
    assert_eq!(form.status.get_label(), "Status");
    assert_eq!(form.id.get_value().chars().count(), 36);
    assert_eq!(form.title.get_value(), "");
    assert_eq!(form.description.get_value(), "");
    assert_eq!(form.status.get_value(), TodoStatus::Pending);
    assert!(!form.is_complete());
}

#[test]
fn fresh_ids_differ() {
    let first = TodoForm::default();
    let second = TodoForm::default();
    assert_ne!(first.id.get_value(), second.id.get_value());
    let id = first.id.get_value();
    assert_eq!(id.len(), 36);
    for (i, c) in id.chars().enumerate() {
        if i == 8 || i == 13 || i == 18 || i == 23 {
            assert_eq!(c, '-');
        } else {
            assert!(c.is_ascii_hexdigit());
        }
    }
}

#[test]
fn form_ignores_typing_while_viewing() {
    let mut form = TodoForm::default();
    let id = form.id.get_value().to_string();
    type_text(&mut form, "abc");
    press(&mut form, KeyCode::Tab);
    press(&mut form, KeyCode::Backspace);
    assert_eq!(form.form_status, FormStatus::Viewing);
    assert_eq!(form.form_render_state, TodoFormState::Title);
    assert_eq!(form.title.get_value(), "");
    assert_eq!(form.id.get_value(), id);
}

#[test]
fn form_types_into_focused_field_while_editing() {
    let mut form = TodoForm::default();
    press(&mut form, KeyCode::Enter);
    assert_eq!(form.form_status, FormStatus::Editing);
    type_text(&mut form, "Buy milk");
    assert_eq!(form.title.get_value(), "Buy milk");
    assert_eq!(form.description.get_value(), "");
    press(&mut form, KeyCode::Tab);
    assert_eq!(form.form_render_state, TodoFormState::Description);
    assert_eq!(form.title.get_value(), "Buy milk");
    type_text(&mut form, "2l");
    press(&mut form, KeyCode::Backspace);
    assert_eq!(form.description.get_value(), "2");
    assert!(form.is_complete());
    press(&mut form, KeyCode::Tab);
    assert_eq!(form.form_render_state, TodoFormState::Status);
    press(&mut form, KeyCode::Right);
    assert_eq!(form.status.get_value(), TodoStatus::InProgress);
    type_text(&mut form, "x");
    assert_eq!(form.status.get_value(), TodoStatus::InProgress);
    assert_eq!(form.title.get_value(), "Buy milk");
    assert_eq!(form.description.get_value(), "2");
}

#[test]
fn form_focus_cycles_forward_and_backward() {
    let mut form = TodoForm::default();
    press(&mut form, KeyCode::Enter);
    let forward = [
        TodoFormState::Description,
        TodoFormState::Status,
        TodoFormState::Id,
        TodoFormState::Title,
    ];
    for expected in forward {
        press(&mut form, KeyCode::Tab);
        assert_eq!(form.form_render_state, expected);
    }
    let backward = [
        TodoFormState::Id,
        TodoFormState::Status,
        TodoFormState::Description,
        TodoFormState::Title,
    ];
    for expected in backward {
        press(&mut form, KeyCode::BackTab);
        assert_eq!(form.form_render_state, expected);
    }
    assert_eq!(form.title.get_value(), "");
}

#[test]
fn next_and_previous_field_move_focus_directly() {
    let mut form = TodoForm::default();
    form.next_field();
    assert_eq!(form.form_render_state, TodoFormState::Description);
    form.next_field();
    form.next_field();
    assert_eq!(form.form_render_state, TodoFormState::Id);
    form.previous_field();
    assert_eq!(form.form_render_state, TodoFormState::Status);
    assert_eq!(form.form_status, FormStatus::Viewing);
}

#[test]
fn form_typing_into_id_field_edits_id() {
    let mut form = TodoForm::default();
    press(&mut form, KeyCode::Enter);
    press(&mut form, KeyCode::BackTab);
    assert_eq!(form.form_render_state, TodoFormState::Id);
    let before = form.id.get_value().to_string();
    press(&mut form, KeyCode::Backspace);
    assert_eq!(form.id.get_value(), &before[..35]);
    type_text(&mut form, "z");
    assert_eq!(form.id.get_value(), format!("{}z", &before[..35]));
}

#[test]
fn form_submit_combo_from_editing_whatever_the_focus() {
    for moves in 0..4 {
        let mut form = TodoForm::default();
        press(&mut form, KeyCode::Enter);
        for _ in 0..moves {
            press(&mut form, KeyCode::Tab);
        }
        let focus = form.form_render_state;
        form.on_key_press(KeyCode::Char('s'), KeyEvent::with_ctrl(KeyCode::Char('s')));
        assert_eq!(form.form_status, FormStatus::Submitting);
        assert_eq!(form.form_render_state, focus);
        assert_eq!(form.title.get_value(), "");
        assert_eq!(form.description.get_value(), "");
        type_text(&mut form, "late");
        assert_eq!(form.title.get_value(), "");
        assert_eq!(form.form_status, FormStatus::Submitting);
    }
}

#[test]
fn form_reset_clears_texts_and_renews_id() {
    let mut form = TodoForm::default();
    press(&mut form, KeyCode::Enter);
    type_text(&mut form, "t");
    press(&mut form, KeyCode::Tab);
    type_text(&mut form, "d");
    press(&mut form, KeyCode::Tab);
    press(&mut form, KeyCode::Right);
    let old_id = form.id.get_value().to_string();
    form.reset();
    assert_eq!(form.title.get_value(), "");
    assert_eq!(form.description.get_value(), "");
    assert_eq!(form.id.get_value().len(), 36);
    assert_ne!(form.id.get_value(), old_id);
    assert_eq!(form.status.get_value(), TodoStatus::InProgress);
    assert_eq!(form.form_render_state, TodoFormState::Status);
    assert_eq!(form.form_status, FormStatus::Editing);
}

#[test]
fn form_reset_with_given_id() {
    let mut form = TodoForm::default();
    form.title.set_value("t".to_string());
    form.reset_with_id("id-1".to_string());
    assert_eq!(form.id.get_value(), "id-1");
    assert_eq!(form.title.get_value(), "");
    form.clear();
    assert_eq!(form.id.get_value(), "");
}

#[test]
fn form_is_complete_needs_title_and_description() {
    let mut form = TodoForm::default();
    assert!(!form.is_complete());
    form.title.set_value("t".to_string());
    assert!(!form.is_complete());
    form.description.set_value("d".to_string());
    assert!(form.is_complete());
    form.title.clear();
    assert!(!form.is_complete());
}

#[test]
fn form_to_item_copies_fields() {
    let mut form = TodoForm::default();
    form.id.set_value("id-9".to_string());
    form.title.set_value("Title".to_string());
    form.description.set_value("Desc".to_string());
    form.status.set_value(TodoStatus::Completed);
    let item = form.to_item();
    assert_eq!(item.id, "id-9");
    assert_eq!(item.title, "Title");
    assert_eq!(item.description, "Desc");
    assert!(!item.completed);
    assert_eq!(item.status, TodoStatus::Completed);
}

#[test]
fn string_field_clone_keeps_label_and_text() {
    let mut field = StringField::new("Title");
    field.on_key_press(KeyCode::Char('a'));
    let mut copy = field.clone();
    assert_eq!(copy.get_label(), "Title");
    assert_eq!(copy.get_value(), "a");
    copy.on_key_press(KeyCode::Char('b'));
    assert_eq!(copy.get_value(), "ab");
    assert_eq!(field.get_value(), "a");
}

#[test]
fn submitted_form_takes_no_input() {
    let mut form = TodoForm::default();
    press(&mut form, KeyCode::Enter);
    type_text(&mut form, "t");
    form.on_key_press(KeyCode::Char('s'), KeyEvent::with_ctrl(KeyCode::Char('s')));
    for key in [KeyCode::Enter, KeyCode::Tab, KeyCode::BackTab, KeyCode::Backspace, KeyCode::Right] {
        press(&mut form, key);
        assert_eq!(form.form_status, FormStatus::Submitting);
        assert_eq!(form.form_render_state, TodoFormState::Title);
        assert_eq!(form.title.get_value(), "t");
        assert_eq!(form.status.get_value(), TodoStatus::Pending);
    }
}

#[test]
fn control_chord_while_editing_is_not_typed() {
    let mut form = TodoForm::default();
    press(&mut form, KeyCode::Enter);
    form.on_key_press(KeyCode::Char('x'), KeyEvent::with_ctrl(KeyCode::Char('x')));
    assert_eq!(form.title.get_value(), "");
    assert_eq!(form.form_status, FormStatus::Editing);
    let shifted = KeyEvent {
        code: KeyCode::Char('X'),
        modifiers: KeyModifiers { shift: true, control: false, alt: false },
    };
    form.on_key_press(KeyCode::Char('X'), shifted);
    assert_eq!(form.title.get_value(), "X");
}
