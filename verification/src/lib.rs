//! A keyboard-driven todo list editor core: key routing, form focus and
//! status state machines, and a record list whose selection is always
//! none or an existing record.

pub mod key;
pub mod form;
pub mod todo;
pub mod todo_form;
pub mod todo_list;
pub mod router;
