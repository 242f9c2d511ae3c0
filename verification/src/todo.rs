//! The record that the list holds, and the source of fresh record ids.

use vstd::prelude::*;
use vstd::std_specs::cmp::PartialEqSpecImpl;
use vstd::string::StringExecFns;
use crate::form::form_inputs::enum_field::EnumDisplay;

verus! {

/// How far the work on a record has come.
#[derive(Debug, Clone, Copy)]
pub enum TodoStatus {
    Completed,
    InProgress,
    Pending,
}

impl TodoStatus {
    /// The tag that stands for the status, on screen and in storage.
    pub open spec fn name(self) -> Seq<char> {
        match self {
            TodoStatus::Completed => "Completed"@,
            TodoStatus::InProgress => "InProgress"@,
            TodoStatus::Pending => "Pending"@,
        }
    }
}

impl PartialEq for TodoStatus {
    fn eq(&self, other: &TodoStatus) -> (equal: bool) {
        match (self, other) {
            (TodoStatus::Completed, TodoStatus::Completed) => true,
            (TodoStatus::InProgress, TodoStatus::InProgress) => true,
            (TodoStatus::Pending, TodoStatus::Pending) => true,
            _ => false,
        }
    }
}

impl Eq for TodoStatus {

}

impl PartialEqSpecImpl for TodoStatus {
    open spec fn obeys_eq_spec() -> bool {
        true
    }

    /// Two statuses are equal when they are the same variant.
    open spec fn eq_spec(&self, other: &TodoStatus) -> bool {
        *self == *other
    }
}

impl EnumDisplay for TodoStatus {
    open spec fn display_text(&self) -> Seq<char> {
        self.name()
    }

    fn to_str(&self) -> (s: &str) {
        match self {
            TodoStatus::Completed => "Completed",
            TodoStatus::InProgress => "InProgress",
            TodoStatus::Pending => "Pending",
        }
    }
}

/// The status that the tag `tag` stands for, if it is one of the three tags.
pub open spec fn status_of_tag(tag: Seq<char>) -> Option<TodoStatus> {
    if tag == TodoStatus::Completed.name() {
        Some(TodoStatus::Completed)
    } else if tag == TodoStatus::InProgress.name() {
        Some(TodoStatus::InProgress)
    } else if tag == TodoStatus::Pending.name() {
        Some(TodoStatus::Pending)
    } else {
        None
    }
}

impl TodoStatus {
    /// Reads a status back from its tag; any other text is no status.
    pub fn from_tag(tag: &str) -> (status: Option<TodoStatus>)
        ensures
            status == status_of_tag(tag@),
    {
        let tag = String::from_str(tag);
        if tag == String::from_str("Completed") {
            Some(TodoStatus::Completed)
        } else if tag == String::from_str("InProgress") {
            Some(TodoStatus::InProgress)
        } else if tag == String::from_str("Pending") {
            Some(TodoStatus::Pending)
        } else {
            None
        }
    }
}

/// Each status is read back from its own tag.
pub proof fn tag_names_its_status(status: TodoStatus)
    ensures
        status_of_tag(status.name()) == Some(status),
{
    reveal_strlit("Completed");
    reveal_strlit("InProgress");
    reveal_strlit("Pending");
    assert("Completed"@.len() == 9);
    assert("InProgress"@.len() == 10);
    assert("Pending"@.len() == 7);
}

/// Why stored data could not be taken over.
#[derive(Debug, Clone, Copy, PartialEq, Eq, Structural)]
pub enum LoadError {
    /// The data is not empty and does not decode to a sequence of records.
    Malformed,
}

/// A record in the form in which it is stored: the fields of a record in
/// their order, the status written as its tag.
#[derive(Debug, PartialEq, Eq)]
pub struct StoredItem {
    pub id: String,
    pub title: String,
    pub description: String,
    pub completed: bool,
    pub status: String,
}

impl Clone for StoredItem {
    fn clone(&self) -> (copy: StoredItem)
        ensures
            copy == *self,
    {
        StoredItem {
            id: self.id.clone(),
            title: self.title.clone(),
            description: self.description.clone(),
            completed: self.completed,
            status: self.status.clone(),
        }
    }
}

impl StoredItem {
    /// Whether this is the stored form of a record: its status is a tag.
    pub open spec fn decodes(self) -> bool {
        status_of_tag(self.status@) is Some
    }

    /// The record that this is the stored form of.
    pub open spec fn decoded(self) -> TodoItem
        recommends
            self.decodes(),
    {
        TodoItem {
            id: self.id,
            title: self.title,
            description: self.description,
            completed: self.completed,
            status: status_of_tag(self.status@).unwrap(),
        }
    }
}

/// One record of the list.
#[derive(Debug, PartialEq, Eq)]
pub struct TodoItem {
    pub id: String,
    pub title: String,
    pub description: String,
    pub completed: bool,
    pub status: TodoStatus,
}

impl Clone for TodoItem {
    fn clone(&self) -> (copy: TodoItem)
        ensures
            copy == *self,
    {
        TodoItem {
            id: self.id.clone(),
            title: self.title.clone(),
            description: self.description.clone(),
            completed: self.completed,
            status: self.status,
        }
    }
}

impl TodoItem {
    /// This record with its completion flag turned over.
    pub open spec fn toggled(self) -> TodoItem {
        TodoItem {
            id: self.id,
            title: self.title,
            description: self.description,
            completed: !self.completed,
            status: self.status,
        }
    }

    /// Whether `stored` is the stored form of this record.
    pub open spec fn stored_as(self, stored: StoredItem) -> bool {
        &&& stored.id == self.id
        &&& stored.title == self.title
        &&& stored.description == self.description
        &&& stored.completed == self.completed
        &&& stored.status@ == self.status.name()
    }

    /// The stored form of this record.
    pub fn to_stored(&self) -> (stored: StoredItem)
        ensures
            self.stored_as(stored),
    {
        StoredItem {
            id: self.id.clone(),
            title: self.title.clone(),
            description: self.description.clone(),
            completed: self.completed,
            status: String::from_str(self.status.to_str()),
        }
    }

    /// Reads a record back from its stored form; a status that is no tag
    /// makes the stored form malformed.
    pub fn from_stored(stored: &StoredItem) -> (outcome: Result<TodoItem, LoadError>)
        ensures
            stored.decodes() ==> outcome == Ok::<TodoItem, LoadError>(stored.decoded()),
            !stored.decodes() ==> outcome == Err::<TodoItem, LoadError>(LoadError::Malformed),
    {
        match TodoStatus::from_tag(stored.status.as_str()) {
            Some(status) => Ok(
                TodoItem {
                    id: stored.id.clone(),
                    title: stored.title.clone(),
                    description: stored.description.clone(),
                    completed: stored.completed,
                    status,
                },
            ),
            None => Err(LoadError::Malformed),
        }
    }

    /// A record that is not completed yet.
    pub fn new(id: &str, title: &str, description: &str, status: TodoStatus) -> (item: TodoItem)
        ensures
            item.id@ == id@,
            item.title@ == title@,
            item.description@ == description@,
            !item.completed,
            item.status == status,
    {
        TodoItem {
            id: String::from_str(id),
            title: String::from_str(title),
            description: String::from_str(description),
            completed: false,
            status,
        }
    }
}

/// The stored form of a record reads back as that record.
pub proof fn stored_item_reads_back(item: TodoItem, stored: StoredItem)
    requires
        item.stored_as(stored),
    ensures
        stored.decodes(),
        stored.decoded() == item,
{
    tag_names_its_status(item.status);
}

/// The number of characters of a record id in its text form.
pub const ID_TEXT_LEN: usize = 36;

/// `Uuid::new_v4` of the uuid crate, turned into text by its `Display`: a
/// random version-4 id in the hyphenated form, which always has 36
/// characters. Two calls need not give the same text.
#[verifier::external_body]
pub(crate) fn fresh_id() -> (id: String)
    ensures
        id@.len() == ID_TEXT_LEN,
{
    uuid::Uuid::new_v4().to_string()
}

} // verus!
