//! The list of records and its selection. The list owns both, and every
//! operation leaves the selection on an existing record or on none.

use vstd::prelude::*;
use vstd::string::StringExecFns;
use crate::form::form_inputs::enum_field::EnumDisplay;
use crate::todo::{stored_item_reads_back, LoadError, StoredItem, TodoItem};

verus! {

/// The records in their order, and the position of the selected one.
#[derive(Debug)]
pub struct TodoList {
    items: Vec<TodoItem>,
    selection: Option<usize>,
}

/// Whether every element of `stored` is the stored form of a record.
pub open spec fn all_decode(stored: Seq<StoredItem>) -> bool {
    forall|i: int| 0 <= i < stored.len() ==> (#[trigger] stored[i]).decodes()
}

/// The records that `stored` holds the stored forms of, in the same order.
pub open spec fn decode_all(stored: Seq<StoredItem>) -> Seq<TodoItem> {
    Seq::new(stored.len(), |i: int| stored[i].decoded())
}

/// Whether `stored` holds the stored forms of `items`, in the same order.
pub open spec fn stored_forms_of(items: Seq<TodoItem>, stored: Seq<StoredItem>) -> bool {
    &&& stored.len() == items.len()
    &&& forall|i: int| 0 <= i < items.len() ==> (#[trigger] items[i]).stored_as(stored[i])
}

/// Reads records back from their stored forms: all of them, in their
/// order, or none if one of them is malformed.
pub fn decode_items(stored: &Vec<StoredItem>) -> (outcome: Result<Vec<TodoItem>, LoadError>)
    ensures
        all_decode(stored@) ==> outcome is Ok && outcome.unwrap()@ == decode_all(stored@),
        !all_decode(stored@) ==> outcome == Err::<Vec<TodoItem>, LoadError>(LoadError::Malformed),
{
    let mut items: Vec<TodoItem> = Vec::new();
    let n: usize = stored.len();
    let mut i: usize = 0;
    while i < n
        invariant
            n == stored@.len(),
            i <= n,
            items@.len() == i,
            forall|j: int| 0 <= j < i ==> (#[trigger] stored@[j]).decodes(),
            forall|j: int| 0 <= j < i ==> (#[trigger] items@[j]) == stored@[j].decoded(),
        decreases n - i,
    {
        match TodoItem::from_stored(&stored[i]) {
            Ok(item) => {
                items.push(item);
            },
            Err(error) => {
                assert(!stored@[i as int].decodes());
                return Err(error);
            },
        }
        i += 1;
    }
    assert(items@ =~= decode_all(stored@));
    Ok(items)
}

/// Whether `selection` is none or a position among `len` records.
pub open spec fn in_bounds(selection: Option<usize>, len: nat) -> bool {
    match selection {
        Some(i) => i < len,
        None => true,
    }
}

/// The selection one step towards the front: the first record stays
/// selected, no selection becomes the last record, an empty list has none.
pub open spec fn selection_before(selection: Option<usize>, len: nat) -> Option<usize> {
    if len == 0 {
        None
    } else {
        match selection {
            Some(i) => if i == 0 {
                Some(0usize)
            } else {
                Some((i - 1) as usize)
            },
            None => Some((len - 1) as usize),
        }
    }
}

/// The selection one step towards the end: the last record stays selected,
/// no selection becomes the first record, an empty list has none.
pub open spec fn selection_after(selection: Option<usize>, len: nat) -> Option<usize> {
    if len == 0 {
        None
    } else {
        match selection {
            Some(i) => if i + 1 >= len {
                Some((len - 1) as usize)
            } else {
                Some((i + 1) as usize)
            },
            None => Some(0usize),
        }
    }
}

/// The selection on the first record, or on none in an empty list.
pub open spec fn selection_first(len: nat) -> Option<usize> {
    if len == 0 {
        None
    } else {
        Some(0usize)
    }
}

/// The selection on the last record, or on none in an empty list.
pub open spec fn selection_last(len: nat) -> Option<usize> {
    if len == 0 {
        None
    } else {
        Some((len - 1) as usize)
    }
}

/// The selection after the record at `removed` has left a list that then
/// has `new_len` records: none if the list is empty, the new last record
/// if the last one was removed, the same position otherwise.
pub open spec fn selection_after_removal(removed: usize, new_len: nat) -> Option<usize> {
    if new_len == 0 {
        None
    } else if removed >= new_len {
        Some((new_len - 1) as usize)
    } else {
        Some(removed)
    }
}

/// The mark that shows whether a record is completed.
pub open spec fn completion_mark(completed: bool) -> Seq<char> {
    if completed {
        "[✓]"@
    } else {
        "[✗]"@
    }
}

/// The line that stands for a record in the list: mark, title and status.
pub open spec fn display_line(item: TodoItem) -> Seq<char> {
    completion_mark(item.completed) + " "@ + item.title@ + " - "@ + item.status.name()
}

/// How a truth value is written out.
pub open spec fn bool_text(b: bool) -> Seq<char> {
    if b {
        "true"@
    } else {
        "false"@
    }
}

/// The full description of a record, as shown beside the list.
pub open spec fn detail_text(item: TodoItem) -> Seq<char> {
    "title: "@ + item.title@ + ", id: "@ + item.id@ + " \n description: \n "@ + item.description@
        + " \n completed: \n "@ + bool_text(item.completed) + " \n status: \n "@
        + item.status.name() + " "@
}

/// What is shown beside the list for the given selection.
pub open spec fn selected_text(items: Seq<TodoItem>, selection: Option<usize>) -> Seq<char> {
    match selection {
        Some(i) => if i < items.len() {
            detail_text(items[i as int])
        } else {
            "No item selected"@
        },
        None => "No item selected"@,
    }
}

/// Whether stored data is taken over: it is empty, or it decoded to stored
/// forms that are all well-formed.
pub open spec fn loads(data: Seq<char>, decoded: Option<Vec<StoredItem>>) -> bool {
    data.len() == 0 || (decoded is Some && all_decode(decoded.unwrap()@))
}

/// The records that stored data gives when it is taken over.
pub open spec fn loaded_records(data: Seq<char>, decoded: Option<Vec<StoredItem>>) -> Seq<
    TodoItem,
> {
    if data.len() == 0 {
        Seq::empty()
    } else {
        decode_all(decoded.unwrap()@)
    }
}

/// Builds the line that stands for `item` in the list.
pub fn item_line(item: &TodoItem) -> (line: String)
    ensures
        line@ == display_line(*item),
{
    let mark = if item.completed {
        "[✓]"
    } else {
        "[✗]"
    };
    let mut line = String::from_str(mark);
    line.append(" ");
    line.append(item.title.as_str());
    line.append(" - ");
    line.append(item.status.to_str());
    line
}

/// Builds the full description of `item`.
pub fn item_detail(item: &TodoItem) -> (text: String)
    ensures
        text@ == detail_text(*item),
{
    let completed = if item.completed {
        "true"
    } else {
        "false"
    };
    let mut text = String::from_str("title: ");
    text.append(item.title.as_str());
    text.append(", id: ");
    text.append(item.id.as_str());
    text.append(" \n description: \n ");
    text.append(item.description.as_str());
    text.append(" \n completed: \n ");
    text.append(completed);
    text.append(" \n status: \n ");
    text.append(item.status.to_str());
    text.append(" ");
    text
}

impl Default for TodoList {
    fn default() -> (list: TodoList)
        ensures
            list.records() == Seq::<TodoItem>::empty(),
            list.cursor() == None::<usize>,
    {
        TodoList { items: Vec::new(), selection: None }
    }
}

impl TodoList {
    #[verifier::type_invariant]
    spec fn selection_is_a_record(self) -> bool {
        in_bounds(self.selection, self.items@.len())
    }

    /// The records, in their order.
    pub closed spec fn records(&self) -> Seq<TodoItem> {
        self.items@
    }

    /// The position of the selected record, if one is selected.
    pub closed spec fn cursor(&self) -> Option<usize> {
        self.selection
    }

    /// Takes the records out, so that they can change while the list, left
    /// empty with nothing selected, stays valid.
    fn take_items(&mut self) -> (items: Vec<TodoItem>)
        ensures
            items@ == old(self).records(),
            final(self).records() == Seq::<TodoItem>::empty(),
            final(self).cursor() == None::<usize>,
    {
        self.selection = None;
        let mut items: Vec<TodoItem> = Vec::new();
        core::mem::swap(&mut self.items, &mut items);
        items
    }

    /// Puts `items` in with `selection`, which is none or one of them.
    fn put_items(&mut self, items: Vec<TodoItem>, selection: Option<usize>)
        requires
            in_bounds(selection, items@.len()),
        ensures
            final(self).records() == items@,
            final(self).cursor() == selection,
    {
        self.selection = None;
        self.items = items;
        self.selection = selection;
    }

    /// A list of `items` with nothing selected.
    pub fn from_items(items: Vec<TodoItem>) -> (list: TodoList)
        ensures
            list.records() == items@,
            list.cursor() == None::<usize>,
    {
        TodoList { items, selection: None }
    }

    /// The records, in their order.
    pub fn items(&self) -> (items: &Vec<TodoItem>)
        ensures
            items@ == self.records(),
    {
        &self.items
    }

    /// The position of the selected record, which is always a position of
    /// the list.
    pub fn selected(&self) -> (selection: Option<usize>)
        ensures
            selection == self.cursor(),
            in_bounds(self.cursor(), self.records().len()),
    {
        proof {
            use_type_invariant(self);
        }
        self.selection
    }

    /// Takes over stored data. Empty data stands for an empty list and is
    /// never decoded. Other data gives the records whose stored forms it
    /// decodes to, handed in as `decoded`; it is refused where it does not
    /// decode, or where a stored form is malformed. The selection is
    /// cleared on success; a refusal changes nothing.
    pub fn read_todos(&mut self, data: &str, decoded: Option<Vec<StoredItem>>) -> (outcome: Result<
        (),
        LoadError,
    >)
        ensures
            loads(data@, decoded) ==> outcome is Ok && final(self).records() == loaded_records(
                data@,
                decoded,
            ) && final(self).cursor() == None::<usize>,
            !loads(data@, decoded) ==> outcome == Err::<(), LoadError>(LoadError::Malformed)
                && final(self).records() == old(self).records() && final(self).cursor() == old(
                self,
            ).cursor(),
    {
        if data.is_empty() {
            self.put_items(Vec::new(), None);
            return Ok(());
        }
        match decoded {
            Some(stored) => {
                match decode_items(&stored) {
                    Ok(todos) => {
                        self.put_items(todos, None);
                        Ok(())
                    },
                    Err(error) => Err(error),
                }
            },
            None => Err(LoadError::Malformed),
        }
    }

    /// The stored forms of the records, in the order of the list: what is
    /// to be written to storage.
    pub fn save_todos(&self) -> (stored: Vec<StoredItem>)
        ensures
            stored_forms_of(self.records(), stored@),
    {
        let mut stored: Vec<StoredItem> = Vec::new();
        let n: usize = self.items.len();
        let mut i: usize = 0;
        while i < n
            invariant
                n == self.items@.len(),
                i <= n,
                stored@.len() == i,
                forall|j: int| 0 <= j < i ==> (#[trigger] self.items@[j]).stored_as(stored@[j]),
            decreases n - i,
        {
            stored.push(self.items[i].to_stored());
            i += 1;
        }
        stored
    }

    /// Appends `item`; the selection stays where it is.
    pub fn insert(&mut self, item: TodoItem)
        ensures
            final(self).records() == old(self).records().push(item),
            final(self).cursor() == old(self).cursor(),
            in_bounds(final(self).cursor(), final(self).records().len()),
    {
        proof {
            use_type_invariant(&*self);
        }
        let selection = self.selection;
        let mut items = self.take_items();
        items.push(item);
        self.put_items(items, selection);
    }

    /// Selects nothing.
    pub fn select_none(&mut self)
        ensures
            final(self).records() == old(self).records(),
            final(self).cursor() == None::<usize>,
    {
        self.selection = None;
    }

    /// Moves the selection one record towards the front, stopping at the
    /// first.
    pub fn select_previous(&mut self)
        ensures
            final(self).records() == old(self).records(),
            final(self).cursor() == selection_before(old(self).cursor(), old(self).records().len()),
            in_bounds(final(self).cursor(), final(self).records().len()),
    {
        proof {
            use_type_invariant(&*self);
        }
        let len: usize = self.items.len();
        self.selection =
        if len == 0 {
            None
        } else {
            match self.selection {
                Some(i) => if i == 0 {
                    Some(0)
                } else {
                    Some(i - 1)
                },
                None => Some(len - 1),
            }
        };
    }

    /// Moves the selection one record towards the end, stopping at the last.
    pub fn select_next(&mut self)
        ensures
            final(self).records() == old(self).records(),
            final(self).cursor() == selection_after(old(self).cursor(), old(self).records().len()),
            in_bounds(final(self).cursor(), final(self).records().len()),
    {
        proof {
            use_type_invariant(&*self);
        }
        let len: usize = self.items.len();
        self.selection =
        if len == 0 {
            None
        } else {
            match self.selection {
                Some(i) => if i + 1 >= len {
                    Some(len - 1)
                } else {
                    Some(i + 1)
                },
                None => Some(0),
            }
        };
    }

    /// Selects the first record, or nothing in an empty list.
    pub fn select_first(&mut self)
        ensures
            final(self).records() == old(self).records(),
            final(self).cursor() == selection_first(old(self).records().len()),
            in_bounds(final(self).cursor(), final(self).records().len()),
    {
        self.selection =
        if self.items.len() == 0 {
            None
        } else {
            Some(0)
        };
    }

    /// Selects the last record, or nothing in an empty list.
    pub fn select_last(&mut self)
        ensures
            final(self).records() == old(self).records(),
            final(self).cursor() == selection_last(old(self).records().len()),
            in_bounds(final(self).cursor(), final(self).records().len()),
    {
        let len: usize = self.items.len();
        self.selection =
        if len == 0 {
            None
        } else {
            Some(len - 1)
        };
    }

    /// Removes the selected record and moves the selection to a record that
    /// is left; with nothing selected, nothing happens.
    pub fn remove_selected(&mut self)
        ensures
            in_bounds(old(self).cursor(), old(self).records().len()),
            in_bounds(final(self).cursor(), final(self).records().len()),
            match old(self).cursor() {
                Some(i) => {
                    &&& final(self).records() == old(self).records().remove(i as int)
                    &&& final(self).cursor() == selection_after_removal(
                        i,
                        (old(self).records().len() - 1) as nat,
                    )
                },
                None => {
                    &&& final(self).records() == old(self).records()
                    &&& final(self).cursor() == None::<usize>
                },
            },
    {
        proof {
            use_type_invariant(&*self);
        }
        if let Some(selected) = self.selection {
            let mut items = self.take_items();
            let _ = items.remove(selected);
            let new_len: usize = items.len();
            let selection = if new_len == 0 {
                None
            } else if selected >= new_len {
                Some(new_len - 1)
            } else {
                Some(selected)
            };
            self.put_items(items, selection);
        }
    }

    /// Turns over the completion flag of the selected record; with nothing
    /// selected, nothing happens.
    pub fn mark_completed(&mut self)
        ensures
            in_bounds(old(self).cursor(), old(self).records().len()),
            final(self).cursor() == old(self).cursor(),
            match old(self).cursor() {
                Some(i) => final(self).records() == old(self).records().update(
                    i as int,
                    old(self).records()[i as int].toggled(),
                ),
                None => final(self).records() == old(self).records(),
            },
    {
        proof {
            use_type_invariant(&*self);
        }
        if let Some(selected) = self.selection {
            let completed = self.items[selected].completed;
            self.items[selected].completed = !completed;
            assert(self.items@ =~= old(self).items@.update(
                selected as int,
                old(self).items@[selected as int].toggled(),
            ));
        }
    }

    /// One line for each record, in the order of the list.
    pub fn get_list_to_display(&self) -> (lines: Vec<String>)
        ensures
            lines@.len() == self.records().len(),
            forall|i: int|
                0 <= i < lines@.len() ==> (#[trigger] lines@[i])@ == display_line(
                    self.records()[i],
                ),
    {
        let mut lines: Vec<String> = Vec::new();
        let n: usize = self.items.len();
        let mut i: usize = 0;
        while i < n
            invariant
                n == self.items@.len(),
                i <= n,
                lines@.len() == i,
                forall|j: int|
                    0 <= j < i ==> (#[trigger] lines@[j])@ == display_line(self.items@[j]),
            decreases n - i,
        {
            lines.push(item_line(&self.items[i]));
            i += 1;
        }
        lines
    }

    /// The full description of the selected record, or a note that nothing
    /// is selected.
    pub fn get_selected_item_display(&self) -> (text: String)
        ensures
            text@ == selected_text(self.records(), self.cursor()),
    {
        match self.selection {
            Some(selected) => {
                if selected < self.items.len() {
                    item_detail(&self.items[selected])
                } else {
                    String::from_str("No item selected")
                }
            },
            None => String::from_str("No item selected"),
        }
    }
}

/// What was saved loads back: the stored forms of any records are all
/// well-formed and decode to those records, in the same order.
pub proof fn saved_records_load_back(items: Seq<TodoItem>, stored: Seq<StoredItem>)
    requires
        stored_forms_of(items, stored),
    ensures
        all_decode(stored),
        decode_all(stored) == items,
{
    assert forall|i: int| 0 <= i < stored.len() implies (#[trigger] stored[i]).decodes()
        && stored[i].decoded() == items[i] by {
        stored_item_reads_back(items[i], stored[i]);
    }
    assert(decode_all(stored) =~= items);
}

/// Removing the last record selects the one before it, and removing the
/// only record selects nothing.
pub proof fn removing_last_selects_new_last(len: nat)
    requires
        0 < len <= usize::MAX,
    ensures
        len > 1 ==> selection_after_removal((len - 1) as usize, (len - 1) as nat) == Some(
            (len - 2) as usize,
        ),
        len == 1 ==> selection_after_removal(0usize, 0) == None::<usize>,
{
}

/// Removing a record that is not the last leaves the selection at the same
/// position, where the record that followed now stands.
pub proof fn removing_inner_keeps_position(items: Seq<TodoItem>, removed: usize)
    requires
        removed + 1 < items.len(),
    ensures
        selection_after_removal(removed, (items.len() - 1) as nat) == Some(removed),
        items.remove(removed as int)[removed as int] == items[removed + 1],
{
}

/// Every way of moving the selection leaves it on a record of the list or
/// on none, whatever it was before.
pub proof fn navigation_stays_in_bounds(selection: Option<usize>, len: nat)
    requires
        len <= usize::MAX,
        in_bounds(selection, len),
    ensures
        in_bounds(selection_before(selection, len), len),
        in_bounds(selection_after(selection, len), len),
        in_bounds(selection_first(len), len),
        in_bounds(selection_last(len), len),
        in_bounds(None, len),
{
}

/// After a removal the selection is on a record of the shorter list, or on
/// none exactly when that list is empty.
pub proof fn removal_stays_in_bounds(removed: usize, new_len: nat)
    requires
        new_len <= usize::MAX,
    ensures
        in_bounds(selection_after_removal(removed, new_len), new_len),
        selection_after_removal(removed, new_len) is None <==> new_len == 0,
{
}

/// Turning the completion flag over twice gives the record back.
pub proof fn toggling_twice_restores(item: TodoItem)
    ensures
        item.toggled().toggled() == item,
{
}

} // verus!
