//! A labelled field that holds one of a fixed, non-empty list of options.

use vstd::prelude::*;
use vstd::std_specs::cmp::PartialEqSpec;
use crate::key::KeyCode;

verus! {

/// A value that can be shown as text in a choice field.
pub trait EnumDisplay {
    /// The text that stands for this value.
    spec fn display_text(&self) -> Seq<char>;

    fn to_str(&self) -> (s: &str)
        ensures
            s@ == self.display_text(),
    ;
}

/// A choice field: a fixed label, the options in their order, and the
/// position of the chosen one, which is always a position of the list.
#[derive(Debug)]
pub struct EnumField<T> where T: EnumDisplay + Copy + PartialEq + 'static {
    label: &'static str,
    options: &'static [T],
    selected_index: usize,
}

/// The position before `selected` among `len` options, the first wrapping
/// round to the last.
pub open spec fn previous_choice(selected: int, len: int) -> int {
    if selected == 0 {
        len - 1
    } else {
        selected - 1
    }
}

/// The position after `selected` among `len` options, the last wrapping
/// round to the first.
pub open spec fn next_choice(selected: int, len: int) -> int {
    if selected + 1 == len {
        0
    } else {
        selected + 1
    }
}

/// The position chosen after `key` is pressed: Left and Up go back, Right
/// and Down go on, every other key changes nothing.
pub open spec fn choice_after(selected: int, len: int, key: KeyCode) -> int {
    match key {
        KeyCode::Left | KeyCode::Up => previous_choice(selected, len),
        KeyCode::Right | KeyCode::Down => next_choice(selected, len),
        _ => selected,
    }
}

/// The keys that go on to the next option.
pub open spec fn is_next_key(key: KeyCode) -> bool {
    key == KeyCode::Right || key == KeyCode::Down
}

/// The keys that go back to the previous option.
pub open spec fn is_previous_key(key: KeyCode) -> bool {
    key == KeyCode::Left || key == KeyCode::Up
}

/// The position chosen after the keys `keys` are pressed one after the other.
pub open spec fn choice_after_keys(selected: int, len: int, keys: Seq<KeyCode>) -> int
    decreases keys.len(),
{
    if keys.len() == 0 {
        selected
    } else {
        choice_after(choice_after_keys(selected, len, keys.drop_last()), len, keys.last())
    }
}

/// The first position of `options` that holds a value equal to `value`, if
/// there is one.
pub open spec fn first_match<T: PartialEq>(options: Seq<T>, value: T, at: int) -> bool {
    &&& 0 <= at < options.len()
    &&& options[at].eq_spec(&value)
    &&& forall|j: int| 0 <= j < at ==> !(#[trigger] options[j]).eq_spec(&value)
}

impl<T> EnumField<T> where T: EnumDisplay + Copy + PartialEq + 'static {
    #[verifier::type_invariant]
    spec fn chosen_is_an_option(self) -> bool {
        self.selected_index < self.options@.len()
    }

    /// The label shown before the chosen value.
    pub closed spec fn label(&self) -> Seq<char> {
        self.label@
    }

    /// The options, in their fixed order.
    pub closed spec fn options(&self) -> Seq<T> {
        self.options@
    }

    /// The position of the chosen option.
    pub closed spec fn selected(&self) -> int {
        self.selected_index as int
    }

    /// A field under `label` that starts on the first of `options`.
    pub fn new(label: &'static str, options: &'static [T]) -> (field: Self)
        requires
            options@.len() > 0,
        ensures
            field.label() == label@,
            field.options() == options@,
            field.selected() == 0,
    {
        EnumField { label, options, selected_index: 0 }
    }

    /// The chosen option.
    pub fn get_value(&self) -> (value: T)
        ensures
            0 <= self.selected() < self.options().len(),
            value == self.options()[self.selected()],
    {
        proof {
            use_type_invariant(self);
        }
        self.options[self.selected_index]
    }

    /// The position of the chosen option.
    pub fn selected_index(&self) -> (index: usize)
        ensures
            index == self.selected(),
            0 <= self.selected() < self.options().len(),
    {
        proof {
            use_type_invariant(self);
        }
        self.selected_index
    }

    pub fn get_label(&self) -> (label: &'static str)
        ensures
            label@ == self.label(),
    {
        self.label
    }

    /// Chooses the first option equal to `value`; where no option is equal
    /// to it, the choice stays as it was.
    pub fn set_value(&mut self, value: T)
        ensures
            final(self).label() == old(self).label(),
            final(self).options() == old(self).options(),
            0 <= final(self).selected() < final(self).options().len(),
            T::obeys_eq_spec() ==> {
                if exists|at: int| first_match(old(self).options(), value, at) {
                    first_match(old(self).options(), value, final(self).selected())
                } else {
                    final(self).selected() == old(self).selected()
                }
            },
    {
        proof {
            use_type_invariant(&*self);
        }
        let n: usize = self.options.len();
        let mut i: usize = 0;
        while i < n
            invariant
                *self == *old(self),
                n == self.options@.len(),
                self.selected_index < n,
                i <= n,
                T::obeys_eq_spec() ==> forall|j: int|
                    0 <= j < i ==> !(#[trigger] self.options@[j]).eq_spec(&value),
            decreases n - i,
        {
            if self.options[i] == value {
                self.selected_index = i;
                assert(T::obeys_eq_spec() ==> first_match(old(self).options(), value, i as int));
                return ;
            }
            i += 1;
        }
        assert(T::obeys_eq_spec() ==> forall|at: int|
            !first_match(old(self).options(), value, at));
    }

    /// Applies one key press to the choice.
    pub fn on_key_press(&mut self, key: KeyCode)
        ensures
            final(self).label() == old(self).label(),
            final(self).options() == old(self).options(),
            final(self).selected() == choice_after(
                old(self).selected(),
                old(self).options().len() as int,
                key,
            ),
            0 <= final(self).selected() < final(self).options().len(),
    {
        proof {
            use_type_invariant(&*self);
        }
        match key {
            KeyCode::Left | KeyCode::Up => {
                if self.selected_index == 0 {
                    self.selected_index = self.options.len() - 1;
                } else {
                    self.selected_index -= 1;
                }
            },
            KeyCode::Right | KeyCode::Down => {
                let n: usize = self.options.len();
                let next: usize = self.selected_index + 1;
                self.selected_index = if next == n {
                    0
                } else {
                    next
                };
            },
            _ => {},
        }
    }
}

impl<T> Clone for EnumField<T> where T: EnumDisplay + Copy + PartialEq + 'static {
    fn clone(&self) -> (copy: Self)
        ensures
            copy == *self,
    {
        proof {
            use_type_invariant(self);
        }
        EnumField { label: self.label, options: self.options, selected_index: self.selected_index }
    }
}

/// A "next" press followed by a "previous" press, or the other way round,
/// leaves the choice where it was.
pub proof fn next_and_previous_cancel(selected: int, len: int)
    requires
        0 <= selected < len,
    ensures
        previous_choice(next_choice(selected, len), len) == selected,
        next_choice(previous_choice(selected, len), len) == selected,
{
}

/// The position after at most `len` "next" presses: as many steps on,
/// counted round the end of the list.
proof fn nexts_add_up(selected: int, len: int, keys: Seq<KeyCode>)
    requires
        0 <= selected < len,
        keys.len() <= len,
        forall|i: int| 0 <= i < keys.len() ==> is_next_key(#[trigger] keys[i]),
    ensures
        choice_after_keys(selected, len, keys) == (if selected + keys.len() < len {
            selected + keys.len()
        } else {
            selected + keys.len() - len
        }),
    decreases keys.len(),
{
    if keys.len() > 0 {
        nexts_add_up(selected, len, keys.drop_last());
        assert(is_next_key(keys.last()));
    }
}

/// The position after at most `len` "previous" presses: as many steps
/// back, counted round the start of the list.
proof fn previouses_add_up(selected: int, len: int, keys: Seq<KeyCode>)
    requires
        0 <= selected < len,
        keys.len() <= len,
        forall|i: int| 0 <= i < keys.len() ==> is_previous_key(#[trigger] keys[i]),
    ensures
        choice_after_keys(selected, len, keys) == (if selected - keys.len() >= 0 {
            selected - keys.len()
        } else {
            selected - keys.len() + len
        }),
    decreases keys.len(),
{
    if keys.len() > 0 {
        previouses_add_up(selected, len, keys.drop_last());
        assert(is_previous_key(keys.last()));
    }
}

/// Going through the options is cyclic: as many "next" presses as there are
/// options bring the choice back to where it started.
pub proof fn nexts_come_full_circle(selected: int, len: int, keys: Seq<KeyCode>)
    requires
        0 <= selected < len,
        keys.len() == len,
        forall|i: int| 0 <= i < keys.len() ==> is_next_key(#[trigger] keys[i]),
    ensures
        choice_after_keys(selected, len, keys) == selected,
{
    nexts_add_up(selected, len, keys);
}

/// As many "previous" presses as there are options bring the choice back to
/// where it started.
pub proof fn previouses_come_full_circle(selected: int, len: int, keys: Seq<KeyCode>)
    requires
        0 <= selected < len,
        keys.len() == len,
        forall|i: int| 0 <= i < keys.len() ==> is_previous_key(#[trigger] keys[i]),
    ensures
        choice_after_keys(selected, len, keys) == selected,
{
    previouses_add_up(selected, len, keys);
}

/// Whatever keys are pressed, the choice stays a position of the list.
pub proof fn choice_stays_in_range(selected: int, len: int, keys: Seq<KeyCode>)
    requires
        0 <= selected < len,
    ensures
        0 <= choice_after_keys(selected, len, keys) < len,
    decreases keys.len(),
{
    if keys.len() > 0 {
        choice_stays_in_range(selected, len, keys.drop_last());
    }
}

} // verus!
