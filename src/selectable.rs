//! A list of items with an optional, cyclically movable selection.
//!
//! The selection lives in a `tui` list state, so that the same value can be
//! handed to the list widget when the list is drawn.

use tui::widgets::ListState;
use vstd::arithmetic::div_mod::{
    lemma_add_mod_noop_right, lemma_mod_add_multiples_vanish, lemma_mod_self_0, lemma_small_mod,
};
use vstd::prelude::*;

verus! {

#[verifier::external_type_specification]
#[verifier::external_body]
pub struct ExListState(tui::widgets::ListState);

/// The index that a `tui` list state holds as selected.
pub uninterp spec fn list_selection(s: ListState) -> Option<usize>;

/// Relies on `tui::widgets::ListState::default`: a fresh state selects nothing.
pub assume_specification[ <tui::widgets::ListState as core::default::Default>::default ]() -> (r: ListState)
    ensures
        list_selection(r) == None::<usize>,
;

/// Relies on `tui::widgets::ListState::selected`: it returns the stored selection.
pub assume_specification[ tui::widgets::ListState::selected ](s: &ListState) -> (r: Option<usize>)
    ensures
        r == list_selection(*s),
;

/// Relies on `tui::widgets::ListState::select`: it stores the given selection.
pub assume_specification[ tui::widgets::ListState::select ](s: &mut ListState, index: Option<usize>)
    ensures
        list_selection(*final(s)) == index,
;

/// What a list holds: its items, in order, and the selected index.
pub ghost struct ListView<T> {
    pub items: Seq<T>,
    pub selected: Option<usize>,
}

/// The selection after moving forward in a list of `len` items.
pub open spec fn next_selection(sel: Option<usize>, len: nat) -> Option<usize> {
    if len == 0 {
        sel
    } else {
        match sel {
            None => Some(0),
            Some(i) => if i + 1 >= len { Some(0) } else { Some((i + 1) as usize) },
        }
    }
}

/// The selection after moving backward in a list of `len` items.
pub open spec fn previous_selection(sel: Option<usize>, len: nat) -> Option<usize> {
    if len == 0 {
        sel
    } else {
        match sel {
            None => Some(0),
            Some(i) => if i == 0 { Some((len - 1) as usize) } else { Some((i - 1) as usize) },
        }
    }
}

impl<T> ListView<T> {
    /// The selection is absent or an index of an item.
    pub open spec fn wf(&self) -> bool {
        match self.selected {
            None => true,
            Some(i) => i < self.items.len(),
        }
    }
}

pub struct StatefulList<T> {
    state: ListState,
    items: Vec<T>,
}

impl<T> View for StatefulList<T> {
    type V = ListView<T>;

    closed spec fn view(&self) -> ListView<T> {
        ListView { items: self.items@, selected: list_selection(self.state) }
    }
}

impl<T> StatefulList<T> {
    pub fn with_items(items: Vec<T>) -> (r: StatefulList<T>)
        ensures
            r@.items == items@,
            r@.selected == None::<usize>,
            r@.wf(),
    {
        StatefulList { state: ListState::default(), items }
    }

    /// Moves the selection one item forward, from the last item back to the
    /// first; selects the first item where nothing was selected. Does
    /// nothing on an empty list.
    pub fn next(&mut self)
        ensures
            final(self)@.items == old(self)@.items,
            final(self)@.selected == next_selection(old(self)@.selected, old(self)@.items.len()),
    {
        let len = self.items.len();
        if len == 0 {
            return;
        }
        let i: usize = match self.state.selected() {
            Some(i) => if i >= len - 1 { 0 } else { i + 1 },
            None => 0,
        };
        self.state.select(Some(i));
    }

    /// Moves the selection one item backward, from the first item to the
    /// last; selects the first item where nothing was selected. Does nothing
    /// on an empty list.
    pub fn previous(&mut self)
        ensures
            final(self)@.items == old(self)@.items,
            final(self)@.selected == previous_selection(old(self)@.selected, old(self)@.items.len()),
    {
        let len = self.items.len();
        if len == 0 {
            return;
        }
        let i: usize = match self.state.selected() {
            Some(i) => if i == 0 { len - 1 } else { i - 1 },
            None => 0,
        };
        self.state.select(Some(i));
    }

    /// Selects nothing.
    pub fn unselect(&mut self)
        ensures
            final(self)@.items == old(self)@.items,
            final(self)@.selected == None::<usize>,
    {
        self.state.select(None);
    }

    pub fn items(&self) -> (r: &Vec<T>)
        ensures
            r@ == self@.items,
    {
        &self.items
    }

    pub fn selected(&self) -> (r: Option<usize>)
        ensures
            r == self@.selected,
    {
        self.state.selected()
    }

    /// The list state, for a list widget to draw from; whatever selection
    /// the borrower leaves in it becomes the list's selection.
    pub fn state_mut(&mut self) -> (r: &mut ListState)
        ensures
            list_selection(*r) == old(self)@.selected,
            final(self)@.items == old(self)@.items,
            final(self)@.selected == list_selection(*final(r)),
    {
        &mut self.state
    }
}

/// The selection after moving forward `k` times.
pub open spec fn next_times(sel: Option<usize>, len: nat, k: nat) -> Option<usize>
    decreases k,
{
    if k == 0 {
        sel
    } else {
        next_times(next_selection(sel, len), len, (k - 1) as nat)
    }
}

/// The selection after clearing it `k` times.
pub open spec fn unselect_times(sel: Option<usize>, k: nat) -> Option<usize>
    decreases k,
{
    if k == 0 {
        sel
    } else {
        unselect_times(None, (k - 1) as nat)
    }
}

/// Moving forward `k` times from index `i` lands on `(i + k) mod len`.
pub proof fn lemma_next_times_from(len: nat, i: usize, k: nat)
    requires
        i < len <= usize::MAX,
    ensures
        next_times(Some(i), len, k) == Some(((i + k) % (len as int)) as usize),
    decreases k,
{
    if k == 0 {
        lemma_small_mod(i as nat, len);
    } else {
        let j: usize = if i + 1 >= len { 0 } else { (i + 1) as usize };
        assert(j == (i + 1) % (len as int)) by {
            if i + 1 >= len {
                lemma_mod_self_0(len as int);
            } else {
                lemma_small_mod((i + 1) as nat, len);
            }
        }
        lemma_next_times_from(len, j, (k - 1) as nat);
        lemma_add_mod_noop_right((k - 1) as int, i + 1, len as int);
    }
}

/// On a non-empty list, moving forward once per item from a selected item
/// comes back to that item.
pub proof fn lemma_next_full_cycle(len: nat, i: usize)
    requires
        i < len <= usize::MAX,
    ensures
        next_times(Some(i), len, len) == Some(i),
{
    lemma_next_times_from(len, i, len);
    lemma_mod_add_multiples_vanish(i as int, len as int);
    lemma_small_mod(i as nat, len);
}

/// On a non-empty list with nothing selected, moving forward once per item
/// ends on the last item, which is the first only in a list of one item;
/// one move more comes back to the first item.
pub proof fn lemma_next_from_none(len: nat)
    requires
        0 < len <= usize::MAX,
    ensures
        next_times(None, len, len) == Some((len - 1) as usize),
        len == 1 ==> next_times(None, len, len) == Some(0usize),
        next_times(None, len, len + 1) == Some(0usize),
{
    lemma_next_times_from(len, 0, (len - 1) as nat);
    lemma_small_mod((len - 1) as nat, len);
    lemma_next_full_cycle(len, 0);
}

/// On a non-empty list, moving backward undoes moving forward from any
/// selected item, and moving forward undoes moving backward.
pub proof fn lemma_previous_undoes_next(len: nat, i: usize)
    requires
        i < len <= usize::MAX,
    ensures
        previous_selection(next_selection(Some(i), len), len) == Some(i),
        next_selection(previous_selection(Some(i), len), len) == Some(i),
{
}

/// Clearing the selection once or any number of times more leaves nothing
/// selected.
pub proof fn lemma_unselect_idempotent(sel: Option<usize>, k: nat)
    ensures
        unselect_times(sel, k + 1) == None::<usize>,
    decreases k,
{
    if k > 0 {
        lemma_unselect_idempotent(None, (k - 1) as nat);
    }
    assert(unselect_times(sel, k + 1) == unselect_times(None, k));
}

} // verus!
