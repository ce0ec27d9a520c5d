//! The todo list and its single-item edit checkout.
//!
//! The collection owns a map from identifiers to items. Selecting an item
//! copies it into an exclusive edit slot; each later frame either keeps the
//! (possibly reworked) draft in the slot, commits it back over the stored
//! entry, discards it, or deletes the entry. The whole per-frame decision is
//! modelled by [`edit_step_t`] over the ghost state [`TodoState`], and every
//! executable transition is proved to follow it.

use std::collections::HashMap;
use vstd::prelude::*;

verus! {

broadcast use vstd::std_specs::hash::group_hash_axioms;

/// One entry of the todo list: an identifier and two lines of text.
pub struct TodoItem {
    pub id: u32,
    pub name: String,
    pub body: String,
}

/// What the user asked of the edit surface this frame, after the fixed
/// priority order has been applied (see [`resolve_action`]).
#[derive(Clone, Copy, PartialEq, Eq, Structural, Debug)]
pub enum EditAction {
    /// Write the draft back over the stored entry and leave the edit slot.
    Save,
    /// Drop the draft; the stored entry keeps its last committed value.
    Cancel,
    /// Erase the stored entry altogether.
    Remove,
    /// No terminal action: the draft stays checked out for the next frame.
    Keep,
}

/// The ghost state of the whole todo app: the stored entries, the id counter
/// for newly added entries, and the optional checked-out draft.
pub ghost struct TodoState {
    pub label: Seq<char>,
    pub items: Map<u32, TodoItem>,
    pub next_id: u32,
    pub edited: Option<(u32, TodoItem)>,
}

/// The todo app itself; [`View`] maps it to [`TodoState`].
pub struct TodoApp {
    pub label: String,
    pub items: HashMap<u32, TodoItem>,
    pub next_id: u32,
    pub currently_edited: Option<(u32, TodoItem)>,
}

impl View for TodoApp {
    type V = TodoState;

    open spec fn view(&self) -> TodoState {
        TodoState {
            label: self.label@,
            items: self.items@,
            next_id: self.next_id,
            edited: self.currently_edited,
        }
    }
}

/// The state a fresh app starts from when nothing was restored.
pub open spec fn initial_todo_state() -> TodoState {
    TodoState {
        label: "Hello World!"@,
        items: Map::empty(),
        next_id: 0,
        edited: None,
    }
}

/// Checking an item out of the collection: the stored entry is left
/// untouched, a copy of it lands in the edit slot.
pub open spec fn select_t(s: TodoState, id: u32) -> TodoState
    recommends
        s.items.contains_key(id),
{
    TodoState {
        label: s.label,
        items: s.items,
        next_id: s.next_id,
        edited: Some((id, s.items[id])),
    }
}

/// Adding a new entry under the current counter value.
pub open spec fn add_t(s: TodoState, item: TodoItem) -> TodoState
    recommends
        s.next_id < u32::MAX,
{
    TodoState {
        label: s.label,
        items: s.items.insert(s.next_id, item),
        next_id: (s.next_id + 1) as u32,
        edited: s.edited,
    }
}

/// One frame of the edit surface: the slot holds some draft, the user has
/// (possibly) reworked it into `edited`, and `action` is the decision of the
/// frame. Exactly one of four things happens.
pub open spec fn edit_step_t(s: TodoState, edited: TodoItem, action: EditAction) -> TodoState
    recommends
        s.edited is Some,
{
    match s.edited {
        Some((id, _snapshot)) => match action {
            EditAction::Save => TodoState {
                label: s.label,
                items: s.items.insert(id, edited),
                next_id: s.next_id,
                edited: None,
            },
            EditAction::Cancel => TodoState {
                label: s.label,
                items: s.items,
                next_id: s.next_id,
                edited: None,
            },
            EditAction::Remove => TodoState {
                label: s.label,
                items: s.items.remove(id),
                next_id: s.next_id,
                edited: None,
            },
            EditAction::Keep => TodoState {
                label: s.label,
                items: s.items,
                next_id: s.next_id,
                edited: Some((id, edited)),
            },
        },
        None => s,
    }
}

/// The fixed priority order of the edit surface's terminal actions: save
/// first, then cancel (a close request counts as cancel), then remove; if
/// none fired, the draft is kept for the next frame.
pub open spec fn resolve_action_t(
    save: bool,
    cancel: bool,
    close_requested: bool,
    remove: bool,
) -> EditAction {
    if save {
        EditAction::Save
    } else if cancel || close_requested {
        EditAction::Cancel
    } else if remove {
        EditAction::Remove
    } else {
        EditAction::Keep
    }
}

/// Picks the action the edit surface honours this frame; only the first
/// signal in the fixed priority order counts.
pub fn resolve_action(save: bool, cancel: bool, close_requested: bool, remove: bool) -> (r:
    EditAction)
    ensures
        r == resolve_action_t(save, cancel, close_requested, remove),
{
    if save {
        EditAction::Save
    } else if cancel || close_requested {
        EditAction::Cancel
    } else if remove {
        EditAction::Remove
    } else {
        EditAction::Keep
    }
}

/// The decimal digit characters.
pub open spec fn decimal_digit(d: int) -> char
    recommends
        0 <= d < 10,
{
    if d == 0 {
        '0'
    } else if d == 1 {
        '1'
    } else if d == 2 {
        '2'
    } else if d == 3 {
        '3'
    } else if d == 4 {
        '4'
    } else if d == 5 {
        '5'
    } else if d == 6 {
        '6'
    } else if d == 7 {
        '7'
    } else if d == 8 {
        '8'
    } else {
        '9'
    }
}

/// The usual decimal writing of a nonnegative number: no sign, no leading
/// zeros, a single `'0'` for zero itself.
pub open spec fn decimal_rep(n: int) -> Seq<char>
    recommends
        n >= 0,
    decreases n,
{
    if n < 10 {
        seq![decimal_digit(n)]
    } else {
        decimal_rep(n / 10).push(decimal_digit(n % 10))
    }
}

/// The display name a freshly created item gets from its id.
pub open spec fn default_name(id: u32) -> Seq<char> {
    "Todo Item "@ + decimal_rep(id as int)
}

/// Relies on std's `format!` over `u32`'s `Display` impl, which writes the
/// decimal digits of the number with no sign and no leading zeros.
#[verifier::external_body]
fn format_item_name(id: u32) -> (r: String)
    ensures
        r@ == default_name(id),
{
    format!("Todo Item {}", id)
}

/// Relies on chrono's `DateTime::from_timestamp` and
/// `DateTime::timestamp_subsec_nanos`: the nanosecond part of the current
/// wall-clock second. Chrono documents the value as at most 1,999,999,999
/// (the range above 999,999,999 stands for a leap second). A clock that
/// reads before 1970, or beyond chrono's representable years, yields 0
/// instead of failing; nothing else holds of a clock reading.
#[verifier::external_body]
fn clock_subsec_nanos() -> (r: u32)
    ensures
        r <= 1_999_999_999,
{
    match std::time::SystemTime::now().duration_since(std::time::UNIX_EPOCH) {
        Ok(since_epoch) => {
            match chrono::DateTime::from_timestamp(
                since_epoch.as_secs() as i64,
                since_epoch.subsec_nanos(),
            ) {
                Some(now) => now.timestamp_subsec_nanos(),
                None => 0,
            }
        },
        Err(_) => 0,
    }
}

impl TodoItem {
    /// A new item with the given id, its display name derived from the id,
    /// and an empty body.
    pub fn fresh(id: u32) -> (r: TodoItem)
        ensures
            r.id == id,
            r.name@ == default_name(id),
            r.body@ == Seq::<char>::empty(),
    {
        TodoItem { id, name: format_item_name(id), body: String::new() }
    }

    /// A value copy of the item: the snapshot the edit slot holds.
    pub fn duplicate(&self) -> (r: TodoItem)
        ensures
            r == *self,
    {
        TodoItem { id: self.id, name: self.name.clone(), body: self.body.clone() }
    }
}

impl Default for TodoItem {
    /// A fresh item whose id is drawn from the wall clock's nanosecond part.
    fn default() -> (r: TodoItem)
        ensures
            r.id <= 1_999_999_999,
            r.name@ == default_name(r.id),
            r.body@ == Seq::<char>::empty(),
    {
        let id = clock_subsec_nanos();
        TodoItem::fresh(id)
    }
}

impl Default for TodoApp {
    /// The state a fresh app starts from.
    fn default() -> (r: TodoApp)
        ensures
            r@ == initial_todo_state(),
    {
        TodoApp {
            label: "Hello World!".to_owned(),
            items: HashMap::new(),
            next_id: 0,
            currently_edited: None,
        }
    }
}

impl TodoApp {
    /// A fresh app; restoring a persisted one is the shell's business.
    pub fn new() -> (r: TodoApp)
        ensures
            r@ == initial_todo_state(),
    {
        TodoApp::default()
    }

    /// Checks the entry at `id` out into the edit slot: the stored entry is
    /// untouched, the slot holds a value copy of it.
    pub fn select_item(&mut self, id: u32)
        requires
            old(self)@.items.contains_key(id),
        ensures
            final(self)@ == select_t(old(self)@, id),
    {
        let snapshot = match self.items.get(&id) {
            Some(item) => item.duplicate(),
            None => {
                proof {
                    assert(false);
                }
                TodoItem::fresh(0)
            },
        };
        self.currently_edited = Some((id, snapshot));
    }

    /// Stores `item` under the current counter value and steps the counter.
    /// Adding is only offered while nothing is checked out.
    pub fn add_item(&mut self, item: TodoItem)
        requires
            old(self)@.edited is None,
            old(self)@.next_id < u32::MAX,
        ensures
            final(self)@ == add_t(old(self)@, item),
    {
        let _ = self.items.insert(self.next_id, item);
        self.next_id = self.next_id + 1;
    }

    /// The Add button: stores a fresh clock-named item under the current
    /// counter value. Which id and name the item carries depends on the
    /// clock, so only their shape is promised.
    pub fn add_new_item(&mut self)
        requires
            old(self)@.edited is None,
            old(self)@.next_id < u32::MAX,
        ensures
            exists|item: TodoItem|
                {
                    &&& final(self)@ == #[trigger] add_t(old(self)@, item)
                    &&& item.id <= 1_999_999_999
                    &&& item.name@ == default_name(item.id)
                    &&& item.body@ == Seq::<char>::empty()
                },
    {
        let item = TodoItem::default();
        self.add_item(item);
    }

    /// One frame of the edit surface, with the user's draft and the action
    /// the frame resolved to.
    pub fn edit_step(&mut self, edited: TodoItem, action: EditAction)
        requires
            old(self)@.edited is Some,
        ensures
            final(self)@ == edit_step_t(old(self)@, edited, action),
    {
        let id: u32 = match &self.currently_edited {
            Some(p) => p.0,
            None => {
                proof {
                    assert(false);
                }
                0
            },
        };
        match action {
            EditAction::Save => {
                let _ = self.items.insert(id, edited);
                self.currently_edited = None;
            },
            EditAction::Cancel => {
                self.currently_edited = None;
            },
            EditAction::Remove => {
                let _ = self.items.remove(&id);
                self.currently_edited = None;
            },
            EditAction::Keep => {
                self.currently_edited = Some((id, edited));
            },
        }
    }
}

/// Any number of frames that keep the draft checked out, one draft per
/// frame, oldest first.
pub open spec fn keep_steps_t(s: TodoState, drafts: Seq<TodoItem>) -> TodoState
    decreases drafts.len(),
{
    if drafts.len() == 0 {
        s
    } else {
        keep_steps_t(edit_step_t(s, drafts[0], EditAction::Keep), drafts.drop_first())
    }
}

/// Frames that only keep the draft touch neither the stored entries nor the
/// counter, and the slot stays checked out under the same id, holding the
/// last draft.
pub proof fn lemma_keep_steps_only_rework_the_draft(s: TodoState, drafts: Seq<TodoItem>)
    requires
        s.edited is Some,
    ensures
        keep_steps_t(s, drafts).items == s.items,
        keep_steps_t(s, drafts).next_id == s.next_id,
        keep_steps_t(s, drafts).label == s.label,
        keep_steps_t(s, drafts).edited is Some,
        keep_steps_t(s, drafts).edited matches Some((id, draft)) ==> {
            &&& Some(id) == edited_id(s)
            &&& drafts.len() > 0 ==> draft == drafts.last()
        },
    decreases drafts.len(),
{
    if drafts.len() > 0 {
        lemma_keep_steps_only_rework_the_draft(
            edit_step_t(s, drafts[0], EditAction::Keep),
            drafts.drop_first(),
        );
    }
}

/// The id checked out into the edit slot, if any.
pub open spec fn edited_id(s: TodoState) -> Option<u32> {
    match s.edited {
        Some((id, _draft)) => Some(id),
        None => None,
    }
}

/// Committing stores the last draft: however an item was checked out and
/// however often the draft was reworked across frames, after a save the
/// stored entry under that id equals exactly the draft the slot held at
/// commit time, and the slot is empty again.
pub proof fn lemma_commit_stores_last_draft(
    s0: TodoState,
    id: u32,
    drafts: Seq<TodoItem>,
    last: TodoItem,
)
    requires
        s0.items.contains_key(id),
    ensures
        ({
            let committed = edit_step_t(keep_steps_t(select_t(s0, id), drafts), last, EditAction::Save);
            &&& committed.items.contains_key(id)
            &&& committed.items[id] == last
            &&& committed.edited is None
            &&& forall|other: u32|
                other != id ==> committed.items.contains_key(other) == s0.items.contains_key(other)
            &&& forall|other: u32|
                other != id && s0.items.contains_key(other) ==> committed.items[other]
                    == s0.items[other]
        }),
{
    lemma_keep_steps_only_rework_the_draft(select_t(s0, id), drafts);
}

/// Cancelling (or an external close, which resolves to cancel) leaves the
/// stored entries exactly as they were before the checkout, whatever drafts
/// the slot held in between, and the slot is empty again.
pub proof fn lemma_cancel_discards_edits(
    s0: TodoState,
    id: u32,
    drafts: Seq<TodoItem>,
    last: TodoItem,
)
    requires
        s0.items.contains_key(id),
    ensures
        ({
            let cancelled = edit_step_t(
                keep_steps_t(select_t(s0, id), drafts),
                last,
                EditAction::Cancel,
            );
            &&& cancelled.items == s0.items
            &&& cancelled.edited is None
        }),
{
    lemma_keep_steps_only_rework_the_draft(select_t(s0, id), drafts);
}

/// Deleting removes the id from the stored entries — every other entry is
/// untouched — and returns the machine to browsing, whatever drafts the slot
/// held in between.
pub proof fn lemma_remove_deletes_the_entry(
    s0: TodoState,
    id: u32,
    drafts: Seq<TodoItem>,
    last: TodoItem,
)
    requires
        s0.items.contains_key(id),
    ensures
        ({
            let removed = edit_step_t(
                keep_steps_t(select_t(s0, id), drafts),
                last,
                EditAction::Remove,
            );
            &&& removed.items == s0.items.remove(id)
            &&& !removed.items.contains_key(id)
            &&& removed.edited is None
        }),
{
    lemma_keep_steps_only_rework_the_draft(select_t(s0, id), drafts);
}

/// The set of ids checked out for editing.
pub open spec fn edited_ids(s: TodoState) -> Set<u32> {
    match s.edited {
        Some((id, _draft)) => Set::empty().insert(id),
        None => Set::empty(),
    }
}

/// At most one id is ever checked out: any two ids found in the edit slot at
/// one observation point are the same id.
pub proof fn lemma_at_most_one_checked_out(s: TodoState)
    ensures
        forall|a: u32, b: u32|
            edited_ids(s).contains(a) && edited_ids(s).contains(b) ==> a == b,
        s.edited is None ==> edited_ids(s) == Set::<u32>::empty(),
{
}

} // verus!
