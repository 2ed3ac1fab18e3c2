//! The handoff from interrupt handlers to the main loop: one slot for the
//! latest key event and one flag for a pending timer tick. Posting overwrites
//! what was not yet taken; taking reads and clears.
use vstd::prelude::*;
use crossbeam::atomic::AtomicCell;
use crate::editor::KeyEvent;

verus! {

#[verifier::external_type_specification]
#[verifier::external_body]
#[verifier::reject_recursive_types(T)]
pub struct ExAtomicCell<T>(AtomicCell<T>);

/// The key event held by a key slot.
pub uninterp spec fn slot_key(cell: AtomicCell<Option<KeyEvent>>) -> Option<KeyEvent>;

/// The flag held by a tick cell.
pub uninterp spec fn cell_flag(cell: AtomicCell<bool>) -> bool;

/// Relies on `AtomicCell::new`: the new cell holds `v`.
#[verifier::external_body]
fn new_key_cell(v: Option<KeyEvent>) -> (cell: AtomicCell<Option<KeyEvent>>)
    ensures
        slot_key(cell) == v,
{
    AtomicCell::new(v)
}

/// Relies on `AtomicCell`'s `Default`: a new cell holding `bool::default()`,
/// which is false.
#[verifier::external_body]
fn new_tick_cell() -> (cell: AtomicCell<bool>)
    ensures
        cell_flag(cell) == false,
{
    AtomicCell::default()
}

/// Relies on `AtomicCell::store`: the cell then holds `v`.
#[verifier::external_body]
fn store_key(cell: &mut AtomicCell<Option<KeyEvent>>, v: Option<KeyEvent>)
    ensures
        slot_key(*final(cell)) == v,
{
    cell.store(v)
}

/// Relies on `AtomicCell::take`: it returns the value held and leaves
/// `Option::default()`, which is `None`.
#[verifier::external_body]
fn take_key_cell(cell: &mut AtomicCell<Option<KeyEvent>>) -> (r: Option<KeyEvent>)
    ensures
        r == slot_key(*old(cell)),
        slot_key(*final(cell)) == None::<KeyEvent>,
{
    cell.take()
}

/// Relies on `AtomicCell::swap`: it stores `v` and returns the value held
/// before.
#[verifier::external_body]
fn swap_flag(cell: &mut AtomicCell<bool>, v: bool) -> (r: bool)
    ensures
        r == cell_flag(*old(cell)),
        cell_flag(*final(cell)) == v,
{
    cell.swap(v)
}

/// Relies on `AtomicCell::compare_exchange`: when the cell holds `current` it
/// stores `new` and returns `Ok(current)`; otherwise it changes nothing and
/// returns `Err` of the value held.
#[verifier::external_body]
fn exchange_flag(cell: &mut AtomicCell<bool>, current: bool, new: bool) -> (r: Result<bool, bool>)
    ensures
        r == (if cell_flag(*old(cell)) == current {
            Ok(current)
        } else {
            Err(cell_flag(*old(cell)))
        }),
        cell_flag(*final(cell)) == (if cell_flag(*old(cell)) == current {
            new
        } else {
            cell_flag(*old(cell))
        }),
{
    cell.compare_exchange(current, new)
}

/// Abstract state of a mailbox.
pub struct MailboxState {
    /// The key event posted and not yet taken, if any.
    pub key: Option<KeyEvent>,
    /// Whether a tick was posted and not yet taken.
    pub tick: bool,
}

impl MailboxState {
    /// The state after posting key event `e`.
    pub open spec fn key_posted(self, e: KeyEvent) -> MailboxState {
        MailboxState { key: Some(e), ..self }
    }

    /// The state after taking the pending key event.
    pub open spec fn key_taken(self) -> MailboxState {
        MailboxState { key: None, ..self }
    }
}

/// Of two key events posted before a take, the take returns the second, and
/// a further take returns nothing.
pub proof fn lemma_latest_key_wins(m: MailboxState, a: KeyEvent, b: KeyEvent)
    ensures
        m.key_posted(a).key_posted(b).key == Some(b),
        m.key_posted(a).key_posted(b).key_taken().key == None::<KeyEvent>,
{
}

/// The mailbox between the interrupt handlers and the main loop.
pub struct Mailbox {
    key: AtomicCell<Option<KeyEvent>>,
    ticked: AtomicCell<bool>,
}

impl View for Mailbox {
    type V = MailboxState;

    closed spec fn view(&self) -> MailboxState {
        MailboxState { key: slot_key(self.key), tick: cell_flag(self.ticked) }
    }
}

impl Mailbox {
    /// An empty mailbox.
    pub fn new() -> (m: Mailbox)
        ensures
            m@ == (MailboxState { key: None, tick: false }),
    {
        Mailbox { key: new_key_cell(None), ticked: new_tick_cell() }
    }

    /// Posts a key event, replacing one that was not yet taken.
    pub fn post_key(&mut self, event: KeyEvent)
        ensures
            final(self)@ == old(self)@.key_posted(event),
    {
        store_key(&mut self.key, Some(event));
    }

    /// Takes the pending key event, if any, and leaves the slot empty.
    pub fn take_key(&mut self) -> (r: Option<KeyEvent>)
        ensures
            r == old(self)@.key,
            final(self)@ == old(self)@.key_taken(),
    {
        take_key_cell(&mut self.key)
    }

    /// Marks a tick as pending.
    pub fn post_tick(&mut self)
        ensures
            final(self)@ == (MailboxState { tick: true, ..old(self)@ }),
    {
        swap_flag(&mut self.ticked, true);
    }

    /// Whether a tick was pending; clears it.
    pub fn take_tick(&mut self) -> (r: bool)
        ensures
            r == old(self)@.tick,
            final(self)@ == (MailboxState { tick: false, ..old(self)@ }),
    {
        match exchange_flag(&mut self.ticked, true, false) {
            Ok(_) => true,
            Err(_) => false,
        }
    }
}

} // verus!
