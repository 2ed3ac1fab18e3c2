//! The hooks the interrupt dispatcher calls: the keyboard and timer handlers,
//! which only post to the mailbox, and one pass of the main loop, which
//! drains it into the editor.
use vstd::prelude::*;
use crate::editor::{EditorState, KeyEvent, SwimInterface};
use crate::mailbox::{Mailbox, MailboxState};
use crate::render::{cursor_screen_pos, frame, names_of, Plot};

verus! {

/// Keyboard handler: posts `event`, replacing a key not yet taken.
pub fn key(mailbox: &mut Mailbox, event: KeyEvent)
    ensures
        final(mailbox)@ == old(mailbox)@.key_posted(event),
{
    mailbox.post_key(event);
}

/// Timer handler: marks a tick as pending.
pub fn tick(mailbox: &mut Mailbox)
    ensures
        final(mailbox)@ == (MailboxState { tick: true, ..old(mailbox)@ }),
{
    mailbox.post_tick();
}

/// The editor state after the pending key `k`, if any, with `n` directory
/// entries.
pub open spec fn after_key(st: EditorState, k: Option<KeyEvent>, n: int) -> EditorState {
    match k {
        Some(e) => st.on_key(e, n),
        None => st,
    }
}

/// One pass of the main loop: applies the pending key, if any, then, if a
/// tick is pending, renders a frame, so that a key shows in the frame of its
/// own pass. `entries` holds the names in the directory listing. Returns the
/// glyphs to plot, or `None` when no tick was pending.
pub fn cpu_loop(mailbox: &mut Mailbox, kernel: &mut SwimInterface, entries: &Vec<Vec<char>>) -> (plots: Option<Vec<Plot>>)
    requires
        old(kernel).wf(),
    ensures
        final(mailbox)@ == (MailboxState { key: None, tick: false }),
        final(kernel).wf(),
        old(mailbox)@.tick ==> {
            let st = after_key(old(kernel)@, old(mailbox)@.key, entries@.len() as int);
            &&& plots matches Some(p) && p@ == frame(st, names_of(entries@))
            &&& final(kernel)@ == (EditorState { prev_cursor: cursor_screen_pos(st), ..st })
        },
        !old(mailbox)@.tick ==> {
            &&& plots is None
            &&& final(kernel)@ == after_key(old(kernel)@, old(mailbox)@.key, entries@.len() as int)
        },
{
    if let Some(k) = mailbox.take_key() {
        kernel.key(k, entries.len());
    }
    if mailbox.take_tick() {
        Some(kernel.tick(entries))
    } else {
        None
    }
}

} // verus!
