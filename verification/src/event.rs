use vstd::prelude::*;

use crate::token::Token;
use crate::token::TokenKind;

verus! {

/// A clipboard change observed by the shell listener.
#[derive(Clone, PartialEq, Eq, Debug)]
pub enum ClipboardEvent {
    /// The clipboard now holds text.
    Text(String),
    /// The clipboard now holds some other payload, carried as raw bytes.
    Data(Vec<u8>),
}

/// A high-level event produced by the pump and consumed through
/// [`crate::bridge::Bridge::tick`].
#[derive(Clone, PartialEq, Eq, Debug)]
pub enum Event {
    /// A menu entry was clicked.
    MenuItemClicked(Token),
    /// The shell reported a notification as clicked; terminal for its token.
    NotificationClicked(Token),
    /// The shell reported a notification as dismissed; terminal for its
    /// token.
    NotificationDismissed(Token),
    /// The clipboard changed.
    Clipboard(ClipboardEvent),
    /// A payload delivered over the private cross-process channel.
    CopyData(Vec<u8>),
    /// The bridge has shut down; the channel closes once the buffer drains.
    Shutdown,
    /// Forward-compatible catch-all for shell callback classes this model
    /// does not enumerate.
    NonStandard,
}

/// Whether `e` is a terminal disposition event (clicked or dismissed) for
/// the notification token with index `i`.
pub open spec fn is_terminal_for(e: Event, i: u32) -> bool {
    match e {
        Event::NotificationClicked(t) => t.kind == TokenKind::Notification && t.index == i,
        Event::NotificationDismissed(t) => t.kind == TokenKind::Notification && t.index == i,
        _ => false,
    }
}

/// How many terminal disposition events for notification index `i` the
/// sequence holds.
pub open spec fn count_terminal_for(s: Seq<Event>, i: u32) -> nat
    decreases s.len(),
{
    if s.len() == 0 {
        0
    } else {
        count_terminal_for(s.drop_last(), i) + if is_terminal_for(s.last(), i) {
            1nat
        } else {
            0nat
        }
    }
}

/// How many [`Event::Shutdown`] events the sequence holds.
pub open spec fn count_shutdown(s: Seq<Event>) -> nat
    decreases s.len(),
{
    if s.len() == 0 {
        0
    } else {
        count_shutdown(s.drop_last()) + if s.last() is Shutdown {
            1nat
        } else {
            0nat
        }
    }
}

/// Appending one event raises `count_terminal_for` by one exactly when the
/// event is terminal for that index.
pub proof fn lemma_count_terminal_push(s: Seq<Event>, e: Event, i: u32)
    ensures
        count_terminal_for(s.push(e), i) == count_terminal_for(s, i) + if is_terminal_for(e, i) {
            1nat
        } else {
            0nat
        },
{
    assert(s.push(e).drop_last() =~= s);
    assert(s.push(e).last() == e);
}

/// Appending one event raises `count_shutdown` by one exactly when the
/// event is a shutdown event.
pub proof fn lemma_count_shutdown_push(s: Seq<Event>, e: Event)
    ensures
        count_shutdown(s.push(e)) == count_shutdown(s) + if e is Shutdown {
            1nat
        } else {
            0nat
        },
{
    assert(s.push(e).drop_last() =~= s);
    assert(s.push(e).last() == e);
}

} // verus!
