use vstd::prelude::*;

use crate::bridge::spec_apply_command;
use crate::bridge::spec_pump_message;
use crate::bridge::spec_terminate;
use crate::bridge::BridgeView;
use crate::bridge::Command;
use crate::bridge::NativeMessage;
use crate::bridge::NotificationEntry;
use crate::bridge::NotificationState;
use crate::event::count_shutdown;
use crate::event::count_terminal_for;
use crate::event::lemma_count_shutdown_push;
use crate::event::lemma_count_terminal_push;
use crate::event::Event;

verus! {

/// A prefix of an event history holds at most as many terminal events for
/// a token as the whole history.
pub proof fn lemma_count_terminal_prefix(s: Seq<Event>, t: Seq<Event>, i: u32)
    requires
        s.is_prefix_of(t),
    ensures
        count_terminal_for(s, i) <= count_terminal_for(t, i),
    decreases t.len(),
{
    if s.len() == t.len() {
        assert(s =~= t);
    } else {
        assert(s.is_prefix_of(t.drop_last()));
        lemma_count_terminal_prefix(s, t.drop_last(), i);
    }
}

/// A transition of the pump or the inbox only appends to the emission
/// history: no event is ever reordered or retracted.
pub proof fn lemma_pump_appends(s: BridgeView, m: NativeMessage)
    ensures
        s.emitted.is_prefix_of(spec_pump_message(s, m).emitted),
{
    assert(s.emitted =~= s.emitted.take(s.emitted.len() as int));
    let t = spec_pump_message(s, m).emitted;
    if t.len() > s.emitted.len() {
        assert(s.emitted =~= t.take(s.emitted.len() as int));
    }
}

/// Applying an inbox command only appends to the emission history.
pub proof fn lemma_apply_appends(s: BridgeView, c: Command)
    ensures
        s.emitted.is_prefix_of(spec_apply_command(s, c).emitted),
{
    assert(s.emitted =~= s.emitted.take(s.emitted.len() as int));
    let t = spec_apply_command(s, c).emitted;
    if t.len() > s.emitted.len() {
        assert(s.emitted =~= t.take(s.emitted.len() as int));
    }
}

/// Once a notification token has received its terminal disposition, its
/// queue entry is gone: the token is not live, and the index can never be
/// filled again, because every insertion uses an index at or past the
/// queue's length while a disposed index lies strictly inside it.
pub proof fn lemma_disposed_token_not_live(s: BridgeView, i: u32)
    requires
        s.wf(),
        count_terminal_for(s.emitted, i) > 0,
    ensures
        !s.live(i as int),
{
}

/// A disposed token stays disposed and dead across any further native
/// message.
pub proof fn lemma_disposed_stays_dead(s: BridgeView, m: NativeMessage, i: u32)
    requires
        s.wf(),
        count_terminal_for(s.emitted, i) > 0,
    ensures
        count_terminal_for(spec_pump_message(s, m).emitted, i) > 0,
        !spec_pump_message(s, m).live(i as int),
{
    crate::bridge::lemma_pump_message_wf(s, m);
    lemma_pump_appends(s, m);
    lemma_count_terminal_prefix(s.emitted, spec_pump_message(s, m).emitted, i);
    lemma_disposed_token_not_live(spec_pump_message(s, m), i);
}

/// At-most-once delivery: in every reachable state, each notification
/// token has received at most one terminal event, ever.
pub proof fn lemma_terminal_at_most_once(s: BridgeView)
    requires
        s.wf(),
    ensures
        forall|i: u32| count_terminal_for(s.emitted, i) <= 1,
{
}

/// A duplicate notification result from the shell emits nothing: after the
/// first result for a token is processed, a second result for the same
/// token leaves the emission history unchanged.
pub proof fn lemma_duplicate_result_dropped(s: BridgeView, id: u32, first: bool, second: bool)
    requires
        s.wf(),
    ensures
        ({
            let s1 = spec_pump_message(s, NativeMessage::NotificationResult { id, clicked: first });
            let s2 = spec_pump_message(
                s1,
                NativeMessage::NotificationResult { id, clicked: second },
            );
            s2.emitted == s1.emitted
        }),
{
    let s1 = spec_pump_message(s, NativeMessage::NotificationResult { id, clicked: first });
    if !s.shutdown && s.live(id as int) {
        assert(!s1.live(id as int));
    }
}

/// Exactly one shutdown: in every reachable state the emission history
/// holds one `Shutdown` event if the bridge has shut down and none
/// otherwise, and the resource release sequence has run exactly that many
/// times — however many shutdown commands, destroy messages or repeated
/// calls arrived.
pub proof fn lemma_shutdown_exactly_once(s: BridgeView)
    requires
        s.wf(),
    ensures
        count_shutdown(s.emitted) == (if s.shutdown {
            1nat
        } else {
            0nat
        }),
        s.release_runs == (if s.shutdown {
            1nat
        } else {
            0nat
        }),
{
}

/// The termination sequence is idempotent: running it on a state that has
/// already shut down changes nothing.
pub proof fn lemma_terminate_idempotent(s: BridgeView)
    ensures
        spec_terminate(spec_terminate(s)) == spec_terminate(s),
{
}

/// A second shutdown command is a no-op: applying `Shutdown` twice equals
/// applying it once.
pub proof fn lemma_shutdown_command_idempotent(s: BridgeView)
    ensures
        spec_apply_command(spec_apply_command(s, Command::Shutdown), Command::Shutdown)
            == spec_apply_command(s, Command::Shutdown),
{
}

/// An accepted submission is never dropped: while the bridge has not shut
/// down, applying a pending notification command from the front of the
/// inbox makes its reserved token live, with the submitted notification
/// stored in pending state.
pub proof fn lemma_pending_notification_applies(s: BridgeView, c: Command)
    requires
        s.wf(),
        s.applies_next(c),
        !s.shutdown,
    ensures
        c matches Command::PostNotification { token, notification } ==> {
            let applied = spec_apply_command(s, c);
            &&& applied.live(token.index as int)
            &&& applied.slots[token.index as int] == Some(
                NotificationEntry { state: NotificationState::Pending, notification },
            )
        },
{
}

/// Delivery preserves emission order: what `tick` has handed out is a
/// prefix of the emission history, and what is still buffered is exactly
/// the rest, in order.
pub proof fn lemma_delivery_in_emission_order(s: BridgeView)
    requires
        s.wf(),
    ensures
        s.delivered.is_prefix_of(s.emitted),
        s.outbox =~= s.emitted.skip(s.delivered.len() as int),
{
    assert(s.delivered =~= s.emitted.take(s.delivered.len() as int));
}

/// Events of an earlier message precede events of a later one: pumping
/// `m1` then `m2` extends the history first by `m1`'s events, then by
/// `m2`'s.
pub proof fn lemma_fifo_across_messages(s: BridgeView, m1: NativeMessage, m2: NativeMessage)
    ensures
        s.emitted.is_prefix_of(spec_pump_message(s, m1).emitted),
        spec_pump_message(s, m1).emitted.is_prefix_of(
            spec_pump_message(spec_pump_message(s, m1), m2).emitted,
        ),
{
    lemma_pump_appends(s, m1);
    lemma_pump_appends(spec_pump_message(s, m1), m2);
}

} // verus!
