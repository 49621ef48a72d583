use vstd::prelude::*;

use crate::error::Error;
use crate::event::count_shutdown;
use crate::event::count_terminal_for;
use crate::event::is_terminal_for;
use crate::event::lemma_count_shutdown_push;
use crate::event::lemma_count_terminal_push;
use crate::event::ClipboardEvent;
use crate::event::Event;
use crate::icons::IconBuffer;
use crate::icons::Icons;
use crate::menu::set_entry_checked;
use crate::menu::set_entry_enabled;
use crate::menu::MenuItem;
use crate::menu::MenuModel;
use crate::notification::Notification;
use crate::token::Token;
use crate::token::TokenKind;

verus! {

/// The display state of an outstanding notification.
///
/// The queue only ever stores the two non-terminal states: a terminal
/// disposition is reported once through an [`Event`] and the entry is purged
/// in the same step.
#[derive(Clone, Copy, PartialEq, Eq, Structural, Debug)]
pub enum NotificationState {
    /// Submitted; the native call was issued, display not yet confirmed.
    Pending,
    /// The shell confirmed the notification is on screen.
    Shown,
    /// The shell reported the notification dismissed (terminal).
    Dismissed,
    /// The shell reported the notification clicked (terminal).
    Clicked,
}

/// One entry of the notification queue: the submitted notification and its
/// display state.  The entry for token index `i` sits in slot `i`.
#[derive(Clone, PartialEq, Eq, Debug)]
pub struct NotificationEntry {
    /// Current display state; never terminal while stored.
    pub state: NotificationState,
    /// The notification as submitted.
    pub notification: Notification,
}

/// A command flowing from the application to the pump through the inbox.
#[derive(Clone, PartialEq, Eq, Debug)]
pub enum Command {
    /// Show a notification; the token was reserved at submission time.
    PostNotification {
        /// The token reserved for this notification.
        token: Token,
        /// What to show.
        notification: Notification,
    },
    /// Set the enabled flag of a menu entry.
    SetMenuItemEnabled {
        /// The menu token to mutate.
        token: Token,
        /// The new enabled flag.
        enabled: bool,
    },
    /// Set the checked flag of a menu entry.
    SetMenuItemChecked {
        /// The menu token to mutate.
        token: Token,
        /// The new checked flag.
        checked: bool,
    },
    /// Swap the active tray icon.
    SetActiveIcon {
        /// The icon token to activate.
        token: Token,
    },
    /// Begin the termination sequence.
    Shutdown,
}

/// A raw shell callback, as the platform layer hands it to the pump.
#[derive(Clone, PartialEq, Eq, Debug)]
pub enum NativeMessage {
    /// A menu command callback carrying the native menu identifier.
    MenuCommand {
        /// The native identifier; equals the menu token index.
        id: u32,
    },
    /// The single-shot clipboard listener fired.
    ClipboardUpdate {
        /// What the listener observed.
        event: ClipboardEvent,
    },
    /// The shell confirmed a notification is on screen.
    NotificationShown {
        /// The notification token index the shell reported.
        id: u32,
    },
    /// The shell reported a notification's final disposition.
    NotificationResult {
        /// The notification token index the shell reported.
        id: u32,
        /// True for a click, false for a dismissal.
        clicked: bool,
    },
    /// A payload arrived on a private cross-process message number.
    CopyData {
        /// The message number it arrived on.
        channel: u32,
        /// The raw payload.
        data: Vec<u8>,
    },
    /// The native window is being destroyed.
    Destroy,
    /// A message class the pump does not handle; dropped.
    Unknown,
}

/// The mathematical state of the bridge: what every contract of
/// [`Bridge`] speaks about.
///
/// `emitted` is the full history of events the pump ever produced, in
/// order; `delivered` is the prefix of it already handed out by
/// [`Bridge::tick`]; `outbox` is the remainder still buffered.
pub ghost struct BridgeView {
    /// The menu entries, by menu token index.
    pub menu: Seq<MenuItem>,
    /// The registered icon buffers, by icon token index.
    pub icons: Seq<IconBuffer>,
    /// The icon currently shown in the tray, if any.
    pub active_icon: Option<Token>,
    /// Notification queue slots; slot `i` belongs to token index `i`.
    pub slots: Seq<Option<NotificationEntry>>,
    /// Commands enqueued by the application, oldest first.
    pub inbox: Seq<Command>,
    /// Events produced but not yet delivered, oldest first.
    pub outbox: Seq<Event>,
    /// The next notification token index to issue.
    pub next_notification: u32,
    /// The terminal state flag: set exactly once, never cleared.
    pub shutdown: bool,
    /// How many times the native resource release sequence has run.
    pub release_runs: u32,
    /// Whether the event channel is closed to new work.
    pub closed: bool,
    /// Whether the single-shot clipboard listener is armed.
    pub clipboard_armed: bool,
    /// The private message number accepted for cross-process payloads.
    pub copy_data_channel: Option<u32>,
    /// Every event ever emitted by the pump, in emission order.
    pub emitted: Seq<Event>,
    /// Every event already returned by `tick`, in delivery order.
    pub delivered: Seq<Event>,
}

impl BridgeView {
    /// Whether the notification token with index `i` is live: submitted and
    /// not yet finally disposed.
    pub open spec fn live(self, i: int) -> bool {
        0 <= i < self.slots.len() && self.slots[i] is Some
    }

    /// The invariant of the bridge.
    ///
    /// - slots exist only for issued token indices;
    /// - a live entry is in a non-terminal state and has no terminal event
    ///   in the history;
    /// - each notification token receives at most one terminal event, and
    ///   only after its entry existed;
    /// - exactly one `Shutdown` event and one resource release accompany the
    ///   terminal state flag;
    /// - the channel is closed exactly when the bridge has shut down;
    /// - the emission history is the delivered prefix plus the buffer.
    pub open spec fn wf(self) -> bool {
        &&& self.slots.len() <= self.next_notification as int
        &&& forall|i: int|
            #![trigger self.slots[i]]
            0 <= i < self.slots.len() ==> (self.slots[i] matches Some(entry) ==> {
                &&& (entry.state is Pending || entry.state is Shown)
                &&& count_terminal_for(self.emitted, i as u32) == 0
            })
        &&& forall|i: u32| count_terminal_for(self.emitted, i) <= 1
        &&& forall|i: u32|
            count_terminal_for(self.emitted, i) > 0 ==> (i as int) < self.slots.len()
        &&& count_shutdown(self.emitted) == (if self.shutdown {
            1nat
        } else {
            0nat
        })
        &&& self.release_runs == (if self.shutdown {
            1nat
        } else {
            0nat
        })
        &&& self.closed == self.shutdown
        &&& self.emitted == self.delivered + self.outbox
        &&& forall|k: int|
            0 <= k < self.inbox.len() ==> self.pending_ok(#[trigger] self.inbox[k])
        &&& forall|k1: int, k2: int|
            0 <= k1 < k2 < self.inbox.len() ==> pending_index_increases(
                #[trigger] self.inbox[k1],
                #[trigger] self.inbox[k2],
            )
    }

    /// A pending `PostNotification` command carries a reserved token: a
    /// notification token, issued (below the allocation counter) and fresh
    /// (at or past every queue slot, so its index was never occupied).
    pub open spec fn pending_ok(self, c: Command) -> bool {
        c matches Command::PostNotification { token, notification } ==> {
            &&& token.kind == TokenKind::Notification
            &&& token.index < self.next_notification
            &&& self.slots.len() <= token.index as int
        }
    }

    /// `c` is the command the pump is about to apply, popped from the front
    /// of this state's inbox: it is a valid pending command, older than
    /// everything still enqueued.
    pub open spec fn applies_next(self, c: Command) -> bool {
        &&& self.pending_ok(c)
        &&& forall|k: int|
            0 <= k < self.inbox.len() ==> pending_index_increases(c, #[trigger] self.inbox[k])
    }
}

/// Reserved tokens sit in the inbox in allocation order: of two pending
/// `PostNotification` commands, the older one carries the smaller index.
pub open spec fn pending_index_increases(c1: Command, c2: Command) -> bool {
    c1 matches Command::PostNotification { token: t1, notification: n1 } ==> (c2 matches
        Command::PostNotification { token: t2, notification: n2 } ==> t1.index < t2.index)
}

/// Whether `items` resolves token `t` to a clickable entry.
pub open spec fn seq_resolves(items: Seq<MenuItem>, t: Token) -> bool {
    &&& t.kind == TokenKind::MenuItem
    &&& t.index < items.len()
    &&& items[t.index as int] is Entry
}

/// `s` with event `e` appended to the buffer and to the emission history.
pub open spec fn spec_emit(s: BridgeView, e: Event) -> BridgeView {
    BridgeView { outbox: s.outbox.push(e), emitted: s.emitted.push(e), ..s }
}

/// The termination sequence: a no-op if the terminal state flag is already
/// set; otherwise it sets the flag, runs the resource release once, closes
/// the channel and emits the single `Shutdown` event.
pub open spec fn spec_terminate(s: BridgeView) -> BridgeView {
    if s.shutdown {
        s
    } else {
        spec_emit(
            BridgeView {
                shutdown: true,
                closed: true,
                release_runs: (s.release_runs + 1) as u32,
                ..s
            },
            Event::Shutdown,
        )
    }
}

/// `slots` grown with empty slots up to position `idx`, then the new entry
/// appended there, so the result has length `idx + 1`.
pub open spec fn spec_insert_slot(
    slots: Seq<Option<NotificationEntry>>,
    idx: int,
    entry: NotificationEntry,
) -> Seq<Option<NotificationEntry>>
    recommends
        slots.len() <= idx,
{
    slots + Seq::new((idx - slots.len()) as nat, |j: int| None) + seq![Some(entry)]
}

/// The effect of one inbox command on the bridge state.
///
/// After termination every command is dropped.  A `PostNotification` whose
/// token is not a fresh notification token is dropped; a menu or icon
/// mutation whose token does not resolve is dropped (stale tokens are a
/// benign race, never an error).
pub open spec fn spec_apply_command(s: BridgeView, c: Command) -> BridgeView {
    if s.shutdown {
        s
    } else {
        match c {
            Command::PostNotification { token, notification } => {
                if token.kind == TokenKind::Notification && s.slots.len() <= token.index as int
                    && token.index < s.next_notification {
                    BridgeView {
                        slots: spec_insert_slot(
                            s.slots,
                            token.index as int,
                            NotificationEntry { state: NotificationState::Pending, notification },
                        ),
                        ..s
                    }
                } else {
                    s
                }
            },
            Command::SetMenuItemEnabled { token, enabled } => {
                if seq_resolves(s.menu, token) {
                    BridgeView {
                        menu: s.menu.update(
                            token.index as int,
                            set_entry_enabled(s.menu[token.index as int], enabled),
                        ),
                        ..s
                    }
                } else {
                    s
                }
            },
            Command::SetMenuItemChecked { token, checked } => {
                if seq_resolves(s.menu, token) {
                    BridgeView {
                        menu: s.menu.update(
                            token.index as int,
                            set_entry_checked(s.menu[token.index as int], checked),
                        ),
                        ..s
                    }
                } else {
                    s
                }
            },
            Command::SetActiveIcon { token } => {
                if token.kind == TokenKind::Icon && (token.index as int) < s.icons.len() {
                    BridgeView { active_icon: Some(token), ..s }
                } else {
                    s
                }
            },
            Command::Shutdown => spec_terminate(s),
        }
    }
}

/// The effect of one native message on the bridge state.
///
/// Once the bridge has shut down the pump has exited and nothing changes.
/// Otherwise: a menu command that resolves emits a click event; a stale or
/// separator identifier is dropped.  A clipboard update re-arms the
/// single-shot listener and emits the observation.  A notification result
/// for a live token purges the entry and emits exactly one terminal event;
/// for an unknown or already purged token it is dropped.  A copy-data
/// payload is emitted only when it arrived on the configured channel.  A
/// destroy message runs the termination sequence.
pub open spec fn spec_pump_message(s: BridgeView, m: NativeMessage) -> BridgeView {
    if s.shutdown {
        s
    } else {
        match m {
            NativeMessage::MenuCommand { id } => {
                let tok = Token { kind: TokenKind::MenuItem, index: id };
                if seq_resolves(s.menu, tok) {
                    spec_emit(s, Event::MenuItemClicked(tok))
                } else {
                    s
                }
            },
            NativeMessage::ClipboardUpdate { event } => spec_emit(
                BridgeView { clipboard_armed: true, ..s },
                Event::Clipboard(event),
            ),
            NativeMessage::NotificationShown { id } => {
                if s.live(id as int) {
                    match s.slots[id as int] {
                        Some(entry) => {
                            if entry.state is Pending {
                                BridgeView {
                                    slots: s.slots.update(
                                        id as int,
                                        Some(
                                            NotificationEntry {
                                                state: NotificationState::Shown,
                                                notification: entry.notification,
                                            },
                                        ),
                                    ),
                                    ..s
                                }
                            } else {
                                s
                            }
                        },
                        None => s,
                    }
                } else {
                    s
                }
            },
            NativeMessage::NotificationResult { id, clicked } => {
                if s.live(id as int) {
                    let tok = Token { kind: TokenKind::Notification, index: id };
                    let ev = if clicked {
                        Event::NotificationClicked(tok)
                    } else {
                        Event::NotificationDismissed(tok)
                    };
                    spec_emit(BridgeView { slots: s.slots.update(id as int, None), ..s }, ev)
                } else {
                    s
                }
            },
            NativeMessage::CopyData { channel, data } => {
                if s.copy_data_channel == Some(channel) {
                    spec_emit(s, Event::CopyData(data))
                } else {
                    s
                }
            },
            NativeMessage::Destroy => spec_terminate(s),
            NativeMessage::Unknown => s,
        }
    }
}

/// The effect of draining up to `k` commands from the front of the inbox,
/// oldest first.
pub open spec fn spec_drain(s: BridgeView, k: nat) -> BridgeView
    decreases k,
{
    if k == 0 || s.inbox.len() == 0 {
        s
    } else {
        spec_drain(
            spec_apply_command(BridgeView { inbox: s.inbox.drop_first(), ..s }, s.inbox[0]),
            (k - 1) as nat,
        )
    }
}

/// Emitting an event that is neither a shutdown nor a terminal disposition
/// preserves the invariant.
proof fn lemma_emit_plain_wf(s: BridgeView, e: Event)
    requires
        s.wf(),
        forall|i: u32| !is_terminal_for(e, i),
        !(e is Shutdown),
    ensures
        spec_emit(s, e).wf(),
{
    let s2 = spec_emit(s, e);
    assert forall|i: u32| count_terminal_for(s2.emitted, i) == count_terminal_for(
        s.emitted,
        i,
    ) by {
        lemma_count_terminal_push(s.emitted, e, i);
    }
    lemma_count_shutdown_push(s.emitted, e);
    assert(s2.emitted =~= s2.delivered + s2.outbox);
}

/// The termination sequence preserves the invariant.
pub proof fn lemma_terminate_wf(s: BridgeView)
    requires
        s.wf(),
    ensures
        spec_terminate(s).wf(),
{
    if !s.shutdown {
        let s1 = BridgeView {
            shutdown: true,
            closed: true,
            release_runs: (s.release_runs + 1) as u32,
            ..s
        };
        let s2 = spec_emit(s1, Event::Shutdown);
        assert forall|i: u32| count_terminal_for(s2.emitted, i) == count_terminal_for(
            s.emitted,
            i,
        ) by {
            lemma_count_terminal_push(s.emitted, Event::Shutdown, i);
        }
        lemma_count_shutdown_push(s.emitted, Event::Shutdown);
        assert(s2.emitted =~= s2.delivered + s2.outbox);
    }
}

/// Purging a live entry and emitting its one terminal event preserves the
/// invariant.
proof fn lemma_emit_terminal_wf(s: BridgeView, id: u32, clicked: bool)
    requires
        s.wf(),
        s.live(id as int),
    ensures
        ({
            let tok = Token { kind: TokenKind::Notification, index: id };
            let ev = if clicked {
                Event::NotificationClicked(tok)
            } else {
                Event::NotificationDismissed(tok)
            };
            spec_emit(BridgeView { slots: s.slots.update(id as int, None), ..s }, ev).wf()
        }),
{
    let tok = Token { kind: TokenKind::Notification, index: id };
    let ev = if clicked {
        Event::NotificationClicked(tok)
    } else {
        Event::NotificationDismissed(tok)
    };
    let s1 = BridgeView { slots: s.slots.update(id as int, None), ..s };
    let s2 = spec_emit(s1, ev);
    assert(count_terminal_for(s.emitted, id) == 0);
    assert forall|i: u32| count_terminal_for(s2.emitted, i) == count_terminal_for(s.emitted, i)
        + (if i == id {
        1nat
    } else {
        0nat
    }) by {
        lemma_count_terminal_push(s.emitted, ev, i);
    }
    lemma_count_shutdown_push(s.emitted, ev);
    assert(s2.emitted =~= s2.delivered + s2.outbox);
}

/// Applying the command at the front of the inbox preserves the
/// invariant.
pub proof fn lemma_apply_command_wf(s: BridgeView, c: Command)
    requires
        s.wf(),
        s.applies_next(c),
    ensures
        spec_apply_command(s, c).wf(),
{
    if !s.shutdown {
        match c {
            Command::PostNotification { token, notification } => {
                if token.kind == TokenKind::Notification && s.slots.len() <= token.index as int
                    && token.index < s.next_notification {
                    let idx = token.index as int;
                    let entry = NotificationEntry {
                        state: NotificationState::Pending,
                        notification,
                    };
                    let s2 = spec_apply_command(s, c);
                    assert(s2.slots =~= spec_insert_slot(s.slots, idx, entry));
                    assert(count_terminal_for(s.emitted, token.index) == 0);
                    assert forall|i: int|
                        #![trigger s2.slots[i]]
                        0 <= i < s2.slots.len() implies (s2.slots[i] matches Some(entry2) ==> {
                        &&& (entry2.state is Pending || entry2.state is Shown)
                        &&& count_terminal_for(s2.emitted, i as u32) == 0
                    }) by {
                        if i < s.slots.len() {
                            assert(s2.slots[i] == s.slots[i]);
                        } else if i < idx {
                            assert(s2.slots[i] is None);
                        } else {
                            assert(s2.slots[i] == Some(entry));
                        }
                    }
                }
            },
            Command::Shutdown => {
                lemma_terminate_wf(s);
            },
            _ => {},
        }
    }
}

/// Every native message preserves the invariant.
pub proof fn lemma_pump_message_wf(s: BridgeView, m: NativeMessage)
    requires
        s.wf(),
    ensures
        spec_pump_message(s, m).wf(),
{
    if !s.shutdown {
        match m {
            NativeMessage::MenuCommand { id } => {
                let tok = Token { kind: TokenKind::MenuItem, index: id };
                if seq_resolves(s.menu, tok) {
                    lemma_emit_plain_wf(s, Event::MenuItemClicked(tok));
                }
            },
            NativeMessage::ClipboardUpdate { event } => {
                let s1 = BridgeView { clipboard_armed: true, ..s };
                lemma_emit_plain_wf(s1, Event::Clipboard(event));
            },
            NativeMessage::NotificationShown { id } => {
                let s2 = spec_pump_message(s, m);
                assert forall|i: int|
                    #![trigger s2.slots[i]]
                    0 <= i < s2.slots.len() implies (s2.slots[i] matches Some(entry2) ==> {
                    &&& (entry2.state is Pending || entry2.state is Shown)
                    &&& count_terminal_for(s2.emitted, i as u32) == 0
                }) by {
                    if i != id as int {
                        assert(s2.slots[i] == s.slots[i]);
                    }
                }
            },
            NativeMessage::NotificationResult { id, clicked } => {
                if s.live(id as int) {
                    lemma_emit_terminal_wf(s, id, clicked);
                }
            },
            NativeMessage::CopyData { channel, data } => {
                if s.copy_data_channel == Some(channel) {
                    lemma_emit_plain_wf(s, Event::CopyData(data));
                }
            },
            NativeMessage::Destroy => {
                lemma_terminate_wf(s);
            },
            NativeMessage::Unknown => {},
        }
    }
}

/// Draining any number of commands preserves the invariant.
pub proof fn lemma_drain_wf(s: BridgeView, k: nat)
    requires
        s.wf(),
    ensures
        spec_drain(s, k).wf(),
    decreases k,
{
    if k > 0 && s.inbox.len() > 0 {
        let s1 = BridgeView { inbox: s.inbox.drop_first(), ..s };
        assert forall|j: int| 0 <= j < s1.inbox.len() implies pending_index_increases(
            s.inbox[0],
            #[trigger] s1.inbox[j],
        ) by {
            assert(s1.inbox[j] == s.inbox[j + 1]);
        }
        lemma_apply_command_wf(s1, s.inbox[0]);
        lemma_drain_wf(spec_apply_command(s1, s.inbox[0]), (k - 1) as nat);
    }
}

/// The state of a fresh bridge: the configured menu, icons and copy-data
/// channel; no outstanding notification, command or event; the clipboard
/// listener armed; the channel open.
pub open spec fn initial_view(
    menu: Seq<MenuItem>,
    icons: Seq<IconBuffer>,
    active_icon: Option<Token>,
    copy_data_channel: Option<u32>,
) -> BridgeView {
    BridgeView {
        menu,
        icons,
        active_icon,
        slots: Seq::empty(),
        inbox: Seq::empty(),
        outbox: Seq::empty(),
        next_notification: 0,
        shutdown: false,
        release_runs: 0,
        closed: false,
        clipboard_armed: true,
        copy_data_channel,
        emitted: Seq::empty(),
        delivered: Seq::empty(),
    }
}

/// A fresh bridge satisfies the invariant.
pub proof fn lemma_initial_wf(
    menu: Seq<MenuItem>,
    icons: Seq<IconBuffer>,
    active_icon: Option<Token>,
    copy_data_channel: Option<u32>,
)
    ensures
        initial_view(menu, icons, active_icon, copy_data_channel).wf(),
{
    let s = initial_view(menu, icons, active_icon, copy_data_channel);
    assert forall|i: u32| count_terminal_for(s.emitted, i) == 0 by {
        assert(s.emitted.len() == 0);
    }
    assert(s.emitted =~= s.delivered + s.outbox);
}

/// The bridge: the single owner of the menu model, the icon registry, the
/// notification queue and the two channels.
///
/// In a deployed session its faces live on three handles — the pump context
/// drives [`Bridge::pump_message`] and [`Bridge::drain_commands`], any
/// number of application contexts submit through the command methods, and
/// one consumer calls [`Bridge::tick`] — serialized by the channel pair.
/// The state and its transitions are what this type specifies and proves.
pub struct Bridge {
    menu: MenuModel,
    icons: Icons,
    active_icon: Option<Token>,
    notifications: Vec<Option<NotificationEntry>>,
    inbox: Vec<Command>,
    outbox: Vec<Event>,
    next_notification: u32,
    shutdown: bool,
    release_runs: u32,
    closed: bool,
    clipboard_armed: bool,
    copy_data_channel: Option<u32>,
    emitted: Ghost<Seq<Event>>,
    delivered: Ghost<Seq<Event>>,
}

impl View for Bridge {
    type V = BridgeView;

    closed spec fn view(&self) -> BridgeView {
        BridgeView {
            menu: self.menu.items@,
            icons: self.icons.icons@,
            active_icon: self.active_icon,
            slots: self.notifications@,
            inbox: self.inbox@,
            outbox: self.outbox@,
            next_notification: self.next_notification,
            shutdown: self.shutdown,
            release_runs: self.release_runs,
            closed: self.closed,
            clipboard_armed: self.clipboard_armed,
            copy_data_channel: self.copy_data_channel,
            emitted: self.emitted@,
            delivered: self.delivered@,
        }
    }
}

impl Bridge {
    /// Assemble a bridge from its configuration.
    ///
    /// The platform layer registers the window, tray slot and listeners
    /// before driving the pump; construction here is pure assembly.
    pub fn new(
        menu: MenuModel,
        icons: Icons,
        active_icon: Option<Token>,
        copy_data_channel: Option<u32>,
    ) -> (b: Bridge)
        ensures
            b@ == initial_view(menu.items@, icons.icons@, active_icon, copy_data_channel),
            b@.wf(),
    {
        proof {
            lemma_initial_wf(menu.items@, icons.icons@, active_icon, copy_data_channel);
        }
        Bridge {
            menu,
            icons,
            active_icon,
            notifications: Vec::new(),
            inbox: Vec::new(),
            outbox: Vec::new(),
            next_notification: 0,
            shutdown: false,
            release_runs: 0,
            closed: false,
            clipboard_armed: true,
            copy_data_channel,
            emitted: Ghost(Seq::empty()),
            delivered: Ghost(Seq::empty()),
        }
    }

    /// Reserve a token and enqueue a notification for the pump to show.
    ///
    /// The token is reserved synchronously: each successful call returns a
    /// fresh, never reused notification token, one past the previous.
    /// Display confirmation and final disposition are reported through
    /// later events.  After the channel has closed (or the index space is
    /// exhausted) the call is a no-op returning the sentinel token.
    pub fn notification(&mut self, notification: Notification) -> (t: Token)
        requires
            old(self)@.wf(),
        ensures
            final(self)@.wf(),
            (old(self)@.closed || old(self)@.next_notification == u32::MAX) ==> (t
                == Token::sentinel_spec() && *final(self) == *old(self)),
            (!old(self)@.closed && old(self)@.next_notification < u32::MAX) ==> ({
                &&& t == (Token {
                    kind: TokenKind::Notification,
                    index: old(self)@.next_notification,
                })
                &&& final(self)@ == (BridgeView {
                    inbox: old(self)@.inbox.push(
                        Command::PostNotification { token: t, notification },
                    ),
                    next_notification: (old(self)@.next_notification + 1) as u32,
                    ..old(self)@
                })
            }),
    {
        if self.closed || self.next_notification == u32::MAX {
            Token::sentinel()
        } else {
            let t = Token::new(TokenKind::Notification, self.next_notification);
            self.next_notification = self.next_notification + 1;
            self.inbox.push(Command::PostNotification { token: t, notification });
            t
        }
    }

    /// Enqueue a shutdown command.
    ///
    /// Idempotent and callable any number of times from any context: the
    /// pump runs the termination sequence for the first shutdown trigger it
    /// sees and treats every later one as a no-op.  After the channel has
    /// closed the call does nothing.
    pub fn shutdown(&mut self)
        requires
            old(self)@.wf(),
        ensures
            final(self)@.wf(),
            old(self)@.closed ==> *final(self) == *old(self),
            !old(self)@.closed ==> final(self)@ == (BridgeView {
                inbox: old(self)@.inbox.push(Command::Shutdown),
                ..old(self)@
            }),
    {
        if !self.closed {
            self.inbox.push(Command::Shutdown);
        }
    }

    /// Enqueue a change of a menu entry's enabled flag.
    ///
    /// The change is applied by the pump when it drains its inbox and shows
    /// in the native menu the next time it is displayed.  A no-op after the
    /// channel has closed.
    pub fn set_menu_item_enabled(&mut self, token: Token, enabled: bool)
        requires
            old(self)@.wf(),
        ensures
            final(self)@.wf(),
            old(self)@.closed ==> *final(self) == *old(self),
            !old(self)@.closed ==> final(self)@ == (BridgeView {
                inbox: old(self)@.inbox.push(Command::SetMenuItemEnabled { token, enabled }),
                ..old(self)@
            }),
    {
        if !self.closed {
            self.inbox.push(Command::SetMenuItemEnabled { token, enabled });
        }
    }

    /// Enqueue a change of a menu entry's checked flag.
    ///
    /// A no-op after the channel has closed.
    pub fn set_menu_item_checked(&mut self, token: Token, checked: bool)
        requires
            old(self)@.wf(),
        ensures
            final(self)@.wf(),
            old(self)@.closed ==> *final(self) == *old(self),
            !old(self)@.closed ==> final(self)@ == (BridgeView {
                inbox: old(self)@.inbox.push(Command::SetMenuItemChecked { token, checked }),
                ..old(self)@
            }),
    {
        if !self.closed {
            self.inbox.push(Command::SetMenuItemChecked { token, checked });
        }
    }

    /// Enqueue a swap of the active tray icon.
    ///
    /// A no-op after the channel has closed.
    pub fn set_active_icon(&mut self, token: Token)
        requires
            old(self)@.wf(),
        ensures
            final(self)@.wf(),
            old(self)@.closed ==> *final(self) == *old(self),
            !old(self)@.closed ==> final(self)@ == (BridgeView {
                inbox: old(self)@.inbox.push(Command::SetActiveIcon { token }),
                ..old(self)@
            }),
    {
        if !self.closed {
            self.inbox.push(Command::SetActiveIcon { token });
        }
    }

    /// The menu model as the pump last left it.
    ///
    /// The platform layer reads this to rebuild the native menu the next
    /// time it is shown: mutations enqueued through the command methods
    /// become visible here once drained (lazy sync).
    pub fn menu_items(&self) -> (items: &Vec<MenuItem>)
        ensures
            items@ == self@.menu,
    {
        &self.menu.items
    }

    /// The icon token to show in the tray, if any.
    pub fn active_icon(&self) -> (t: Option<Token>)
        ensures
            t == self@.active_icon,
    {
        self.active_icon
    }

    /// Whether the termination sequence has run; the pump loop exits once
    /// this holds.
    pub fn has_shut_down(&self) -> (b: bool)
        ensures
            b == self@.shutdown,
    {
        self.shutdown
    }

    /// Append an event to the buffer and record it in the emission history.
    fn emit(&mut self, e: Event)
        ensures
            final(self)@ == spec_emit(old(self)@, e),
    {
        self.emitted = Ghost(self.emitted@.push(e));
        self.outbox.push(e);
    }

    /// Run the termination sequence: set the terminal state flag, release
    /// the native resources once, close the channel and emit the single
    /// `Shutdown` event.  A no-op when the flag is already set.
    fn terminate(&mut self)
        requires
            old(self)@.wf(),
        ensures
            final(self)@ == spec_terminate(old(self)@),
            final(self)@.wf(),
    {
        proof {
            lemma_terminate_wf(old(self)@);
        }
        if !self.shutdown {
            self.shutdown = true;
            self.closed = true;
            self.release_runs = self.release_runs + 1;
            self.emit(Event::Shutdown);
        }
    }

    /// Apply one command, just popped from the front of the inbox.
    fn apply_command(&mut self, c: Command)
        requires
            old(self)@.wf(),
            old(self)@.applies_next(c),
        ensures
            final(self)@ == spec_apply_command(old(self)@, c),
            final(self)@.wf(),
    {
        proof {
            lemma_apply_command_wf(old(self)@, c);
        }
        if self.shutdown {
            return ;
        }
        match c {
            Command::PostNotification { token, notification } => {
                let idx = token.index as usize;
                if token.kind == TokenKind::Notification && self.notifications.len() <= idx
                    && token.index < self.next_notification {
                    let ghost pre = self@;
                    grow_with_none(&mut self.notifications, idx);
                    self.notifications.push(
                        Some(
                            NotificationEntry {
                                state: NotificationState::Pending,
                                notification,
                            },
                        ),
                    );
                    proof {
                        assert(self@.slots =~= spec_apply_command(pre, c).slots);
                    }
                }
            },
            Command::SetMenuItemEnabled { token, enabled } => {
                let _ = self.menu.set_enabled(token, enabled);
            },
            Command::SetMenuItemChecked { token, checked } => {
                let _ = self.menu.set_checked(token, checked);
            },
            Command::SetActiveIcon { token } => {
                if token.kind == TokenKind::Icon && (token.index as usize) < self.icons.icons.len()
                {
                    self.active_icon = Some(token);
                }
            },
            Command::Shutdown => {
                self.terminate();
            },
        }
    }

    /// Drain up to `batch` commands from the front of the inbox, oldest
    /// first, applying each.  The bound keeps one pump iteration from
    /// starving message processing.
    pub fn drain_commands(&mut self, batch: usize)
        requires
            old(self)@.wf(),
        ensures
            final(self)@ == spec_drain(old(self)@, batch as nat),
            final(self)@.wf(),
    {
        let ghost orig = self@;
        let mut n: usize = batch;
        while n > 0 && self.inbox.len() > 0
            invariant
                self@.wf(),
                n <= batch,
                spec_drain(orig, batch as nat) == spec_drain(self@, n as nat),
            decreases n,
        {
            let ghost pre = self@;
            let c = self.inbox.remove(0);
            proof {
                assert(self@.inbox =~= pre.inbox.drop_first());
                assert(self@ == (BridgeView { inbox: pre.inbox.drop_first(), ..pre }));
                assert forall|j: int| 0 <= j < self@.inbox.len() implies pending_index_increases(
                    c,
                    #[trigger] self@.inbox[j],
                ) by {
                    assert(self@.inbox[j] == pre.inbox[j + 1]);
                }
            }
            self.apply_command(c);
            n = n - 1;
        }
    }

    /// Dispatch one native message.
    ///
    /// See [`spec_pump_message`] for the contract per message class: drop
    /// stale or unknown identifiers, re-arm the clipboard listener, report
    /// each notification disposition at most once, and run the termination
    /// sequence on destroy.
    pub fn pump_message(&mut self, m: NativeMessage)
        requires
            old(self)@.wf(),
        ensures
            final(self)@ == spec_pump_message(old(self)@, m),
            final(self)@.wf(),
    {
        proof {
            lemma_pump_message_wf(old(self)@, m);
        }
        if self.shutdown {
            return ;
        }
        match m {
            NativeMessage::MenuCommand { id } => {
                match self.menu.resolve(id) {
                    Some(tok) => {
                        self.emit(Event::MenuItemClicked(tok));
                    },
                    None => {},
                }
            },
            NativeMessage::ClipboardUpdate { event } => {
                self.clipboard_armed = true;
                self.emit(Event::Clipboard(event));
            },
            NativeMessage::NotificationShown { id } => {
                let ghost pre = self@;
                let idx = id as usize;
                if idx < self.notifications.len() {
                    let slot = &mut self.notifications[idx];
                    match slot {
                        Some(entry) => {
                            if entry.state == NotificationState::Pending {
                                entry.state = NotificationState::Shown;
                            }
                        },
                        None => {},
                    }
                    proof {
                        let post = spec_pump_message(pre, NativeMessage::NotificationShown { id });
                        assert(self@.slots =~= post.slots);
                        assert(self@ == post);
                    }
                }
            },
            NativeMessage::NotificationResult { id, clicked } => {
                let idx = id as usize;
                if idx < self.notifications.len() {
                    if self.notifications[idx].is_some() {
                        self.notifications[idx] = None;
                        let tok = Token::new(TokenKind::Notification, id);
                        if clicked {
                            self.emit(Event::NotificationClicked(tok));
                        } else {
                            self.emit(Event::NotificationDismissed(tok));
                        }
                    }
                }
            },
            NativeMessage::CopyData { channel, data } => {
                match self.copy_data_channel {
                    Some(expected) => {
                        if expected == channel {
                            self.emit(Event::CopyData(data));
                        }
                    },
                    None => {},
                }
            },
            NativeMessage::Destroy => {
                self.terminate();
            },
            NativeMessage::Unknown => {},
        }
    }

    /// One pump iteration: drain a bounded batch of commands, then
    /// dispatch one native message.
    pub fn pump_iteration(&mut self, m: NativeMessage, batch: usize)
        requires
            old(self)@.wf(),
        ensures
            final(self)@ == spec_pump_message(spec_drain(old(self)@, batch as nat), m),
            final(self)@.wf(),
    {
        self.drain_commands(batch);
        self.pump_message(m);
    }

    /// Take the next event, oldest first.
    ///
    /// Returns the front of the buffer if one is waiting; the closed error
    /// immediately — never blocking — once the bridge has shut down and the
    /// buffer has drained; and nothing when the buffer is merely empty, in
    /// which case the caller's context suspends until the pump produces
    /// more.  This is the sole consumer of the event channel.
    pub fn tick(&mut self) -> (r: Result<Option<Event>, Error>)
        requires
            old(self)@.wf(),
        ensures
            final(self)@.wf(),
            old(self)@.outbox.len() > 0 ==> ({
                &&& r == Ok::<Option<Event>, Error>(Some(old(self)@.outbox[0]))
                &&& final(self)@ == (BridgeView {
                    outbox: old(self)@.outbox.drop_first(),
                    delivered: old(self)@.delivered.push(old(self)@.outbox[0]),
                    ..old(self)@
                })
            }),
            (old(self)@.outbox.len() == 0 && old(self)@.closed) ==> (r == Err::<
                Option<Event>,
                Error,
            >(Error::Closed) && *final(self) == *old(self)),
            (old(self)@.outbox.len() == 0 && !old(self)@.closed) ==> (r == Ok::<
                Option<Event>,
                Error,
            >(None) && *final(self) == *old(self)),
    {
        if self.outbox.len() > 0 {
            let ghost pre = self@;
            let e = self.outbox.remove(0);
            self.delivered = Ghost(self.delivered@.push(e));
            proof {
                assert(self@.outbox =~= pre.outbox.drop_first());
                assert(self@.emitted =~= self@.delivered + self@.outbox);
            }
            Ok(Some(e))
        } else if self.closed {
            Err(Error::Closed)
        } else {
            Ok(None)
        }
    }
}

/// Grow the queue with empty slots until it has length `n`.
fn grow_with_none(slots: &mut Vec<Option<NotificationEntry>>, n: usize)
    requires
        old(slots)@.len() <= n,
    ensures
        final(slots)@ == old(slots)@ + Seq::new(
            (n - old(slots)@.len()) as nat,
            |j: int| None::<NotificationEntry>,
        ),
{
    while slots.len() < n
        invariant
            old(slots)@.len() <= slots@.len() <= n,
            slots@ == old(slots)@ + Seq::new(
                (slots@.len() - old(slots)@.len()) as nat,
                |j: int| None::<NotificationEntry>,
            ),
        decreases n - slots.len(),
    {
        slots.push(None);
        proof {
            assert(slots@ =~= old(slots)@ + Seq::new(
                (slots@.len() - old(slots)@.len()) as nat,
                |j: int| None::<NotificationEntry>,
            ));
        }
    }
}

} // verus!
