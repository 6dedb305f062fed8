//! The decisions of the channel listener that receives one credential
//! delivery per logon attempt. The caller performs each action (create the
//! channel, wait for the client, read a message, notify the host, close) and
//! hands back what happened as the next event.
use vstd::prelude::*;
use crate::store::SharedCredentials;
use crate::wide::{decode_message, decode_message_spec, le_bytes, utf16_encode, message_units,
    lemma_message_round_trip, MAX_FIELD_UNITS};

verus! {

/// The largest message the listener reads, in bytes.
pub const MESSAGE_CAPACITY: usize = 2 * MAX_FIELD_UNITS;

/// How long the client waits for the channel to appear, in milliseconds.
pub const CHANNEL_WAIT_TIMEOUT_MS: u32 = 5000;

/// Where the listener stands.
#[derive(Debug, Clone, Copy, PartialEq, Eq, Structural)]
pub enum ListenerPhase {
    Starting,
    CreatingChannel,
    AwaitingClient,
    ReadingUsername,
    ReadingPassword,
    Exited,
}

/// Why the listener exited.
#[derive(Debug, Clone, Copy, PartialEq, Eq, Structural)]
pub enum ListenerExit {
    /// Both fields arrived; the record is ready and the host was notified.
    Served,
    /// The channel could not be created or no connection was accepted.
    SetupFailure,
    /// A stop was requested before the channel was created or before
    /// reading from a connected client.
    Cancelled,
    /// A read failed or a message was too long; the record stays incomplete.
    TransferIncomplete,
}

/// What the caller observed after performing the last action.
pub enum ListenerEvent {
    /// The listener is to begin.
    Begin,
    /// Whether the channel was created.
    ChannelCreated(bool),
    /// Whether a client connected.
    ClientConnected(bool),
    /// The bytes of the message read, or `None` when the read failed.
    MessageRead(Option<Vec<u8>>),
}

/// What the caller is to do next.
#[derive(Debug, Clone, Copy, PartialEq, Eq, Structural)]
pub enum ListenerAction {
    CreateChannel,
    AwaitClient,
    ReadMessage,
    /// Release the channel without notifying anybody.
    CloseChannel,
    /// Tell the host that new data is available through its registered
    /// capability, then release the channel.
    NotifyHostAndClose,
    /// Nothing more to do.
    Nothing,
}

/// A message the listener accepts: one that fits its buffer.
pub open spec fn message_fits(b: Seq<u8>) -> bool {
    b.len() <= MESSAGE_CAPACITY
}

/// The bytes of a read that delivered a message that fits, if it did.
pub open spec fn delivered(e: ListenerEvent) -> Option<Seq<u8>> {
    match e {
        ListenerEvent::MessageRead(Some(b)) => if message_fits(b@) {
            Some(b@)
        } else {
            None
        },
        _ => None,
    }
}

/// The listener's next phase, the reason it exited (once it has), and the
/// action to perform, from its phase, its running flag, whether the host's
/// capability is still registered, and the event.
pub open spec fn listener_next(
    phase: ListenerPhase,
    running: bool,
    registered: bool,
    e: ListenerEvent,
) -> (
    ListenerPhase,
    Option<ListenerExit>,
    ListenerAction,
) {
    match (phase, e) {
        (ListenerPhase::Starting, ListenerEvent::Begin) => if running {
            (ListenerPhase::CreatingChannel, None, ListenerAction::CreateChannel)
        } else {
            (ListenerPhase::Exited, Some(ListenerExit::Cancelled), ListenerAction::Nothing)
        },
        (ListenerPhase::CreatingChannel, ListenerEvent::ChannelCreated(ok)) => if ok {
            (ListenerPhase::AwaitingClient, None, ListenerAction::AwaitClient)
        } else {
            (ListenerPhase::Exited, Some(ListenerExit::SetupFailure), ListenerAction::Nothing)
        },
        (ListenerPhase::AwaitingClient, ListenerEvent::ClientConnected(ok)) => if !ok {
            (ListenerPhase::Exited, Some(ListenerExit::SetupFailure), ListenerAction::CloseChannel)
        } else if !running {
            (ListenerPhase::Exited, Some(ListenerExit::Cancelled), ListenerAction::CloseChannel)
        } else {
            (ListenerPhase::ReadingUsername, None, ListenerAction::ReadMessage)
        },
        (ListenerPhase::ReadingUsername, ListenerEvent::MessageRead(_)) => if delivered(e) is Some {
            (ListenerPhase::ReadingPassword, None, ListenerAction::ReadMessage)
        } else {
            (
                ListenerPhase::Exited,
                Some(ListenerExit::TransferIncomplete),
                ListenerAction::CloseChannel,
            )
        },
        (ListenerPhase::ReadingPassword, ListenerEvent::MessageRead(_)) => if delivered(e) is Some {
            (ListenerPhase::Exited, Some(ListenerExit::Served), if registered {
                ListenerAction::NotifyHostAndClose
            } else {
                ListenerAction::CloseChannel
            })
        } else {
            (
                ListenerPhase::Exited,
                Some(ListenerExit::TransferIncomplete),
                ListenerAction::CloseChannel,
            )
        },
        _ => (phase, None, ListenerAction::Nothing),
    }
}

/// The record as the listener sees it: user name, password, domain and the
/// readiness flag.
pub open spec fn store_view(s: &SharedCredentials) -> (Seq<u16>, Seq<u16>, Seq<u16>, bool) {
    (s.username@, s.password@, s.domain@, s.is_ready)
}

/// The record after the event: a delivered user name or password is stored,
/// and the password, which comes last, makes the record ready.
pub open spec fn store_next(
    phase: ListenerPhase,
    e: ListenerEvent,
    s: (Seq<u16>, Seq<u16>, Seq<u16>, bool),
) -> (Seq<u16>, Seq<u16>, Seq<u16>, bool) {
    match delivered(e) {
        Some(b) => if phase == ListenerPhase::ReadingUsername {
            (decode_message_spec(b), s.1, s.2, s.3)
        } else if phase == ListenerPhase::ReadingPassword {
            (s.0, decode_message_spec(b), s.2, true)
        } else {
            s
        },
        None => s,
    }
}

/// The state of the listener of one logon attempt.
pub struct CPipeListener {
    /// Set once a delivery was served.
    pub is_unlocked: bool,
    /// Cleared when a stop is requested and when the listener exits.
    pub running: bool,
    /// Whether the host's change-notification capability is registered.
    pub notifier_registered: bool,
    pub phase: ListenerPhase,
    pub exit: Option<ListenerExit>,
}

impl CPipeListener {
    /// A listener about to begin; the first event to hand it is `Begin`.
    pub fn start() -> (r: CPipeListener)
        ensures
            r.running,
            r.notifier_registered,
            !r.is_unlocked,
            r.phase == ListenerPhase::Starting,
            r.exit is None,
    {
        CPipeListener {
            is_unlocked: false,
            running: true,
            notifier_registered: true,
            phase: ListenerPhase::Starting,
            exit: None,
        }
    }

    /// Asks the listener to stop; it does so at its next check.
    pub fn request_stop(&mut self)
        ensures
            !final(self).running,
            final(self).phase == old(self).phase,
            final(self).exit == old(self).exit,
            final(self).is_unlocked == old(self).is_unlocked,
            final(self).notifier_registered == old(self).notifier_registered,
    {
        self.running = false;
    }

    /// The host withdrew its capability: it is never notified afterwards.
    pub fn unregister_notifier(&mut self)
        ensures
            !final(self).notifier_registered,
            final(self).running == old(self).running,
            final(self).phase == old(self).phase,
            final(self).exit == old(self).exit,
            final(self).is_unlocked == old(self).is_unlocked,
    {
        self.notifier_registered = false;
    }

    /// Takes the outcome of the last action and decides the next one,
    /// storing what a read delivered.
    pub fn step(&mut self, e: ListenerEvent, store: &mut SharedCredentials) -> (r: ListenerAction)
        ensures
            ({
                let (p, x, a) = listener_next(
                    old(self).phase,
                    old(self).running,
                    old(self).notifier_registered,
                    e,
                );
                &&& final(self).phase == p
                &&& r == a
                &&& final(self).exit == (if x is Some {
                    x
                } else {
                    old(self).exit
                })
                &&& final(self).running == (old(self).running && x is None)
                &&& final(self).is_unlocked == (old(self).is_unlocked || x == Some(
                    ListenerExit::Served,
                ))
            }),
            final(self).notifier_registered == old(self).notifier_registered,
            store_view(final(store)) == store_next(old(self).phase, e, store_view(old(store))),
    {
        let ghost old_phase = self.phase;
        let action = match e {
            ListenerEvent::Begin => {
                if self.phase == ListenerPhase::Starting {
                    if self.running {
                        self.phase = ListenerPhase::CreatingChannel;
                        ListenerAction::CreateChannel
                    } else {
                        self.exit_with(ListenerExit::Cancelled);
                        ListenerAction::Nothing
                    }
                } else {
                    ListenerAction::Nothing
                }
            },
            ListenerEvent::ChannelCreated(ok) => {
                if self.phase == ListenerPhase::CreatingChannel {
                    if ok {
                        self.phase = ListenerPhase::AwaitingClient;
                        ListenerAction::AwaitClient
                    } else {
                        self.exit_with(ListenerExit::SetupFailure);
                        ListenerAction::Nothing
                    }
                } else {
                    ListenerAction::Nothing
                }
            },
            ListenerEvent::ClientConnected(ok) => {
                if self.phase == ListenerPhase::AwaitingClient {
                    if !ok {
                        self.exit_with(ListenerExit::SetupFailure);
                        ListenerAction::CloseChannel
                    } else if !self.running {
                        self.exit_with(ListenerExit::Cancelled);
                        ListenerAction::CloseChannel
                    } else {
                        self.phase = ListenerPhase::ReadingUsername;
                        ListenerAction::ReadMessage
                    }
                } else {
                    ListenerAction::Nothing
                }
            },
            ListenerEvent::MessageRead(read) => {
                if self.phase == ListenerPhase::ReadingUsername || self.phase
                    == ListenerPhase::ReadingPassword {
                    match read {
                        Some(bytes) => {
                            if bytes.len() <= MESSAGE_CAPACITY {
                                let text = decode_message(&bytes);
                                if self.phase == ListenerPhase::ReadingUsername {
                                    store.set_username(text);
                                    self.phase = ListenerPhase::ReadingPassword;
                                    ListenerAction::ReadMessage
                                } else {
                                    store.set_password(text);
                                    store.mark_ready();
                                    self.is_unlocked = true;
                                    self.exit_with(ListenerExit::Served);
                                    if self.notifier_registered {
                                        ListenerAction::NotifyHostAndClose
                                    } else {
                                        ListenerAction::CloseChannel
                                    }
                                }
                            } else {
                                self.exit_with(ListenerExit::TransferIncomplete);
                                ListenerAction::CloseChannel
                            }
                        },
                        None => {
                            self.exit_with(ListenerExit::TransferIncomplete);
                            ListenerAction::CloseChannel
                        },
                    }
                } else {
                    ListenerAction::Nothing
                }
            },
        };
        action
    }

    fn exit_with(&mut self, why: ListenerExit)
        ensures
            final(self).phase == ListenerPhase::Exited,
            final(self).exit == Some(why),
            !final(self).running,
            final(self).is_unlocked == old(self).is_unlocked,
            final(self).notifier_registered == old(self).notifier_registered,
    {
        self.phase = ListenerPhase::Exited;
        self.exit = Some(why);
        self.running = false;
    }
}

/// A client that writes a user name and then a password, each without NUL
/// characters and of at most 256 UTF-16 units, fills the record with
/// exactly those two texts, makes it ready, and has the host notified; the
/// domain is left as it was.
pub proof fn lemma_delivery_fills_record(
    user: Seq<char>,
    pass: Seq<char>,
    user_msg: Vec<u8>,
    pass_msg: Vec<u8>,
    s: (Seq<u16>, Seq<u16>, Seq<u16>, bool),
)
    requires
        forall|i: int| 0 <= i < user.len() ==> user[i] != '\0',
        forall|i: int| 0 <= i < pass.len() ==> pass[i] != '\0',
        utf16_encode(user).len() <= MAX_FIELD_UNITS,
        utf16_encode(pass).len() <= MAX_FIELD_UNITS,
        user_msg@ == le_bytes(message_units(user)),
        pass_msg@ == le_bytes(message_units(pass)),
    ensures
        listener_next(
            ListenerPhase::ReadingUsername,
            true,
            true,
            ListenerEvent::MessageRead(Some(user_msg)),
        ) == (ListenerPhase::ReadingPassword, None::<ListenerExit>, ListenerAction::ReadMessage),
        listener_next(
            ListenerPhase::ReadingPassword,
            true,
            true,
            ListenerEvent::MessageRead(Some(pass_msg)),
        ) == (ListenerPhase::Exited, Some(ListenerExit::Served), ListenerAction::NotifyHostAndClose),
        store_next(
            ListenerPhase::ReadingPassword,
            ListenerEvent::MessageRead(Some(pass_msg)),
            store_next(ListenerPhase::ReadingUsername, ListenerEvent::MessageRead(Some(user_msg)), s),
        ) == (utf16_encode(user), utf16_encode(pass), s.2, true),
{
    lemma_message_round_trip(user);
    lemma_message_round_trip(pass);
}

/// A client that writes only its user name and then disconnects, so that
/// the second read fails, leaves the user name stored, the password and
/// the readiness as they were, and the listener exited without notifying.
pub proof fn lemma_username_only(
    user: Seq<char>,
    user_msg: Vec<u8>,
    running: bool,
    registered: bool,
    s: (Seq<u16>, Seq<u16>, Seq<u16>, bool),
)
    requires
        forall|i: int| 0 <= i < user.len() ==> user[i] != '\0',
        utf16_encode(user).len() <= MAX_FIELD_UNITS,
        user_msg@ == le_bytes(message_units(user)),
    ensures
        listener_next(
            ListenerPhase::ReadingPassword,
            running,
            registered,
            ListenerEvent::MessageRead(None),
        ) == (
            ListenerPhase::Exited,
            Some(ListenerExit::TransferIncomplete),
            ListenerAction::CloseChannel,
        ),
        store_next(
            ListenerPhase::ReadingPassword,
            ListenerEvent::MessageRead(None),
            store_next(ListenerPhase::ReadingUsername, ListenerEvent::MessageRead(Some(user_msg)), s),
        ) == (utf16_encode(user), s.1, s.2, s.3),
{
    lemma_message_round_trip(user);
}

/// After the host withdrew its capability, no step of the listener asks
/// for a notification, whatever happens.
pub proof fn lemma_unregistered_never_notified(
    phase: ListenerPhase,
    running: bool,
    e: ListenerEvent,
)
    ensures
        listener_next(phase, running, false, e).2 != ListenerAction::NotifyHostAndClose,
{
}

/// Once exited, the listener does nothing more, whatever happens.
pub proof fn lemma_exited_is_final(running: bool, registered: bool, e: ListenerEvent)
    ensures
        listener_next(ListenerPhase::Exited, running, registered, e) == (
            ListenerPhase::Exited,
            None::<ListenerExit>,
            ListenerAction::Nothing,
        ),
{
}

/// The host is notified only on the step that serves a delivered password,
/// and that step ends the listener; so it is notified at most once.
pub proof fn lemma_notify_once(
    phase: ListenerPhase,
    running: bool,
    registered: bool,
    e: ListenerEvent,
)
    ensures
        listener_next(phase, running, registered, e).2 == ListenerAction::NotifyHostAndClose
            ==> phase == ListenerPhase::ReadingPassword && delivered(e) is Some && listener_next(
            phase,
            running,
            registered,
            e,
        ).0 == ListenerPhase::Exited,
{
}

/// The record, once ready, stays ready whatever the listener is told.
pub proof fn lemma_ready_is_kept(
    phase: ListenerPhase,
    e: ListenerEvent,
    s: (Seq<u16>, Seq<u16>, Seq<u16>, bool),
)
    requires
        s.3,
    ensures
        store_next(phase, e, s).3,
{
}

/// A failed or oversized read never makes the record ready, and leaves the
/// password as it was.
pub proof fn lemma_incomplete_transfer(
    phase: ListenerPhase,
    e: ListenerEvent,
    s: (Seq<u16>, Seq<u16>, Seq<u16>, bool),
)
    requires
        delivered(e) is None,
    ensures
        store_next(phase, e, s) == s,
{
}

} // verus!
