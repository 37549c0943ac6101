//! The daemon: a long-lived listener that answers queries with its name and
//! announces the boops that are meant for it.
//!
//! The daemon decides and its caller acts. The caller binds the endpoint,
//! builds the announcer and receives; it hands each outcome to [`Daemon::step`]
//! as a [`DaemonEvent`] and carries out the [`DaemonAction`] that comes back,
//! until that action is [`DaemonAction::Report`] or [`DaemonAction::Halt`].

use crate::wire::{
    decode, decoded, encoded_notification, has_arrow, lemma_notification_round_trip,
    lemma_query_round_trip, query_tag, MessageKind, MessageView, MIN_DATAGRAM,
};
use vstd::prelude::*;
use vstd::string::*;
use vstd::utf8::*;

verus! {

/// What ends a daemon.
#[derive(Debug, Clone, Copy, PartialEq, Eq, Structural)]
pub enum DaemonError {
    /// The endpoint could not be bound, as when another daemon holds the port.
    Bind,
    /// A datagram could not be received or sent.
    Transport,
    /// The announcer could not be built or would not take an announcement.
    Announce,
}

/// Where a daemon stands.
#[derive(Debug, Clone, Copy, PartialEq, Eq, Structural)]
pub enum DaemonState {
    /// The endpoint is being bound and the announcer built.
    Bound,
    /// Datagrams are received and handled, one at a time.
    Listening,
    /// Shut down from outside. Final.
    Stopped,
    /// Ended by an error. Final.
    Failed,
}

/// What happened to a daemon.
#[derive(Debug, PartialEq, Eq)]
pub enum DaemonEvent {
    /// The endpoint is bound and the announcer stands ready.
    Ready,
    /// A datagram arrived.
    Datagram(Vec<u8>),
    /// Binding, receiving, sending or announcing failed.
    Fault(DaemonError),
    /// The caller wants the daemon to end.
    Shutdown,
}

/// What the caller of a daemon does next.
#[derive(Debug, PartialEq, Eq)]
pub enum DaemonAction {
    /// Nothing; where the daemon listens, receive the next datagram.
    Idle,
    /// Send these bytes back to where the datagram came from, then receive.
    Reply(Vec<u8>),
    /// Hand this text to the announcer without waiting for it, then receive.
    Announce(String),
    /// Report this error and end.
    Report(DaemonError),
    /// End.
    Halt,
}

/// A [`DaemonEvent`] as a mathematical value.
pub enum DaemonEventView {
    Ready,
    Datagram(Seq<u8>),
    Fault(DaemonError),
    Shutdown,
}

/// A [`DaemonAction`] as a mathematical value.
pub enum DaemonActionView {
    Idle,
    Reply(Seq<u8>),
    Announce(Seq<char>),
    Report(DaemonError),
    Halt,
}

impl View for DaemonEvent {
    type V = DaemonEventView;

    open spec fn view(&self) -> DaemonEventView {
        match self {
            DaemonEvent::Ready => DaemonEventView::Ready,
            DaemonEvent::Datagram(bytes) => DaemonEventView::Datagram(bytes@),
            DaemonEvent::Fault(e) => DaemonEventView::Fault(*e),
            DaemonEvent::Shutdown => DaemonEventView::Shutdown,
        }
    }
}

impl View for DaemonAction {
    type V = DaemonActionView;

    open spec fn view(&self) -> DaemonActionView {
        match self {
            DaemonAction::Idle => DaemonActionView::Idle,
            DaemonAction::Reply(bytes) => DaemonActionView::Reply(bytes@),
            DaemonAction::Announce(text) => DaemonActionView::Announce(text@),
            DaemonAction::Report(e) => DaemonActionView::Report(*e),
            DaemonAction::Halt => DaemonActionView::Halt,
        }
    }
}

/// What is announced when `sender` boops this daemon alone.
pub open spec fn announcement_for_you(sender: Seq<char>) -> Seq<char> {
    sender + " is booping you!"@
}

/// What is announced when `sender` boops everyone.
pub open spec fn announcement_for_everyone(sender: Seq<char>) -> Seq<char> {
    sender + " is booping everyone!!!"@
}

/// What the daemon named `name` does about a message: it answers a query with
/// the bytes of its name, announces a boop for everyone or for itself, and
/// drops all else, a boop for another name too.
pub open spec fn reaction(name: Seq<char>, msg: MessageView) -> DaemonActionView {
    match msg {
        MessageView::Query => DaemonActionView::Reply(encode_utf8(name)),
        MessageView::Notification { sender, recipient: None } => DaemonActionView::Announce(
            announcement_for_everyone(sender),
        ),
        MessageView::Notification { sender, recipient: Some(to) } => if to == name {
            DaemonActionView::Announce(announcement_for_you(sender))
        } else {
            DaemonActionView::Idle
        },
        MessageView::Unrecognized => DaemonActionView::Idle,
    }
}

/// One step of the daemon named `name`: the state after the event, and what
/// the caller does next.
///
/// A final state stays and halts. Before that a shutdown stops, a fault fails
/// and is reported, and readiness starts the listening. A datagram is handled
/// only while listening, and the daemon listens on after it.
pub open spec fn daemon_step(name: Seq<char>, state: DaemonState, event: DaemonEventView) -> (
    DaemonState,
    DaemonActionView,
) {
    match state {
        DaemonState::Stopped | DaemonState::Failed => (state, DaemonActionView::Halt),
        DaemonState::Bound | DaemonState::Listening => match event {
            DaemonEventView::Shutdown => (DaemonState::Stopped, DaemonActionView::Halt),
            DaemonEventView::Fault(e) => (DaemonState::Failed, DaemonActionView::Report(e)),
            DaemonEventView::Ready => (DaemonState::Listening, DaemonActionView::Idle),
            DaemonEventView::Datagram(bytes) => if state == DaemonState::Listening {
                (DaemonState::Listening, reaction(name, decoded(bytes)))
            } else {
                (state, DaemonActionView::Idle)
            },
        },
    }
}

/// A daemon: the name that it was registered with, which never changes.
pub struct Daemon {
    name: String,
}

impl Daemon {
    /// The name as a mathematical value.
    pub closed spec fn registered(&self) -> Seq<char> {
        self.name@
    }

    /// A daemon registered as `name`.
    pub fn new(name: String) -> (daemon: Daemon)
        ensures
            daemon.registered() == name@,
    {
        Daemon { name }
    }

    /// The name that the daemon was registered with.
    pub fn name(&self) -> (name: &str)
        ensures
            name@ == self.registered(),
    {
        self.name.as_str()
    }

    /// The state in which every daemon starts.
    pub fn start() -> (state: DaemonState)
        ensures
            state == DaemonState::Bound,
    {
        DaemonState::Bound
    }

    /// What to do about a message.
    pub fn react(&self, msg: &MessageKind) -> (action: DaemonAction)
        ensures
            action@ == reaction(self.registered(), msg@),
    {
        match msg {
            MessageKind::Query => DaemonAction::Reply(self.name.as_str().as_bytes_vec()),
            MessageKind::Notification { sender, recipient: None } => {
                let mut text = sender.clone();
                text.append(" is booping everyone!!!");
                DaemonAction::Announce(text)
            },
            MessageKind::Notification { sender, recipient: Some(to) } => {
                if *to == self.name {
                    let mut text = sender.clone();
                    text.append(" is booping you!");
                    DaemonAction::Announce(text)
                } else {
                    DaemonAction::Idle
                }
            },
            MessageKind::Unrecognized => DaemonAction::Idle,
        }
    }

    /// What to do about a datagram.
    pub fn handle(&self, datagram: &[u8]) -> (action: DaemonAction)
        ensures
            action@ == reaction(self.registered(), decoded(datagram@)),
    {
        let msg = decode(datagram);
        self.react(&msg)
    }

    /// One step: the state after `event`, and what to do next.
    pub fn step(&self, state: DaemonState, event: &DaemonEvent) -> (next: (DaemonState, DaemonAction))
        ensures
            (next.0, next.1@) == daemon_step(self.registered(), state, event@),
    {
        match state {
            DaemonState::Stopped | DaemonState::Failed => (state, DaemonAction::Halt),
            DaemonState::Bound | DaemonState::Listening => match event {
                DaemonEvent::Shutdown => (DaemonState::Stopped, DaemonAction::Halt),
                DaemonEvent::Fault(e) => (DaemonState::Failed, DaemonAction::Report(*e)),
                DaemonEvent::Ready => (DaemonState::Listening, DaemonAction::Idle),
                DaemonEvent::Datagram(bytes) => {
                    if state == DaemonState::Listening {
                        (DaemonState::Listening, self.handle(bytes.as_slice()))
                    } else {
                        (state, DaemonAction::Idle)
                    }
                },
            },
        }
    }
}

/// A listening daemon answers a query with exactly the bytes of its name, and
/// listens on.
pub proof fn lemma_query_is_answered(name: Seq<char>)
    ensures
        daemon_step(name, DaemonState::Listening, DaemonEventView::Datagram(query_tag())) == (
            DaemonState::Listening,
            DaemonActionView::Reply(encode_utf8(name)),
        ),
{
    lemma_query_round_trip();
}

/// A datagram shorter than [`MIN_DATAGRAM`] is dropped: a daemon that has not
/// ended stays in its state and has nothing to do.
pub proof fn lemma_short_datagram_is_dropped(name: Seq<char>, state: DaemonState, datagram: Seq<u8>)
    requires
        datagram.len() < MIN_DATAGRAM,
        state == DaemonState::Bound || state == DaemonState::Listening,
    ensures
        daemon_step(name, state, DaemonEventView::Datagram(datagram)) == (
            state,
            DaemonActionView::Idle,
        ),
{
}

/// A datagram that is not UTF-8 is dropped: a daemon that has not ended stays
/// in its state and has nothing to do.
pub proof fn lemma_non_utf8_datagram_is_dropped(
    name: Seq<char>,
    state: DaemonState,
    datagram: Seq<u8>,
)
    requires
        !valid_utf8(datagram),
        state == DaemonState::Bound || state == DaemonState::Listening,
    ensures
        daemon_step(name, state, DaemonEventView::Datagram(datagram)) == (
            state,
            DaemonActionView::Idle,
        ),
{
}

/// No datagram ends a listening daemon: whatever arrives, the daemon listens
/// on, and what it asks for is nothing, a reply or an announcement.
pub proof fn lemma_datagram_keeps_listening(name: Seq<char>, datagram: Seq<u8>)
    ensures
        ({
            let next = daemon_step(
                name,
                DaemonState::Listening,
                DaemonEventView::Datagram(datagram),
            );
            &&& next.0 == DaemonState::Listening
            &&& next.1 is Idle || next.1 is Reply || next.1 is Announce
        }),
{
}

/// From sender to announcement: where `sender` boops `recipient` and the
/// datagram reaches the daemon named `name`, that daemon announces a boop for
/// everyone if no recipient was named, a boop for itself if it was named, and
/// nothing if another was. This holds of every sender without an `->`; an
/// empty sender needs a recipient beside it.
pub proof fn lemma_boop_is_delivered(
    name: Seq<char>,
    sender: Seq<char>,
    recipient: Option<Seq<char>>,
)
    requires
        !has_arrow(sender),
        sender.len() > 0 || recipient is Some,
    ensures
        encoded_notification(sender, recipient) matches Ok(datagram) ==> reaction(
            name,
            decoded(datagram),
        ) == match recipient {
            None => DaemonActionView::Announce(announcement_for_everyone(sender)),
            Some(to) => if to == name {
                DaemonActionView::Announce(announcement_for_you(sender))
            } else {
                DaemonActionView::Idle
            },
        },
{
    lemma_notification_round_trip(sender, recipient);
}

} // verus!
