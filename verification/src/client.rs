//! The client: a short-lived process that learns its own name from the daemon
//! on its host and then boops, one named peer or everyone.
//!
//! The client decides and its caller acts. The caller opens the endpoint,
//! sends and receives; it hands each outcome to [`Client::step`] as a
//! [`ClientEvent`] and carries out the [`ClientAction`] that comes back, until
//! that action is [`ClientAction::Report`] or [`ClientAction::Halt`]. Nothing
//! is tried twice and nothing times out: a query that no daemon answers is
//! waited for as long as the caller waits.

use crate::text::{from_utf8_lossy, lossy_text};
use crate::wire::{
    encode_notification, encode_query, encoded_notification, query_tag, EncodeError,
};
use vstd::prelude::*;
use vstd::string::*;
use vstd::utf8::*;

verus! {

/// What ends a client before its boop is sent.
#[derive(Debug, Clone, Copy, PartialEq, Eq, Structural)]
pub enum ClientError {
    /// A datagram could not be sent or received.
    Transport,
    /// The names are too long for one datagram.
    TooLong,
}

/// Where a client stands.
#[derive(Debug, Clone, Copy, PartialEq, Eq, Structural)]
pub enum ClientState {
    /// The endpoint is being opened.
    Start,
    /// The query is out and its answer awaited.
    NameResolution,
    /// The notification is being sent.
    Broadcasting,
    /// The notification was taken by the network. Final.
    Done,
    /// Ended by an error. Final.
    Failed,
}

/// What happened to a client.
#[derive(Debug, PartialEq, Eq)]
pub enum ClientEvent {
    /// The endpoint is open.
    Opened,
    /// The answer to the query arrived.
    Reply(Vec<u8>),
    /// The notification was taken by the network.
    Sent,
    /// Opening, sending or receiving failed.
    Fault,
}

/// What the caller of a client does next.
#[derive(Debug, PartialEq, Eq)]
pub enum ClientAction {
    /// Nothing.
    Idle,
    /// Send these bytes to the daemon on this host, then await one datagram.
    Query(Vec<u8>),
    /// Send these bytes once to everyone on the subnet.
    Broadcast(Vec<u8>),
    /// Report this error and end.
    Report(ClientError),
    /// End.
    Halt,
}

/// A [`ClientEvent`] as a mathematical value.
pub enum ClientEventView {
    Opened,
    Reply(Seq<u8>),
    Sent,
    Fault,
}

/// A [`ClientAction`] as a mathematical value.
pub enum ClientActionView {
    Idle,
    Query(Seq<u8>),
    Broadcast(Seq<u8>),
    Report(ClientError),
    Halt,
}

impl View for ClientEvent {
    type V = ClientEventView;

    open spec fn view(&self) -> ClientEventView {
        match self {
            ClientEvent::Opened => ClientEventView::Opened,
            ClientEvent::Reply(bytes) => ClientEventView::Reply(bytes@),
            ClientEvent::Sent => ClientEventView::Sent,
            ClientEvent::Fault => ClientEventView::Fault,
        }
    }
}

impl View for ClientAction {
    type V = ClientActionView;

    open spec fn view(&self) -> ClientActionView {
        match self {
            ClientAction::Idle => ClientActionView::Idle,
            ClientAction::Query(bytes) => ClientActionView::Query(bytes@),
            ClientAction::Broadcast(bytes) => ClientActionView::Broadcast(bytes@),
            ClientAction::Report(e) => ClientActionView::Report(*e),
            ClientAction::Halt => ClientActionView::Halt,
        }
    }
}

/// The name that a reply to the query holds: its bytes as text, with a
/// replacement character wherever they are not UTF-8.
pub open spec fn resolved_name(reply: Seq<u8>) -> Seq<char> {
    lossy_text(reply)
}

/// What a client that has learnt its `name` does: it broadcasts the
/// notification to `target`, or fails where that does not fit in a datagram.
pub open spec fn announced(name: Seq<char>, target: Option<Seq<char>>) -> (
    ClientState,
    ClientActionView,
) {
    match encoded_notification(name, target) {
        Ok(bytes) => (ClientState::Broadcasting, ClientActionView::Broadcast(bytes)),
        Err(EncodeError::TooLong) => (
            ClientState::Failed,
            ClientActionView::Report(ClientError::TooLong),
        ),
    }
}

/// One step of the client that boops `target`: the state after the event, and
/// what the caller does next.
///
/// A final state stays and halts. Before that a fault fails and is reported.
/// Each other event moves the client on from the one state that awaits it,
/// and in any other state changes nothing.
pub open spec fn client_step(
    target: Option<Seq<char>>,
    state: ClientState,
    event: ClientEventView,
) -> (ClientState, ClientActionView) {
    match state {
        ClientState::Done | ClientState::Failed => (state, ClientActionView::Halt),
        _ => match event {
            ClientEventView::Fault => (
                ClientState::Failed,
                ClientActionView::Report(ClientError::Transport),
            ),
            ClientEventView::Opened => if state == ClientState::Start {
                (ClientState::NameResolution, ClientActionView::Query(query_tag()))
            } else {
                (state, ClientActionView::Idle)
            },
            ClientEventView::Reply(bytes) => if state == ClientState::NameResolution {
                announced(resolved_name(bytes), target)
            } else {
                (state, ClientActionView::Idle)
            },
            ClientEventView::Sent => if state == ClientState::Broadcasting {
                (ClientState::Done, ClientActionView::Halt)
            } else {
                (state, ClientActionView::Idle)
            },
        },
    }
}

/// The name in a reply to the query. Bytes that are UTF-8 give the text that
/// they encode.
pub fn resolve_name(reply: &[u8]) -> (name: String)
    ensures
        name@ == resolved_name(reply@),
        valid_utf8(reply@) ==> name@ == decode_utf8(reply@),
{
    from_utf8_lossy(reply)
}

/// A client: whom it boops, one name or, where there is none, everyone.
pub struct Client {
    target: Option<String>,
}

impl Client {
    /// Whom the client boops, as a mathematical value.
    pub closed spec fn target(&self) -> Option<Seq<char>> {
        match self.target {
            Some(t) => Some(t@),
            None => None,
        }
    }

    /// A client that boops `target`, or everyone where there is none.
    pub fn new(target: Option<String>) -> (client: Client)
        ensures
            client.target() == match target {
                Some(t) => Some(t@),
                None => None,
            },
    {
        Client { target }
    }

    /// The state in which every client starts.
    pub fn start() -> (state: ClientState)
        ensures
            state == ClientState::Start,
    {
        ClientState::Start
    }

    /// The step of a client that has learnt its `name`.
    pub fn announce(&self, name: &str) -> (next: (ClientState, ClientAction))
        ensures
            (next.0, next.1@) == announced(name@, self.target()),
    {
        let target = match &self.target {
            Some(t) => Some(t.as_str()),
            None => None,
        };
        match encode_notification(name, target) {
            Ok(bytes) => (ClientState::Broadcasting, ClientAction::Broadcast(bytes)),
            Err(EncodeError::TooLong) => (
                ClientState::Failed,
                ClientAction::Report(ClientError::TooLong),
            ),
        }
    }

    /// One step: the state after `event`, and what to do next.
    pub fn step(&self, state: ClientState, event: &ClientEvent) -> (next: (
        ClientState,
        ClientAction,
    ))
        ensures
            (next.0, next.1@) == client_step(self.target(), state, event@),
    {
        match state {
            ClientState::Done | ClientState::Failed => (state, ClientAction::Halt),
            _ => match event {
                ClientEvent::Fault => (
                    ClientState::Failed,
                    ClientAction::Report(ClientError::Transport),
                ),
                ClientEvent::Opened => {
                    if state == ClientState::Start {
                        (ClientState::NameResolution, ClientAction::Query(encode_query()))
                    } else {
                        (state, ClientAction::Idle)
                    }
                },
                ClientEvent::Reply(bytes) => {
                    if state == ClientState::NameResolution {
                        let name = resolve_name(bytes.as_slice());
                        self.announce(name.as_str())
                    } else {
                        (state, ClientAction::Idle)
                    }
                },
                ClientEvent::Sent => {
                    if state == ClientState::Broadcasting {
                        (ClientState::Done, ClientAction::Halt)
                    } else {
                        (state, ClientAction::Idle)
                    }
                },
            },
        }
    }
}

} // verus!
