//! The life of one connection: from the moment it opens, through the
//! messages it carries and the heartbeat that watches over it, to the
//! cleanup when it ends. The transport is driven by the caller, who hands in
//! what happened and carries out what is decided.

use crate::capabilities::fresh_client_id;
use crate::clients::{has_session, removed, ConnectedClientView};
use crate::prompts::provider::PromptProvider;
use crate::protocol::{
    dispatched, parse_failure_text, Envelope, JsonRpcRequest, MCPProtocol,
};
use crate::providers::ollama::ChatProvider;
use crate::providers::ResourceProvider;
use vstd::prelude::*;

verus! {

/// What `uuid::Uuid` prints for the 128 bits `value`.
pub uninterp spec fn uuid_text(value: u128) -> Seq<char>;

/// `uuid::Uuid::from_u128`, then the identifier as text. The result is
/// named, not described.
#[verifier::external_body]
fn uuid_to_text(value: u128) -> (r: String)
    ensures
        r@ == uuid_text(value),
{
    uuid::Uuid::from_u128(value).to_string()
}

/// Where a connection stands in its life.
#[derive(Debug, Clone, Copy, PartialEq, Eq, Structural)]
pub enum ConnectionState {
    Connecting,
    Open,
    Closing,
    Closed,
}

/// What the transport reports.
pub enum TransportEvent {
    /// A text message came in; it was parsed as a request, or the parser
    /// complained.
    Text(Result<JsonRpcRequest, String>),
    /// A binary message came in.
    Binary,
    /// A ping came in, with its payload.
    Ping(Vec<u8>),
    /// A pong came in.
    Pong,
    /// The peer asked to close.
    Close,
    /// The stream of messages ended or broke.
    Ended,
    /// Something could not be sent.
    SendFailed,
    /// Time has passed and nothing else happened.
    Tick,
}

/// What is to be done on the transport.
#[derive(Debug, PartialEq)]
pub enum ConnectionAction {
    /// Send this answer.
    Reply(Envelope),
    /// Send this text, for a message that was no request.
    ReplyText(String),
    /// Answer the ping with this payload.
    Pong(Vec<u8>),
    /// Nothing.
    Nothing,
    /// Close the transport.
    Shutdown,
}

/// What kind of event happened, where the payload does not matter.
#[derive(Debug, Clone, Copy, PartialEq, Eq, Structural)]
pub enum EventKind {
    Text,
    Binary,
    Ping,
    Pong,
    Close,
    Ended,
    SendFailed,
    Tick,
}

/// The kind of an event.
pub open spec fn kind_of(event: TransportEvent) -> EventKind {
    match event {
        TransportEvent::Text(_) => EventKind::Text,
        TransportEvent::Binary => EventKind::Binary,
        TransportEvent::Ping(_) => EventKind::Ping,
        TransportEvent::Pong => EventKind::Pong,
        TransportEvent::Close => EventKind::Close,
        TransportEvent::Ended => EventKind::Ended,
        TransportEvent::SendFailed => EventKind::SendFailed,
        TransportEvent::Tick => EventKind::Tick,
    }
}

/// Whether an event is traffic from the peer, which resets the heartbeat.
pub open spec fn is_traffic(kind: EventKind) -> bool {
    kind == EventKind::Text || kind == EventKind::Binary || kind == EventKind::Ping || kind
        == EventKind::Pong
}

/// Whether the heartbeat window has passed at `now` with no traffic since
/// `last_seen`.
pub open spec fn heartbeat_expired(last_seen: u64, window: u64, now: u64) -> bool {
    now >= last_seen && now - last_seen >= window
}

/// Whether an event ends an open connection: the peer closes, the stream
/// ends, a send fails, or the heartbeat window has passed.
pub open spec fn ends_connection(kind: EventKind, expired: bool) -> bool {
    kind == EventKind::Close || kind == EventKind::Ended || kind == EventKind::SendFailed || (kind
        == EventKind::Tick && expired)
}

/// The state after an event. Only an open connection moves, and only to
/// `Closing`.
pub open spec fn next_state(state: ConnectionState, kind: EventKind, expired: bool)
    -> ConnectionState {
    if state == ConnectionState::Open && ends_connection(kind, expired) {
        ConnectionState::Closing
    } else {
        state
    }
}

/// A connection only ever moves forward: events move it from `Open` to
/// `Closing` or leave it where it is, and no event brings back a connection
/// that is closing or closed.
pub proof fn lemma_connections_move_forward(state: ConnectionState, kind: EventKind, expired: bool)
    ensures
        next_state(state, kind, expired) == state || (state == ConnectionState::Open && next_state(
            state,
            kind,
            expired,
        ) == ConnectionState::Closing),
        state != ConnectionState::Open ==> next_state(state, kind, expired) == state,
        is_traffic(kind) ==> next_state(state, kind, expired) == state,
{
}

/// One connection: its identity, where it stands, and its heartbeat.
pub struct Connection {
    id: String,
    state: ConnectionState,
    last_seen: u64,
    window: u64,
}

impl Connection {
    /// The identity of the connection, which is the id of its session.
    pub closed spec fn id(&self) -> Seq<char> {
        self.id@
    }

    /// Where the connection stands.
    pub closed spec fn state(&self) -> ConnectionState {
        self.state
    }

    /// When traffic was last seen, in milliseconds.
    pub closed spec fn last_seen(&self) -> u64 {
        self.last_seen
    }

    /// The heartbeat window, in milliseconds.
    pub closed spec fn window(&self) -> u64 {
        self.window
    }

    /// A connection that is about to open, with the heartbeat window
    /// `window_ms`.
    pub fn new(window_ms: u64) -> (r: Self)
        ensures
            r.state() == ConnectionState::Connecting,
            r.window() == window_ms,
            r.last_seen() == 0,
            r.id() == Seq::<char>::empty(),
    {
        Connection {
            id: String::new(),
            state: ConnectionState::Connecting,
            last_seen: 0,
            window: window_ms,
        }
    }

    /// Opens the connection at `now_ms` under the identity `id`. A
    /// connection that is past `Connecting` stays as it is.
    pub fn open_as(&mut self, id: String, now_ms: u64)
        ensures
            final(self).window() == old(self).window(),
            if old(self).state() == ConnectionState::Connecting {
                &&& final(self).state() == ConnectionState::Open
                &&& final(self).id() == id@
                &&& final(self).last_seen() == now_ms
            } else {
                *final(self) == *old(self)
            },
    {
        if self.state == ConnectionState::Connecting {
            self.id = id;
            self.state = ConnectionState::Open;
            self.last_seen = now_ms;
        }
    }

    /// Opens the connection at `now_ms` under a fresh random identity. A
    /// connection that is past `Connecting` stays as it is.
    pub fn open(&mut self, now_ms: u64)
        ensures
            final(self).window() == old(self).window(),
            if old(self).state() == ConnectionState::Connecting {
                &&& final(self).state() == ConnectionState::Open
                &&& exists|value: u128| final(self).id() == #[trigger] uuid_text(value)
                &&& final(self).last_seen() == now_ms
            } else {
                *final(self) == *old(self)
            },
    {
        if self.state == ConnectionState::Connecting {
            let id = uuid_to_text(fresh_client_id());
            self.open_as(id, now_ms);
        }
    }

    /// The identity of the connection.
    pub fn session_id(&self) -> (r: &str)
        ensures
            r@ == self.id(),
    {
        self.id.as_str()
    }

    /// Where the connection stands.
    pub fn current_state(&self) -> (r: ConnectionState)
        ensures
            r == self.state(),
    {
        self.state
    }

    /// Whether the heartbeat window has passed at `now_ms`.
    pub fn is_expired(&self, now_ms: u64) -> (r: bool)
        ensures
            r == heartbeat_expired(self.last_seen(), self.window(), now_ms),
    {
        now_ms >= self.last_seen && now_ms - self.last_seen >= self.window
    }

    /// Takes what the transport reports at `now_ms` and decides what is to
    /// be done. While the connection is open: a request goes to the
    /// dispatcher and its answer is sent; a message that is no request is
    /// answered with the parser's words; a ping is answered with a pong;
    /// traffic resets the heartbeat; and when the peer closes, the stream
    /// ends, a send fails or the heartbeat window has passed, the connection
    /// moves to `Closing`, its session is removed from the registry, and the
    /// transport is to be shut down. In any other state nothing happens.
    pub fn on_event<R: ResourceProvider, P: PromptProvider, C: ChatProvider>(
        &mut self,
        protocol: &mut MCPProtocol<R, P, C>,
        event: TransportEvent,
        now_ms: u64,
    ) -> (r: ConnectionAction)
        ensures
            final(self).id() == old(self).id(),
            final(self).window() == old(self).window(),
            final(protocol).defaults() == old(protocol).defaults(),
            final(protocol).info() == old(protocol).info(),
            final(self).state() == next_state(
                old(self).state(),
                kind_of(event),
                heartbeat_expired(old(self).last_seen(), old(self).window(), now_ms),
            ),
            final(self).last_seen() == if old(self).state() == ConnectionState::Open && is_traffic(
                kind_of(event),
            ) {
                now_ms
            } else {
                old(self).last_seen()
            },
            old(self).state() != ConnectionState::Open ==> r == ConnectionAction::Nothing
                && final(protocol).sessions() == old(protocol).sessions(),
            old(self).state() == ConnectionState::Open ==> match event {
                TransportEvent::Text(message) => {
                    &&& match message {
                        Ok(_) => r matches ConnectionAction::Reply(reply) && dispatched(
                            old(self).id(),
                            message,
                            old(protocol).defaults(),
                            old(protocol).info(),
                            old(protocol).sessions(),
                            final(protocol).sessions(),
                            Ok(reply),
                        ),
                        Err(complaint) => {
                            &&& r matches ConnectionAction::ReplyText(text) && text@
                                == "{\"error\": \""@ + complaint@ + "\"}"@
                            &&& final(protocol).sessions() == old(protocol).sessions()
                        },
                    }
                },
                TransportEvent::Ping(payload) => {
                    &&& r == ConnectionAction::Pong(payload)
                    &&& final(protocol).sessions() == old(protocol).sessions()
                },
                TransportEvent::Binary | TransportEvent::Pong => r == ConnectionAction::Nothing
                    && final(protocol).sessions() == old(protocol).sessions(),
                _ => if final(self).state() == ConnectionState::Closing {
                    &&& r == ConnectionAction::Shutdown
                    &&& final(protocol).sessions() == removed(
                        old(protocol).sessions(),
                        old(self).id(),
                    )
                    &&& !has_session(final(protocol).sessions(), old(self).id())
                } else {
                    &&& r == ConnectionAction::Nothing
                    &&& final(protocol).sessions() == old(protocol).sessions()
                },
            },
    {
        if self.state != ConnectionState::Open {
            return ConnectionAction::Nothing;
        }
        match event {
            TransportEvent::Text(message) => {
                self.last_seen = now_ms;
                match protocol.handle_message(self.id.as_str(), message) {
                    Ok(reply) => ConnectionAction::Reply(reply),
                    Err(complaint) => ConnectionAction::ReplyText(
                        parse_failure_text(complaint.as_str()),
                    ),
                }
            },
            TransportEvent::Ping(payload) => {
                self.last_seen = now_ms;
                ConnectionAction::Pong(payload)
            },
            TransportEvent::Binary => {
                self.last_seen = now_ms;
                ConnectionAction::Nothing
            },
            TransportEvent::Pong => {
                self.last_seen = now_ms;
                ConnectionAction::Nothing
            },
            TransportEvent::Tick => {
                if self.is_expired(now_ms) {
                    self.state = ConnectionState::Closing;
                    protocol.remove_client(self.id.as_str());
                    ConnectionAction::Shutdown
                } else {
                    ConnectionAction::Nothing
                }
            },
            _ => {
                self.state = ConnectionState::Closing;
                protocol.remove_client(self.id.as_str());
                ConnectionAction::Shutdown
            },
        }
    }

    /// Ends the connection, whatever its state: it is `Closed`, and its
    /// session is removed from the registry, which changes nothing where it
    /// was removed before.
    pub fn close<R: ResourceProvider, P: PromptProvider, C: ChatProvider>(
        &mut self,
        protocol: &mut MCPProtocol<R, P, C>,
    )
        ensures
            final(self).id() == old(self).id(),
            final(self).window() == old(self).window(),
            final(self).last_seen() == old(self).last_seen(),
            final(self).state() == ConnectionState::Closed,
            final(protocol).defaults() == old(protocol).defaults(),
            final(protocol).info() == old(protocol).info(),
            final(protocol).sessions() == removed(old(protocol).sessions(), old(self).id()),
            !has_session(final(protocol).sessions(), old(self).id()),
    {
        self.state = ConnectionState::Closed;
        protocol.remove_client(self.id.as_str());
    }
}

/// The server: the protocol engine that all connections share.
pub struct MCPServer<R, P, C> {
    pub protocol: MCPProtocol<R, P, C>,
}

impl<R: ResourceProvider, P: PromptProvider, C: ChatProvider> MCPServer<R, P, C> {
    /// A server around `protocol`.
    pub fn new(protocol: MCPProtocol<R, P, C>) -> (r: Self)
        ensures
            r.protocol == protocol,
    {
        MCPServer { protocol }
    }

    /// Makes the server ready to take connections: sessions that were left
    /// over are removed.
    pub fn start(&mut self)
        ensures
            final(self).protocol.sessions() == Seq::<ConnectedClientView>::empty(),
            final(self).protocol.defaults() == old(self).protocol.defaults(),
            final(self).protocol.info() == old(self).protocol.info(),
    {
        self.protocol.clear_clients();
    }
}

} // verus!
