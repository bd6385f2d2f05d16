//! The accepting end.

use crate::addr::PeerAddr;
use crate::utils::server_helper::ServerConfig;
use crate::utils::server_helper::ServerConfigView;
use bytes::BytesMut;
use std::io::ErrorKind;
use std::path::PathBuf;
use vstd::prelude::*;

verus! {

/// What the supervisor of one node reports to the registry.
///
/// For one connection the messages come in this order: `Connected`, then
/// `Sender`, then any number of `Event`, then `Disconnected` once. Messages
/// of different connections come in no particular order.
#[derive(Debug)]
pub enum NodeMsg {
    /// A payload that the node sent.
    Event(PeerAddr, BytesMut),
    /// A connection from this address is up.
    Connected(PeerAddr),
    /// The connection from this address is gone, for whatever reason.
    Disconnected(PeerAddr),
    /// How to reach the node: a handle for messages to it and, where the
    /// supervisor offers one, a handle that asks it to close the connection.
    Sender(
        PeerAddr,
        tokio::sync::mpsc::Sender<BytesMut>,
        Option<tokio::sync::oneshot::Sender<()>>,
    ),
}

impl NodeMsg {
    /// The address of the node that the message is about.
    pub open spec fn spec_address(self) -> PeerAddr {
        match self {
            NodeMsg::Event(a, _) => a,
            NodeMsg::Connected(a) => a,
            NodeMsg::Disconnected(a) => a,
            NodeMsg::Sender(a, _, _) => a,
        }
    }

    /// The address of the node that the message is about.
    pub fn address(&self) -> (a: PeerAddr)
        ensures
            a == self.spec_address(),
    {
        match self {
            NodeMsg::Event(a, _) => *a,
            NodeMsg::Connected(a) => *a,
            NodeMsg::Disconnected(a) => *a,
            NodeMsg::Sender(a, _, _) => *a,
        }
    }
}

/// A server that has its configuration and has not started to listen.
#[derive(Debug)]
pub struct Server {
    config: ServerConfig,
}

impl Server {
    /// The configuration this server listens with.
    pub closed spec fn spec_config(&self) -> ServerConfig {
        self.config
    }

    /// A server for the given settings. Nothing is opened or read yet, so
    /// this never fails.
    pub fn from_args(
        host: String,
        port: u16,
        tls_enabled: bool,
        cert_file: PathBuf,
        key_file: PathBuf,
    ) -> (r: Result<Server, std::io::Error>)
        ensures
            r matches Ok(s) && s.spec_config()@ == (ServerConfigView {
                host: host@,
                port,
                tls_enabled,
                cert_file,
                key_file,
            }),
    {
        Ok(Server { config: ServerConfig::from_args(host, port, tls_enabled, cert_file, key_file) })
    }

    /// The configuration this server listens with.
    pub fn config(&self) -> (c: &ServerConfig)
        ensures
            *c == self.spec_config(),
    {
        &self.config
    }

    /// Whether the server accepts connections at all. It does when TLS is
    /// enabled; without TLS it binds its address and serves nobody.
    pub fn accepts(&self) -> (b: bool)
        ensures
            b == self.spec_config()@.tls_enabled,
    {
        self.config.is_tls_enabled()
    }
}

/// What the listener is told.
#[derive(Debug)]
pub enum ListenerEvent {
    /// A peer at this address has connected.
    Accepted(PeerAddr),
    /// Accepting a connection failed with an error of this kind.
    AcceptFailed(ErrorKind),
    /// The handshake with the peer at this address is done.
    HandshakeDone(PeerAddr),
    /// The handshake with the peer at this address failed.
    HandshakeFailed(PeerAddr, ErrorKind),
}

/// What the listener does next.
#[derive(Clone, Copy, Debug, PartialEq, Eq, Structural)]
pub enum ListenerAction {
    /// Start the handshake with this peer in a task of its own and go on
    /// accepting.
    Handshake(PeerAddr),
    /// Start the supervisor of this node and go on accepting.
    Supervise(PeerAddr),
    /// Give this one connection up and go on accepting.
    Discard(PeerAddr),
    /// Stop listening and report the error as fatal.
    Stop,
}

/// The rule of the listener.
///
/// Every peer that connects gets its handshake and then its supervisor. A
/// handshake that fails costs that one connection and nothing else. No
/// error of the listener itself is retried: whatever its kind, it stops the
/// listener and is reported.
pub open spec fn listener_plan(event: ListenerEvent) -> ListenerAction {
    match event {
        ListenerEvent::Accepted(a) => ListenerAction::Handshake(a),
        ListenerEvent::AcceptFailed(_) => ListenerAction::Stop,
        ListenerEvent::HandshakeDone(a) => ListenerAction::Supervise(a),
        ListenerEvent::HandshakeFailed(a, _) => ListenerAction::Discard(a),
    }
}

/// Decides what the listener does after `event`.
pub fn listener_step(event: ListenerEvent) -> (action: ListenerAction)
    ensures
        action == listener_plan(event),
{
    match event {
        ListenerEvent::Accepted(a) => ListenerAction::Handshake(a),
        ListenerEvent::AcceptFailed(_) => ListenerAction::Stop,
        ListenerEvent::HandshakeDone(a) => ListenerAction::Supervise(a),
        ListenerEvent::HandshakeFailed(a, _) => ListenerAction::Discard(a),
    }
}

/// The failure of one connection, at its handshake, never stops the
/// listener; only a failure to accept does.
pub proof fn lemma_only_accept_failures_stop(event: ListenerEvent)
    ensures
        listener_plan(event) == ListenerAction::Stop <==> event is AcceptFailed,
{
}

} // verus!
