//! Messages, addresses and timing limits shared by the target and the proxy.

use vstd::prelude::*;
use vstd::string::*;

use crate::text::{decimal_text, id_text, quote};

verus! {

/// TCP port used for control connections unless another one is configured.
pub const DEFAULT_CONTROL_PORT: u16 = 7835;

/// Limit of a single TCP connect, in milliseconds.
pub const CONNECT_TIMEOUT: u64 = 2_000;

/// Limit of one wait for the peer: a handshake message, a heartbeat response or a tunnel
/// probe, in milliseconds.
pub const NETWORK_TIMEOUT: u64 = 2_000;

/// Limit of a complete control connection attempt, in milliseconds.
pub const CONNECTION_ATTEMPT_TIMEOUT: u64 = 3_000;

/// Time between two control heartbeats of a reliable session, in milliseconds.
pub const HEALTH_CHECK_INTERVAL: u64 = 2_000;

/// Time between two checks of the target's backend, in milliseconds.
pub const BACKEND_CHECK_INTERVAL: u64 = 5_000;

/// Consecutive failures after which a reliable session is given up.
pub const HEALTH_FAILURE_THRESHOLD: u32 = 2;

/// Message sent by the target.
#[derive(Debug, PartialEq, Eq)]
pub enum ClientMessage {
    /// Answer to an authentication challenge.
    Authenticate(String),
    /// Request for a consumer port; zero asks for any.
    Hello(u16),
    /// The sender is ready to serve the connection with this identifier.
    Accept(u128),
    /// Response to a health check: its nonce, and whether the backend is reachable.
    Health(u128, bool),
}

/// Message sent by the proxy.
#[derive(Debug, PartialEq, Eq)]
pub enum ServerMessage {
    /// Authentication challenge.
    Challenge(u128),
    /// The consumer port that was bound.
    Hello(u16),
    /// Keeps an idle connection open.
    Heartbeat,
    /// Asks the target to serve the connection with this identifier.
    Connection(u128),
    /// Asks for a health report with this nonce.
    HealthCheck(u128),
    /// Asks the target to try the complete tunnel path once.
    TunnelProbe(u128),
    /// The proxy gives up, with a reason.
    Error(String),
}

/// What the agent distinguishes among the failures of an I/O operation.
#[derive(Debug, Clone, Copy, PartialEq, Eq, Structural)]
pub enum ErrorKind {
    AddrInUse,
    PermissionDenied,
    ConnectionReset,
    BrokenPipe,
    Other,
}

/// An IP address, as the number that its bytes in network order stand for.
#[derive(Debug, Clone, Copy, PartialEq, Eq, Structural)]
pub enum IpAddr {
    V4(u32),
    V6(u128),
}

/// An IP address with a TCP port. The last two fields are zero for IPv4.
#[derive(Debug, Clone, Copy, PartialEq, Eq, Structural)]
pub struct SocketAddr {
    pub ip: IpAddr,
    pub port: u16,
    pub flowinfo: u32,
    pub scope_id: u32,
}

/// A TCP endpoint given by host name.
#[derive(Debug, PartialEq, Eq)]
pub struct Endpoint {
    pub host: String,
    pub port: u16,
}

/// The address under which a listener bound to `listener` is reached from the same host: an
/// unspecified address is replaced by the loopback address of its family.
pub open spec fn reachable_address(listener: SocketAddr) -> SocketAddr {
    SocketAddr {
        ip: match listener.ip {
            IpAddr::V4(bits) => IpAddr::V4(if bits == 0 { 0x7f00_0001 } else { bits }),
            IpAddr::V6(bits) => IpAddr::V6(if bits == 0 { 1 } else { bits }),
        },
        port: listener.port,
        flowinfo: 0,
        scope_id: 0,
    }
}

/// Returns the address to connect to in order to reach a local listener.
pub fn probe_address(listener: SocketAddr) -> (address: SocketAddr)
    ensures
        address == reachable_address(listener),
{
    let ip = match listener.ip {
        IpAddr::V4(bits) => IpAddr::V4(if bits == 0 { 0x7f00_0001 } else { bits }),
        IpAddr::V6(bits) => IpAddr::V6(if bits == 0 { 1 } else { bits }),
    };
    SocketAddr { ip, port: listener.port, flowinfo: 0, scope_id: 0 }
}

/// The text of a message for debugging, where `tag` stands for that of an authentication tag.
pub open spec fn message_notation(message: ClientMessage, tag: Seq<char>) -> Seq<char> {
    match message {
        ClientMessage::Authenticate(_) => "Authenticate("@ + tag + ")"@,
        ClientMessage::Hello(port) => "Hello("@ + crate::text::decimal(port as nat) + ")"@,
        ClientMessage::Accept(id) => "Accept("@ + crate::text::id_notation(id) + ")"@,
        ClientMessage::Health(nonce, reachable) => "Health("@ + crate::text::id_notation(nonce)
            + (if reachable { ", true)"@ } else { ", false)"@ }),
    }
}

/// The text of a message for debugging.
pub open spec fn debug_text(message: ClientMessage) -> Seq<char> {
    match message {
        ClientMessage::Authenticate(tag) => message_notation(
            message,
            crate::text::quotation(tag@),
        ),
        _ => message_notation(message, ""@),
    }
}

impl ClientMessage {
    /// Returns the text of the message for debugging.
    pub fn debug(&self) -> (text: String)
        ensures
            text@ == debug_text(*self),
    {
        match self {
            ClientMessage::Authenticate(tag) => self.debug_with(&quote(tag)),
            _ => self.debug_with(""),
        }
    }

    /// Returns the text of the message for debugging, where `tag` stands for that of an
    /// authentication tag.
    pub fn debug_with(&self, tag: &str) -> (text: String)
        ensures
            text@ == message_notation(*self, tag@),
    {
        match self {
            ClientMessage::Authenticate(_) => {
                let mut text = "Authenticate(".to_owned();
                text.append(tag);
                text.append(")");
                text
            },
            ClientMessage::Hello(port) => {
                let mut text = "Hello(".to_owned();
                text.append(&decimal_text(*port as usize));
                text.append(")");
                text
            },
            ClientMessage::Accept(id) => {
                let mut text = "Accept(".to_owned();
                text.append(&id_text(*id));
                text.append(")");
                text
            },
            ClientMessage::Health(nonce, reachable) => {
                let mut text = "Health(".to_owned();
                text.append(&id_text(*nonce));
                text.append(if *reachable { ", true)" } else { ", false)" });
                text
            },
        }
    }
}

/// The text of a failure to connect to an endpoint.
pub open spec fn connect_failure(endpoint: Endpoint) -> Seq<char> {
    "could not connect to "@ + endpoint.host@ + ":"@ + crate::text::decimal(endpoint.port as nat)
}

impl Endpoint {
    /// Returns the text of a failure to connect.
    pub fn connect_failure(&self) -> (text: String)
        ensures
            text@ == connect_failure(*self),
    {
        let mut text = "could not connect to ".to_owned();
        text.append(&self.host);
        text.append(":");
        text.append(&decimal_text(self.port as usize));
        text
    }
}

/// One step of joining an accepted connection to the stream that waited for it. The steps are
/// performed in order.
#[derive(Debug, PartialEq, Eq)]
pub enum RelayStep {
    /// Write these bytes, which arrived behind the accept message, to the waiting stream.
    Write(Vec<u8>),
    /// Carry bytes both ways, in order, until both sides have closed.
    Carry,
}

/// Joining a connection on which some bytes have been read already.
pub open spec fn relay_steps(buffered: Vec<u8>) -> Seq<RelayStep> {
    seq![RelayStep::Write(buffered), RelayStep::Carry]
}

/// Returns the steps that join an accepted connection to the stream that waited for it.
pub fn relay(buffered: Vec<u8>) -> (steps: Vec<RelayStep>)
    ensures
        steps@ == relay_steps(buffered),
{
    let mut steps: Vec<RelayStep> = Vec::new();
    steps.push(RelayStep::Write(buffered));
    steps.push(RelayStep::Carry);
    steps
}

/// What the waiting stream receives through some steps, when `unread` are the bytes that had
/// not been read before.
pub open spec fn delivered(steps: Seq<RelayStep>, unread: Seq<u8>) -> Seq<u8>
    decreases steps.len(),
{
    if steps.len() == 0 {
        seq![]
    } else {
        delivered(steps.drop_last(), unread) + match steps.last() {
            RelayStep::Write(bytes) => bytes@,
            RelayStep::Carry => unread,
        }
    }
}

/// Law: the waiting stream receives every byte that was sent behind the accept message, those
/// that had been read already first, and each of them once.
pub proof fn law_relay_keeps_order(buffered: Vec<u8>, unread: Seq<u8>)
    ensures
        delivered(relay_steps(buffered), unread) == buffered@ + unread,
        relay_steps(buffered).len() == 2,
        relay_steps(buffered)[0] == RelayStep::Write(buffered),
        relay_steps(buffered)[1] == RelayStep::Carry,
{
    let steps = relay_steps(buffered);
    reveal_with_fuel(delivered, 3);
    assert(steps.drop_last() =~= seq![RelayStep::Write(buffered)]);
    assert(steps.drop_last().drop_last() =~= seq![]);
    assert(delivered(steps, unread) =~= buffered@ + unread);
}

/// Law: a blackholed proxy costs at most three seconds per attempt, and no single wait inside
/// an attempt is longer than the attempt. A lost backend is noticed within eight seconds: one
/// check interval and one connect.
pub proof fn law_bounded_waits()
    ensures
        CONNECTION_ATTEMPT_TIMEOUT <= 3_000,
        CONNECT_TIMEOUT <= CONNECTION_ATTEMPT_TIMEOUT,
        NETWORK_TIMEOUT <= CONNECTION_ATTEMPT_TIMEOUT,
        BACKEND_CHECK_INTERVAL + CONNECT_TIMEOUT <= 8_000,
{
}

/// Law: the limits and intervals of the protocol, in seconds, the number of failures that end a
/// session, and the port where a proxy is found unless another one is configured.
pub proof fn law_protocol_constants()
    ensures
        CONNECT_TIMEOUT == 2 * 1_000,
        NETWORK_TIMEOUT == 2 * 1_000,
        CONNECTION_ATTEMPT_TIMEOUT == 3 * 1_000,
        HEALTH_CHECK_INTERVAL == 2 * 1_000,
        BACKEND_CHECK_INTERVAL == 5 * 1_000,
        HEALTH_FAILURE_THRESHOLD == 2,
        DEFAULT_CONTROL_PORT == 7835,
{
}

/// Law: a local listener is reached at its own port, and at its own address unless it listens on
/// all addresses, when it is reached at the loopback address of the same family. That is never
/// an unspecified address.
pub proof fn law_probe_address(listener: SocketAddr)
    ensures
        ({
            let reached = reachable_address(listener);
            &&& reached.port == listener.port
            &&& reached.flowinfo == 0
            &&& reached.scope_id == 0
            &&& listener.ip != IpAddr::V4(0) && listener.ip != IpAddr::V6(0) ==> reached.ip
                == listener.ip
            &&& listener.ip == IpAddr::V4(0) ==> reached.ip == IpAddr::V4(0x7f00_0001)
            &&& listener.ip == IpAddr::V6(0) ==> reached.ip == IpAddr::V6(1)
            &&& reached.ip != IpAddr::V4(0) && reached.ip != IpAddr::V6(0)
        }),
{
}

/// Law: the text of a message for debugging is the name of its kind, with what it carries in
/// brackets.
pub proof fn law_debug_text(tag: String, port: u16, id: u128, given: Seq<char>)
    ensures
        debug_text(ClientMessage::Authenticate(tag)) == "Authenticate("@ + crate::text::quotation(
            tag@,
        ) + ")"@,
        message_notation(ClientMessage::Authenticate(tag), given) == "Authenticate("@ + given
            + ")"@,
        debug_text(ClientMessage::Hello(port)) == "Hello("@ + crate::text::decimal(port as nat)
            + ")"@,
        debug_text(ClientMessage::Accept(id)) == "Accept("@ + crate::text::id_notation(id) + ")"@,
        debug_text(ClientMessage::Health(id, true)) == "Health("@ + crate::text::id_notation(id)
            + ", true)"@,
        debug_text(ClientMessage::Health(id, false)) == "Health("@ + crate::text::id_notation(id)
            + ", false)"@,
        message_notation(ClientMessage::Hello(port), given) == debug_text(
            ClientMessage::Hello(port),
        ),
        message_notation(ClientMessage::Accept(id), given) == debug_text(ClientMessage::Accept(id)),
        message_notation(ClientMessage::Health(id, true), given) == debug_text(
            ClientMessage::Health(id, true),
        ),
        message_notation(ClientMessage::Health(id, false), given) == debug_text(
            ClientMessage::Health(id, false),
        ),
{
}

/// Law: a failure to connect names the host and the port that could not be reached.
pub proof fn law_connect_failure(endpoint: Endpoint)
    ensures
        connect_failure(endpoint) == "could not connect to "@ + endpoint.host@ + ":"@
            + crate::text::decimal(endpoint.port as nat),
{
}

} // verus!
