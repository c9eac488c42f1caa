//! The proxy: it binds consumer ports for targets and announces the connections that arrive.

use core::ops::RangeInclusive;
use vstd::prelude::*;
use vstd::string::*;

use crate::health::{serve, HealthState};
use crate::random::{random_id, random_port};
use crate::registry::{Accepted, Registry};
use crate::shared::{
    ClientMessage, ErrorKind, IpAddr, ServerMessage, SocketAddr, DEFAULT_CONTROL_PORT,
    HEALTH_FAILURE_THRESHOLD, NETWORK_TIMEOUT,
};
use crate::text::decimal_text;

verus! {

/// How often a free port is looked for.
///
/// To find one with probability at least 1-d, when a proportion e of the ports is free, it
/// suffices to try about -2 ln(d) / e of them at random. This many tries succeed in 99.999
/// percent of the cases with 85 percent of the ports in use.
pub const MAX_BIND_TRIES: u32 = 150;

/// How long a consumer connection waits to be accepted, in milliseconds.
pub const STALE_AFTER: u64 = 10_000;

/// Time between two heartbeats of a standard session, in milliseconds.
pub const HEARTBEAT_INTERVAL: u64 = 500;

/// Why no consumer port was bound.
#[derive(Debug, Clone, Copy, PartialEq, Eq, Structural)]
pub enum ListenError {
    /// The requested port may not be forwarded.
    OutOfRange,
    /// The requested port is taken.
    AddrInUse,
    /// The requested port is reserved.
    PermissionDenied,
    /// The requested port could not be bound.
    BindFailed,
    /// None of the ports that were tried is free.
    NoneAvailable,
}

/// Why a target is turned away.
#[derive(Debug, PartialEq, Eq)]
pub enum Refusal {
    /// Authentication failed, with a reason.
    Handshake(String),
    /// No consumer port was bound.
    Listen(ListenError),
    /// Another reliable session is active.
    Busy,
}

/// The text that is sent to a target that is turned away.
pub open spec fn refusal_text(refusal: Refusal) -> Seq<char> {
    match refusal {
        Refusal::Handshake(reason) => reason@,
        Refusal::Listen(ListenError::OutOfRange) => "client port number not in allowed range"@,
        Refusal::Listen(ListenError::AddrInUse) => "port already in use"@,
        Refusal::Listen(ListenError::PermissionDenied) => "permission denied"@,
        Refusal::Listen(ListenError::BindFailed) => "failed to bind to port"@,
        Refusal::Listen(ListenError::NoneAvailable) => "failed to find an available port"@,
        Refusal::Busy => "a reliable session is already active"@,
    }
}

impl Refusal {
    /// Returns the text that is sent to the target.
    pub fn message(&self) -> (text: String)
        ensures
            text@ == refusal_text(*self),
    {
        match self {
            Refusal::Handshake(reason) => reason.as_str().to_owned(),
            Refusal::Listen(error) => match error {
                ListenError::OutOfRange => "client port number not in allowed range".to_owned(),
                ListenError::AddrInUse => "port already in use".to_owned(),
                ListenError::PermissionDenied => "permission denied".to_owned(),
                ListenError::BindFailed => "failed to bind to port".to_owned(),
                ListenError::NoneAvailable => "failed to find an available port".to_owned(),
            },
            Refusal::Busy => "a reliable session is already active".to_owned(),
        }
    }
}

/// The search for a consumer port.
#[derive(Debug, Clone, Copy, PartialEq, Eq, Structural)]
pub struct PortSearch {
    /// The port that the target asked for; zero for any.
    pub requested: u16,
    /// How many ports have been tried.
    pub tried: u32,
}

/// The next step of the search for a consumer port.
#[derive(Debug, Clone, Copy, PartialEq, Eq, Structural)]
pub enum BindStep {
    /// Try to bind this port.
    TryBind(u16),
    /// Give up.
    Refuse(ListenError),
}

/// Model of a [`Server`].
pub struct ServerView {
    pub min_port: u16,
    pub max_port: u16,
    pub secret: Option<String>,
    pub bind_addr: IpAddr,
    pub bind_tunnels: IpAddr,
    pub control_port: u16,
    pub reliable: bool,
    pub health_addr: Option<SocketAddr>,
    pub health: crate::health::HealthView,
    pub registry: crate::registry::RegistryView,
    pub active: bool,
}

impl ServerView {
    /// At least one port can be forwarded.
    pub open spec fn wf(self) -> bool {
        self.min_port <= self.max_port
    }

    /// Whether a port may be forwarded.
    pub open spec fn allows(self, port: u16) -> bool {
        self.min_port <= port <= self.max_port
    }
}

/// The first step of a search: the requested port if it may be forwarded, or a drawn one.
pub open spec fn first_bind(server: ServerView, port: u16, draw: u16) -> (PortSearch, BindStep) {
    if port > 0 && !server.allows(port) {
        (
            PortSearch { requested: port, tried: 0 },
            BindStep::Refuse(ListenError::OutOfRange),
        )
    } else {
        (
            PortSearch { requested: port, tried: 1 },
            BindStep::TryBind(if port > 0 { port } else { draw }),
        )
    }
}

/// What a failure to bind a requested port is reported as.
pub open spec fn bind_error(kind: ErrorKind) -> ListenError {
    match kind {
        ErrorKind::AddrInUse => ListenError::AddrInUse,
        ErrorKind::PermissionDenied => ListenError::PermissionDenied,
        _ => ListenError::BindFailed,
    }
}

/// The step after a failure to bind: a requested port is not tried again, any other search goes
/// on with a drawn port until the tries are used up.
pub open spec fn next_bind(search: PortSearch, kind: ErrorKind, draw: u16) -> (
    PortSearch,
    BindStep,
) {
    if search.requested > 0 {
        (search, BindStep::Refuse(bind_error(kind)))
    } else if search.tried >= MAX_BIND_TRIES {
        (search, BindStep::Refuse(ListenError::NoneAvailable))
    } else {
        (
            PortSearch { tried: (search.tried + 1) as u32, ..search },
            BindStep::TryBind(draw),
        )
    }
}

/// How the handling of a connection ended.
#[derive(Debug, PartialEq, Eq)]
pub enum ConnectionEnd {
    /// Without an error.
    Closed,
    /// With an error, for this reason.
    Failed(String),
}

/// What happened to a proxy that listens for control connections.
#[derive(Debug, PartialEq, Eq)]
pub enum ListenEvent {
    /// The proxy was started.
    Started,
    /// The control port was bound.
    Bound,
    /// The control port could not be bound, for this reason.
    BindFailed(String),
    /// A connection was accepted.
    Accepted,
    /// No connection can be accepted, for this reason.
    AcceptFailed(String),
    /// The handling of a connection ended.
    ConnectionEnded(ConnectionEnd),
    /// The handling of a connection was cut short by a failure of the process itself, and with
    /// it a consumer port that the connection had; it says whether the connection held the
    /// place of the session.
    HandlerLost(bool),
}

/// What a proxy that listens for control connections does next.
#[derive(Debug, PartialEq, Eq)]
pub enum ListenAction {
    /// Bind the control port at this address.
    Bind(SocketAddr),
    /// Wait for a connection to be accepted, and for the handling of the earlier ones.
    Accept,
    /// Handle the accepted connection in the background, and wait as before.
    Serve,
    /// Stop listening with an error, for this reason.
    Stop(String),
}

/// The transitions of a proxy that listens for control connections. Only the loss of the handler
/// of a reliable session is a failure of the process as a whole; the session's place is free
/// then.
pub open spec fn listen_step(server: ServerView, event: ListenEvent) -> (ServerView, ListenAction) {
    match event {
        ListenEvent::Started => (
            server,
            ListenAction::Bind(
                SocketAddr {
                    ip: server.bind_addr,
                    port: server.control_port,
                    flowinfo: 0,
                    scope_id: 0,
                },
            ),
        ),
        ListenEvent::Bound => (server, ListenAction::Accept),
        ListenEvent::BindFailed(reason) => (server, ListenAction::Stop(reason)),
        ListenEvent::Accepted => (server, ListenAction::Serve),
        ListenEvent::AcceptFailed(reason) => (server, ListenAction::Stop(reason)),
        ListenEvent::ConnectionEnded(_) => (server, ListenAction::Accept),
        ListenEvent::HandlerLost(held) => (
            if server.reliable && server.active && held {
                let free = released(server);
                ServerView { health: free.health.without_liveness(), ..free }
            } else {
                server
            },
            ListenAction::Accept,
        ),
    }
}

/// What happened to a connection before or beside its session.
#[derive(Debug, PartialEq, Eq)]
pub enum ControlEvent {
    /// The peer did not authenticate, with a reason.
    HandshakeFailed(String),
    /// The peer's first message could not be read, or not in time, for this reason.
    ReadFailed(String),
    /// The peer's first message, or none because it closed the connection.
    Message(Option<ClientMessage>),
    /// No consumer port was bound.
    ListenerFailed(ListenError),
    /// This consumer port was bound.
    ListenerReady(u16),
    /// The greeting was sent.
    Greeted,
    /// The greeting could not be sent, or the bound port not be read, for this reason.
    GreetingFailed(String),
    /// The peer was joined with a consumer connection until both sides closed or, with an error,
    /// until either failed.
    RelayEnded(ConnectionEnd),
    /// The consumer port was given up after the session, or the attempt at one, ended so.
    ListenerDropped(ConnectionEnd),
}

/// What to do with a connection next.
#[derive(Debug, PartialEq, Eq)]
pub enum ControlAction {
    /// Send the reason as an error and close.
    Reject(Refusal),
    /// Look for a consumer port, starting from this request.
    Listen(u16),
    /// Greet the target with the consumer port.
    Greet(u16),
    /// Run a reliable session.
    RunReliable,
    /// Run a standard session.
    RunStandard,
    /// Report the tunnel probe with this handle as completed, and close.
    CompleteProbe(u64),
    /// Join this peer with the consumer connection with this handle.
    Relay(u64),
    /// Give up the consumer port. The connection ends so.
    DropListener(ConnectionEnd),
    /// Close without an error.
    Close,
    /// Close with an error, for this reason.
    Fail(String),
}

/// Whether a connection holds the place of the session while an action is performed: from the
/// search for a consumer port until the port has been given up.
pub open spec fn holding(action: ControlAction) -> bool {
    match action {
        ControlAction::Listen(_) => true,
        ControlAction::Greet(_) => true,
        ControlAction::RunReliable => true,
        ControlAction::RunStandard => true,
        ControlAction::DropListener(_) => true,
        _ => false,
    }
}

impl ControlAction {
    /// Returns whether the connection holds the place of the session while the action is
    /// performed.
    pub fn holds_place(&self) -> (holds: bool)
        ensures
            holds == holding(*self),
    {
        match self {
            ControlAction::Listen(_) => true,
            ControlAction::Greet(_) => true,
            ControlAction::RunReliable => true,
            ControlAction::RunStandard => true,
            ControlAction::DropListener(_) => true,
            _ => false,
        }
    }

    /// Returns the message that the action sends: a refusal is answered with its text, and a
    /// greeting names the consumer port.
    pub fn message(&self) -> (message: Option<ServerMessage>)
        ensures
            match *self {
                ControlAction::Reject(refusal) => {
                    &&& message matches Some(ServerMessage::Error(text))
                    &&& text@ == refusal_text(refusal)
                },
                ControlAction::Greet(port) => message == Some(ServerMessage::Hello(port)),
                _ => message is None,
            },
    {
        match self {
            ControlAction::Reject(refusal) => Some(ServerMessage::Error(refusal.message())),
            ControlAction::Greet(port) => Some(ServerMessage::Hello(*port)),
            _ => None,
        }
    }
}

/// The proxy after a reliable session has ended: nothing that the session left behind waits any
/// more, and the target is no longer connected. The session's consumer port may still be bound,
/// so no other session may begin. Liveness stays as it is.
pub open spec fn withdrawn(server: ServerView) -> ServerView {
    ServerView {
        health: server.health.with_control(false),
        registry: crate::registry::RegistryView::empty(),
        ..server
    }
}

/// The proxy after the consumer port of a reliable session has been given up too: another
/// session may begin.
pub open spec fn released(server: ServerView) -> ServerView {
    ServerView { active: false, ..withdrawn(server) }
}

/// What concludes a connection whose handling ended so.
pub open spec fn conclusion(end: ConnectionEnd) -> ControlAction {
    match end {
        ConnectionEnd::Closed => ControlAction::Close,
        ConnectionEnd::Failed(reason) => ControlAction::Fail(reason),
    }
}

fn conclude(end: ConnectionEnd) -> (action: ControlAction)
    ensures
        action == conclusion(end),
{
    match end {
        ConnectionEnd::Closed => ControlAction::Close,
        ConnectionEnd::Failed(reason) => ControlAction::Fail(reason),
    }
}

/// The transitions of a connection before or beside its session.
pub open spec fn control_step(server: ServerView, event: ControlEvent) -> (
    ServerView,
    ControlAction,
) {
    match event {
        ControlEvent::HandshakeFailed(reason) => (
            server,
            ControlAction::Reject(Refusal::Handshake(reason)),
        ),
        ControlEvent::ReadFailed(reason) => (server, ControlAction::Fail(reason)),
        ControlEvent::Message(Some(ClientMessage::Hello(port))) => if !server.reliable {
            (server, ControlAction::Listen(port))
        } else if server.active {
            (server, ControlAction::Reject(Refusal::Busy))
        } else {
            (ServerView { active: true, ..server }, ControlAction::Listen(port))
        },
        ControlEvent::Message(Some(ClientMessage::Accept(id))) => (
            ServerView { registry: server.registry.after_accept(id), ..server },
            match server.registry.accepted(id) {
                Accepted::Probe(handle) => ControlAction::CompleteProbe(handle),
                Accepted::Connection(handle) => ControlAction::Relay(handle),
                Accepted::Missing => ControlAction::Close,
            },
        ),
        ControlEvent::Message(_) => (server, ControlAction::Close),
        ControlEvent::ListenerFailed(error) => (
            if server.reliable { released(server) } else { server },
            ControlAction::Reject(Refusal::Listen(error)),
        ),
        ControlEvent::ListenerReady(port) => (server, ControlAction::Greet(port)),
        ControlEvent::Greeted => if server.reliable {
            (
                ServerView { health: server.health.with_control(true), ..server },
                ControlAction::RunReliable,
            )
        } else {
            (server, ControlAction::RunStandard)
        },
        ControlEvent::GreetingFailed(reason) => (
            if server.reliable { withdrawn(server) } else { server },
            ControlAction::DropListener(ConnectionEnd::Failed(reason)),
        ),
        ControlEvent::RelayEnded(end) => (server, conclusion(end)),
        ControlEvent::ListenerDropped(end) => (
            if server.reliable { released(server) } else { server },
            conclusion(end),
        ),
    }
}

/// What happened in a standard session.
#[derive(Debug, PartialEq, Eq)]
pub enum StandardEvent {
    /// The session was started.
    Started,
    /// A heartbeat was sent.
    HeartbeatSent,
    /// A heartbeat could not be sent.
    HeartbeatFailed,
    /// A consumer connected; its connection is kept under this handle.
    Incoming(u64),
    /// No consumer connected until the next heartbeat was due.
    Idle,
    /// A connection was announced.
    Announced,
    /// Consumers cannot be accepted, or a connection could not be announced, for this reason.
    Failed(String),
}

/// What a standard session does next. Times are in milliseconds.
#[derive(Debug, PartialEq, Eq)]
pub enum StandardAction {
    /// Send a heartbeat.
    Heartbeat,
    /// Wait so long for a consumer, until the next heartbeat is due.
    Accept(u64),
    /// Announce the connection with this identifier, which may wait so long to be accepted.
    Announce(u128, u64),
    /// End the session.
    End(ConnectionEnd),
}

/// The message that an action of a standard session sends.
pub open spec fn standard_message(action: StandardAction) -> Option<ServerMessage> {
    match action {
        StandardAction::Heartbeat => Some(ServerMessage::Heartbeat),
        StandardAction::Announce(id, _) => Some(ServerMessage::Connection(id)),
        _ => None,
    }
}

impl StandardAction {
    /// Returns the message that the action sends.
    pub fn message(&self) -> (message: Option<ServerMessage>)
        ensures
            message == standard_message(*self),
    {
        match self {
            StandardAction::Heartbeat => Some(ServerMessage::Heartbeat),
            StandardAction::Announce(id, _) => Some(ServerMessage::Connection(*id)),
            _ => None,
        }
    }
}

/// The transitions of a standard session. A consumer connection is registered under `id`.
pub open spec fn standard_step(server: ServerView, event: StandardEvent, id: u128) -> (
    ServerView,
    StandardAction,
) {
    match event {
        StandardEvent::Started => (server, StandardAction::Heartbeat),
        StandardEvent::HeartbeatSent => (server, StandardAction::Accept(HEARTBEAT_INTERVAL)),
        StandardEvent::HeartbeatFailed => (server, StandardAction::End(ConnectionEnd::Closed)),
        StandardEvent::Incoming(handle) => (
            ServerView { registry: server.registry.with_connection(id, handle), ..server },
            StandardAction::Announce(id, STALE_AFTER),
        ),
        StandardEvent::Idle => (server, StandardAction::Heartbeat),
        StandardEvent::Announced => (server, StandardAction::Heartbeat),
        StandardEvent::Failed(reason) => (
            server,
            StandardAction::End(ConnectionEnd::Failed(reason)),
        ),
    }
}

/// What a message means to a proxy that waits for a health report.
#[derive(Debug, PartialEq, Eq)]
pub enum HealthReply {
    /// The report: whether the backend is reachable.
    Report(bool),
    /// A late report on an earlier check, which is ignored.
    Stale,
    /// A message that has no place here.
    Unexpected(ClientMessage),
    /// The target closed the connection.
    Closed,
}

/// What a message means to a proxy that waits for the report with this nonce.
pub open spec fn health_reply(message: Option<ClientMessage>, expected_nonce: u128) -> HealthReply {
    match message {
        Some(ClientMessage::Health(nonce, reachable)) => if nonce == expected_nonce {
            HealthReply::Report(reachable)
        } else {
            HealthReply::Stale
        },
        Some(other) => HealthReply::Unexpected(other),
        None => HealthReply::Closed,
    }
}

/// Classifies a message that arrived while a health report is awaited.
pub fn receive_health(message: Option<ClientMessage>, expected_nonce: u128) -> (reply: HealthReply)
    ensures
        reply == health_reply(message, expected_nonce),
{
    match message {
        Some(ClientMessage::Health(nonce, reachable)) => {
            if nonce == expected_nonce {
                HealthReply::Report(reachable)
            } else {
                HealthReply::Stale
            }
        },
        Some(other) => HealthReply::Unexpected(other),
        None => HealthReply::Closed,
    }
}

/// How much longer a report is awaited after a wait of so many milliseconds: a check has one
/// limit, however many messages arrive meanwhile.
pub open spec fn reply_time_left(waited: u64) -> u64 {
    if waited < NETWORK_TIMEOUT {
        (NETWORK_TIMEOUT - waited) as u64
    } else {
        0
    }
}

/// The counters of a reliable session.
#[derive(Debug, Clone, Copy, PartialEq, Eq, Structural)]
pub struct ReliableSession {
    /// Heartbeats without a valid response, in a row.
    pub control_failures: u32,
    /// Tunnel probes that failed, in a row.
    pub tunnel_failures: u32,
    /// Nonce of the latest health check.
    pub nonce: u128,
    /// Identifier of the latest tunnel probe.
    pub probe: u128,
}

impl ReliableSession {
    /// A session with too many failures is over.
    pub open spec fn wf(self) -> bool {
        &&& self.control_failures < HEALTH_FAILURE_THRESHOLD
        &&& self.tunnel_failures < HEALTH_FAILURE_THRESHOLD
    }

    pub open spec fn fresh() -> ReliableSession {
        ReliableSession { control_failures: 0, tunnel_failures: 0, nonce: 0, probe: 0 }
    }

    /// Creates the counters of a session that begins.
    pub fn new() -> (session: ReliableSession)
        ensures
            session == ReliableSession::fresh(),
            session.wf(),
    {
        ReliableSession { control_failures: 0, tunnel_failures: 0, nonce: 0, probe: 0 }
    }
}

/// What happened in a reliable session.
#[derive(Debug, PartialEq, Eq)]
pub enum ReliableEvent {
    /// The next heartbeat is due.
    CheckDue,
    /// The target sent a message, or closed the connection, so many milliseconds after the check
    /// whose report is awaited.
    Reply(Option<ClientMessage>, u64),
    /// The report did not come in time.
    ReplyMissed,
    /// A connection through the consumer port was opened to probe the tunnel; its completion
    /// is reported under this handle.
    ProbeOpened(u64),
    /// The target accepted the probe.
    ProbePassed,
    /// The probe was not accepted in time.
    ProbeFailed,
    /// No connection through the consumer port could be opened to probe the tunnel.
    ProbeNotOpened,
    /// A consumer connected; its connection is kept under this handle.
    Incoming(u64),
    /// A consumer connection was announced.
    Announced,
    /// The control connection or the consumer port failed, for this reason.
    Failed(String),
}

/// Why a reliable session ended.
#[derive(Debug, PartialEq, Eq)]
pub enum ReliableEnd {
    /// The target closed the control connection.
    Closed,
    /// The target sent a message that has no place in a session.
    Unexpected(ClientMessage),
    /// Too many heartbeats in a row were not answered.
    ControlLost,
    /// Too many tunnel probes in a row failed.
    TunnelBroken,
    /// The control connection or the consumer port failed, for this reason.
    Failed(String),
}

/// The text of the reason why a session ended.
pub open spec fn end_text(end: ReliableEnd) -> Seq<char> {
    match end {
        ReliableEnd::Closed => "control connection closed"@,
        ReliableEnd::Unexpected(message) => "unexpected reliability message: "@
            + crate::shared::debug_text(message),
        ReliableEnd::ControlLost => "control health failed after "@ + crate::text::decimal(
            HEALTH_FAILURE_THRESHOLD as nat,
        ) + " checks"@,
        ReliableEnd::TunnelBroken => "tunnel integrity failed after "@ + crate::text::decimal(
            HEALTH_FAILURE_THRESHOLD as nat,
        ) + " probes"@,
        ReliableEnd::Failed(reason) => reason@,
    }
}

impl ReliableEnd {
    /// Returns the text of the reason.
    pub fn message(&self) -> (text: String)
        ensures
            text@ == end_text(*self),
    {
        match self {
            ReliableEnd::Closed => "control connection closed".to_owned(),
            ReliableEnd::Unexpected(message) => {
                let mut text = "unexpected reliability message: ".to_owned();
                text.append(&message.debug());
                text
            },
            ReliableEnd::ControlLost => {
                let mut text = "control health failed after ".to_owned();
                text.append(&decimal_text(HEALTH_FAILURE_THRESHOLD as usize));
                text.append(" checks");
                text
            },
            ReliableEnd::TunnelBroken => {
                let mut text = "tunnel integrity failed after ".to_owned();
                text.append(&decimal_text(HEALTH_FAILURE_THRESHOLD as usize));
                text.append(" probes");
                text
            },
            ReliableEnd::Failed(reason) => reason.as_str().to_owned(),
        }
    }

    /// Returns how the handling of the session's connection ends: always with an error.
    pub fn outcome(&self) -> (end: ConnectionEnd)
        ensures
            end matches ConnectionEnd::Failed(reason) && reason@ == end_text(*self),
    {
        ConnectionEnd::Failed(self.message())
    }
}

/// What a reliable session does next. Times are in milliseconds.
#[derive(Debug, PartialEq, Eq)]
pub enum ReliableAction {
    /// Wait for the next heartbeat to be due or for a consumer.
    Wait,
    /// Send a health check with this nonce and wait so long for the report.
    Check(u128, u64),
    /// Go on waiting for the report, for so long.
    AwaitReply(u64),
    /// Connect to the session's own consumer port and accept that connection.
    OpenProbe,
    /// Announce the probe with this identifier and wait so long for the target to accept it.
    AnnounceProbe(u128, u64),
    /// Announce the consumer connection with this identifier, which may wait so long to be
    /// accepted.
    Announce(u128, u64),
    /// End the session.
    End(ReliableEnd),
}

/// The message that an action of a reliable session sends. To the target a probe is a connection
/// like any other.
pub open spec fn reliable_message(action: ReliableAction) -> Option<ServerMessage> {
    match action {
        ReliableAction::Check(nonce, _) => Some(ServerMessage::HealthCheck(nonce)),
        ReliableAction::AnnounceProbe(id, _) => Some(ServerMessage::Connection(id)),
        ReliableAction::Announce(id, _) => Some(ServerMessage::Connection(id)),
        _ => None,
    }
}

impl ReliableAction {
    /// Returns the message that the action sends.
    pub fn message(&self) -> (message: Option<ServerMessage>)
        ensures
            message == reliable_message(*self),
    {
        match self {
            ReliableAction::Check(nonce, _) => Some(ServerMessage::HealthCheck(*nonce)),
            ReliableAction::AnnounceProbe(id, _) => Some(ServerMessage::Connection(*id)),
            ReliableAction::Announce(id, _) => Some(ServerMessage::Connection(*id)),
            _ => None,
        }
    }
}

/// A reliable session after a probe that did not pass.
pub open spec fn probe_failed(server: ServerView, session: ReliableSession) -> (
    ServerView,
    ReliableSession,
    ReliableAction,
) {
    if session.tunnel_failures + 1 >= HEALTH_FAILURE_THRESHOLD {
        (withdrawn(server), session, ReliableAction::End(ReliableEnd::TunnelBroken))
    } else {
        (
            ServerView { health: server.health.with_tunnel(false), ..server },
            ReliableSession { tunnel_failures: (session.tunnel_failures + 1) as u32, ..session },
            ReliableAction::Wait,
        )
    }
}

/// The transitions of a reliable session. A health check, a tunnel probe or a consumer
/// connection gets `id`. Whatever ends the session also withdraws what it left behind.
pub open spec fn reliable_step(
    server: ServerView,
    session: ReliableSession,
    event: ReliableEvent,
    id: u128,
) -> (ServerView, ReliableSession, ReliableAction) {
    match event {
        ReliableEvent::CheckDue => (
            server,
            ReliableSession { nonce: id, ..session },
            ReliableAction::Check(id, NETWORK_TIMEOUT),
        ),
        ReliableEvent::Reply(message, waited) => match health_reply(message, session.nonce) {
            HealthReply::Report(reachable) => {
                let heard = ServerView {
                    health: server.health.with_control(true).with_backend(reachable),
                    ..server
                };
                if reachable {
                    (
                        heard,
                        ReliableSession { control_failures: 0, ..session },
                        ReliableAction::OpenProbe,
                    )
                } else {
                    (
                        heard,
                        ReliableSession { control_failures: 0, tunnel_failures: 0, ..session },
                        ReliableAction::Wait,
                    )
                }
            },
            HealthReply::Stale => (
                server,
                session,
                ReliableAction::AwaitReply(reply_time_left(waited)),
            ),
            HealthReply::Unexpected(other) => (
                withdrawn(server),
                session,
                ReliableAction::End(ReliableEnd::Unexpected(other)),
            ),
            HealthReply::Closed => (
                withdrawn(server),
                session,
                ReliableAction::End(ReliableEnd::Closed),
            ),
        },
        ReliableEvent::ReplyMissed => if session.control_failures + 1
            >= HEALTH_FAILURE_THRESHOLD {
            (withdrawn(server), session, ReliableAction::End(ReliableEnd::ControlLost))
        } else {
            (
                ServerView { health: server.health.with_control(false), ..server },
                ReliableSession {
                    control_failures: (session.control_failures + 1) as u32,
                    ..session
                },
                ReliableAction::Wait,
            )
        },
        ReliableEvent::ProbeOpened(handle) => (
            ServerView { registry: server.registry.with_probe(id, handle), ..server },
            ReliableSession { probe: id, ..session },
            ReliableAction::AnnounceProbe(id, NETWORK_TIMEOUT),
        ),
        ReliableEvent::ProbePassed => (
            ServerView { health: server.health.with_tunnel(true), ..server },
            ReliableSession { tunnel_failures: 0, ..session },
            ReliableAction::Wait,
        ),
        ReliableEvent::ProbeFailed => probe_failed(
            ServerView { registry: server.registry.without_probe(session.probe), ..server },
            session,
        ),
        ReliableEvent::ProbeNotOpened => probe_failed(server, session),
        ReliableEvent::Incoming(handle) => (
            ServerView { registry: server.registry.with_connection(id, handle), ..server },
            session,
            ReliableAction::Announce(id, STALE_AFTER),
        ),
        ReliableEvent::Announced => (server, session, ReliableAction::Wait),
        ReliableEvent::Failed(reason) => (
            withdrawn(server),
            session,
            ReliableAction::End(ReliableEnd::Failed(reason)),
        ),
    }
}

/// Whether an event of a reliable session makes the proxy draw an identifier.
pub open spec fn draws_id(event: ReliableEvent) -> bool {
    event is CheckDue || event is ProbeOpened || event is Incoming
}

/// State of the proxy.
pub struct Server {
    /// Range of TCP ports that can be forwarded.
    port_range: RangeInclusive<u16>,
    /// Optional secret used to authenticate targets.
    secret: Option<String>,
    /// IP address where the control server will bind to.
    bind_addr: IpAddr,
    /// IP address where tunnels will listen on.
    bind_tunnels: IpAddr,
    /// TCP port used for control connections with targets.
    control_port: u16,
    /// Whether sessions are checked.
    reliable: bool,
    /// Address serving local HTTP health endpoints.
    health_addr: Option<SocketAddr>,
    /// Current tunnel health.
    health: HealthState,
    /// Connections and probes that wait for the target.
    registry: Registry,
    /// Whether a reliable session is active, being opened or being given up.
    active: bool,
}

impl View for Server {
    type V = ServerView;

    closed spec fn view(&self) -> ServerView {
        ServerView {
            min_port: self.port_range@.start,
            max_port: self.port_range@.end,
            secret: self.secret,
            bind_addr: self.bind_addr,
            bind_tunnels: self.bind_tunnels,
            control_port: self.control_port,
            reliable: self.reliable,
            health_addr: self.health_addr,
            health: self.health@,
            registry: self.registry@,
            active: self.active,
        }
    }
}

impl Server {
    /// At least one port can be forwarded.
    pub closed spec fn wf(&self) -> bool {
        &&& self@.wf()
        &&& !self.port_range@.exhausted
    }

    /// Creates a new server for a range of ports, at least one.
    pub fn new(port_range: RangeInclusive<u16>, secret: Option<&str>) -> (server: Server)
        requires
            port_range@.start <= port_range@.end,
            !port_range@.exhausted,
        ensures
            server.wf(),
            server@.min_port == port_range@.start,
            server@.max_port == port_range@.end,
            match secret {
                Some(text) => server@.secret is Some && server@.secret->0@ == text@,
                None => server@.secret is None,
            },
            server@.bind_addr == IpAddr::V4(0),
            server@.bind_tunnels == IpAddr::V4(0),
            server@.control_port == DEFAULT_CONTROL_PORT,
            !server@.reliable,
            server@.health_addr is None,
            server@.health == crate::health::HealthView::started(),
            server@.registry == crate::registry::RegistryView::empty(),
            !server@.active,
    {
        Server {
            port_range,
            secret: match secret {
                Some(text) => Some(text.to_owned()),
                None => None,
            },
            bind_addr: IpAddr::V4(0),
            bind_tunnels: IpAddr::V4(0),
            control_port: DEFAULT_CONTROL_PORT,
            reliable: false,
            health_addr: None,
            health: HealthState::new(),
            registry: Registry::new(),
            active: false,
        }
    }

    /// Sets the IP address where the control server will bind to.
    pub fn set_bind_addr(&mut self, bind_addr: IpAddr)
        ensures
            final(self)@ == (ServerView { bind_addr, ..old(self)@ }),
            final(self).wf() == old(self).wf(),
    {
        self.bind_addr = bind_addr;
    }

    /// Sets the IP address where tunnels will listen on.
    pub fn set_bind_tunnels(&mut self, bind_tunnels: IpAddr)
        ensures
            final(self)@ == (ServerView { bind_tunnels, ..old(self)@ }),
            final(self).wf() == old(self).wf(),
    {
        self.bind_tunnels = bind_tunnels;
    }

    /// Sets the TCP port used for control connections with targets.
    pub fn set_control_port(&mut self, control_port: u16)
        ensures
            final(self)@ == (ServerView { control_port, ..old(self)@ }),
            final(self).wf() == old(self).wf(),
    {
        self.control_port = control_port;
    }

    /// Enables reliability checks.
    pub fn set_reliable(&mut self, reliable: bool)
        ensures
            final(self)@ == (ServerView { reliable, ..old(self)@ }),
            final(self).wf() == old(self).wf(),
    {
        self.reliable = reliable;
    }

    /// Sets the address serving HTTP health endpoints.
    pub fn set_health_addr(&mut self, health_addr: SocketAddr)
        ensures
            final(self)@ == (ServerView { health_addr: Some(health_addr), ..old(self)@ }),
            final(self).wf() == old(self).wf(),
    {
        self.health_addr = Some(health_addr);
    }

    /// Returns whether targets must authenticate.
    pub fn requires_secret(&self) -> (required: bool)
        ensures
            required == self@.secret is Some,
    {
        self.secret.is_some()
    }

    /// Returns the address serving HTTP health endpoints.
    pub fn health_addr(&self) -> (addr: Option<SocketAddr>)
        ensures
            addr == self@.health_addr,
    {
        self.health_addr
    }

    /// Returns the current health.
    pub fn health(&self) -> (health: &HealthState)
        ensures
            health@ == self@.health,
    {
        &self.health
    }

    /// Returns the response to an HTTP request for the health of the proxy.
    pub fn health_response(&self, request: &[u8]) -> (response: String)
        ensures
            response@ == crate::health::response_to(
                crate::health::lossy_text(request@),
                "proxy"@,
                self@.health,
            ),
            vstd::utf8::valid_utf8(request@) ==> response@ == crate::health::response_to(
                vstd::utf8::decode_utf8(request@),
                "proxy"@,
                self@.health,
            ),
    {
        serve(request, "proxy", &self.health)
    }

    /// Returns whether sessions are checked.
    pub fn is_reliable(&self) -> (reliable: bool)
        ensures
            reliable == self@.reliable,
    {
        self.reliable
    }

    /// Advances a proxy that listens for control connections and returns what it does next.
    pub fn listen(&mut self, event: ListenEvent) -> (action: ListenAction)
        ensures
            (final(self)@, action) == listen_step(old(self)@, event),
            final(self).wf() == old(self).wf(),
    {
        match event {
            ListenEvent::Started => ListenAction::Bind(
                SocketAddr { ip: self.bind_addr, port: self.control_port, flowinfo: 0, scope_id: 0 },
            ),
            ListenEvent::Bound => ListenAction::Accept,
            ListenEvent::BindFailed(reason) => ListenAction::Stop(reason),
            ListenEvent::Accepted => ListenAction::Serve,
            ListenEvent::AcceptFailed(reason) => ListenAction::Stop(reason),
            ListenEvent::ConnectionEnded(_) => ListenAction::Accept,
            ListenEvent::HandlerLost(held) => {
                if self.reliable && self.active && held {
                    self.release();
                    self.health.fail_liveness();
                }
                ListenAction::Accept
            },
        }
    }

    /// Returns the address to listen on for a consumer port.
    pub fn tunnel_addr(&self, port: u16) -> (addr: SocketAddr)
        ensures
            addr == (SocketAddr { ip: self@.bind_tunnels, port, flowinfo: 0, scope_id: 0 }),
    {
        SocketAddr { ip: self.bind_tunnels, port, flowinfo: 0, scope_id: 0 }
    }

    /// Begins the search for a consumer port.
    pub fn create_listener(&self, port: u16) -> (first: (PortSearch, BindStep))
        requires
            self.wf(),
        ensures
            exists|draw: u16|
                (port > 0 || self@.allows(draw)) && first == #[trigger] first_bind(
                    self@,
                    port,
                    draw,
                ),
    {
        let draw: u16 = if port > 0 {
            0
        } else {
            random_port(&self.port_range)
        };
        self.create_listener_with(port, draw)
    }

    /// Begins the search for a consumer port with a drawn one.
    pub fn create_listener_with(&self, port: u16, draw: u16) -> (first: (PortSearch, BindStep))
        requires
            self.wf(),
        ensures
            first == first_bind(self@, port, draw),
    {
        if port > 0 && !self.port_range.contains(&port) {
            (
                PortSearch { requested: port, tried: 0 },
                BindStep::Refuse(ListenError::OutOfRange),
            )
        } else {
            let candidate: u16 = if port > 0 { port } else { draw };
            (PortSearch { requested: port, tried: 1 }, BindStep::TryBind(candidate))
        }
    }

    /// Goes on with the search for a consumer port after a failure to bind.
    pub fn bind_failed(&self, search: &mut PortSearch, kind: ErrorKind) -> (step: BindStep)
        requires
            self.wf(),
        ensures
            exists|draw: u16|
                (old(search).requested > 0 || self@.allows(draw)) && (*final(search), step)
                    == #[trigger] next_bind(*old(search), kind, draw),
    {
        let draw: u16 = if search.requested > 0 {
            0
        } else {
            random_port(&self.port_range)
        };
        Server::bind_failed_with(search, kind, draw)
    }

    /// Goes on with the search for a consumer port with a drawn one.
    pub fn bind_failed_with(search: &mut PortSearch, kind: ErrorKind, draw: u16) -> (step: BindStep)
        ensures
            (*final(search), step) == next_bind(*old(search), kind, draw),
    {
        if search.requested > 0 {
            BindStep::Refuse(
                match kind {
                    ErrorKind::AddrInUse => ListenError::AddrInUse,
                    ErrorKind::PermissionDenied => ListenError::PermissionDenied,
                    _ => ListenError::BindFailed,
                },
            )
        } else if search.tried >= MAX_BIND_TRIES {
            BindStep::Refuse(ListenError::NoneAvailable)
        } else {
            search.tried = search.tried + 1;
            BindStep::TryBind(draw)
        }
    }

    fn withdraw(&mut self)
        ensures
            final(self)@ == withdrawn(old(self)@),
            final(self).wf() == old(self).wf(),
    {
        self.health.set_control_connected(false);
        self.registry.clear();
    }

    fn release(&mut self)
        ensures
            final(self)@ == released(old(self)@),
            final(self).wf() == old(self).wf(),
    {
        self.withdraw();
        self.active = false;
    }

    /// Advances a connection before or beside its session and returns what to do next.
    pub fn handle_connection(&mut self, event: ControlEvent) -> (action: ControlAction)
        ensures
            (final(self)@, action) == control_step(old(self)@, event),
            final(self).wf() == old(self).wf(),
    {
        match event {
            ControlEvent::HandshakeFailed(reason) => ControlAction::Reject(
                Refusal::Handshake(reason),
            ),
            ControlEvent::ReadFailed(reason) => ControlAction::Fail(reason),
            ControlEvent::Message(message) => match message {
                Some(ClientMessage::Authenticate(_)) => ControlAction::Close,
                Some(ClientMessage::Hello(port)) => {
                    if self.reliable {
                        if self.active {
                            return ControlAction::Reject(Refusal::Busy);
                        }
                        self.active = true;
                    }
                    ControlAction::Listen(port)
                },
                Some(ClientMessage::Accept(id)) => match self.registry.accept(id) {
                    Accepted::Probe(handle) => ControlAction::CompleteProbe(handle),
                    Accepted::Connection(handle) => ControlAction::Relay(handle),
                    Accepted::Missing => ControlAction::Close,
                },
                Some(ClientMessage::Health(_, _)) => ControlAction::Close,
                None => ControlAction::Close,
            },
            ControlEvent::ListenerFailed(error) => {
                if self.reliable {
                    self.release();
                }
                ControlAction::Reject(Refusal::Listen(error))
            },
            ControlEvent::ListenerReady(port) => ControlAction::Greet(port),
            ControlEvent::Greeted => {
                if self.reliable {
                    self.health.set_control_connected(true);
                    ControlAction::RunReliable
                } else {
                    ControlAction::RunStandard
                }
            },
            ControlEvent::GreetingFailed(reason) => {
                if self.reliable {
                    self.withdraw();
                }
                ControlAction::DropListener(ConnectionEnd::Failed(reason))
            },
            ControlEvent::RelayEnded(end) => conclude(end),
            ControlEvent::ListenerDropped(end) => {
                if self.reliable {
                    self.release();
                }
                conclude(end)
            },
        }
    }

    /// Forgets a consumer connection that has waited too long, unless it is gone already.
    pub fn expire(&mut self, id: u128) -> (handle: Option<u64>)
        ensures
            final(self)@ == (ServerView {
                registry: old(self)@.registry.without_connection(id),
                ..old(self)@
            }),
            handle == (if old(self)@.registry.conns.contains_key(id) {
                Some(old(self)@.registry.conns[id])
            } else {
                None
            }),
            final(self).wf() == old(self).wf(),
    {
        self.registry.expire(id)
    }

    /// Advances a standard session and returns what it does next.
    pub fn standard_session(&mut self, event: StandardEvent) -> (action: StandardAction)
        ensures
            exists|id: u128|
                (event is Incoming ==> crate::random::is_random_id(id)) && (final(self)@, action)
                    == #[trigger] standard_step(old(self)@, event, id),
            final(self).wf() == old(self).wf(),
    {
        let id: u128 = match &event {
            StandardEvent::Incoming(_) => random_id(),
            _ => 0,
        };
        self.standard_session_with(event, id)
    }

    /// Advances a standard session in which a consumer connection gets a drawn identifier.
    pub fn standard_session_with(&mut self, event: StandardEvent, id: u128) -> (action:
        StandardAction)
        ensures
            (final(self)@, action) == standard_step(old(self)@, event, id),
            final(self).wf() == old(self).wf(),
    {
        match event {
            StandardEvent::Started => StandardAction::Heartbeat,
            StandardEvent::HeartbeatSent => StandardAction::Accept(HEARTBEAT_INTERVAL),
            StandardEvent::HeartbeatFailed => StandardAction::End(ConnectionEnd::Closed),
            StandardEvent::Incoming(handle) => {
                self.registry.add_connection(id, handle);
                StandardAction::Announce(id, STALE_AFTER)
            },
            StandardEvent::Idle => StandardAction::Heartbeat,
            StandardEvent::Announced => StandardAction::Heartbeat,
            StandardEvent::Failed(reason) => StandardAction::End(ConnectionEnd::Failed(reason)),
        }
    }

    /// Advances a reliable session and returns what it does next.
    pub fn reliable_session(&mut self, session: &mut ReliableSession, event: ReliableEvent) -> (action:
        ReliableAction)
        requires
            old(session).wf(),
        ensures
            exists|id: u128|
                (draws_id(event) ==> crate::random::is_random_id(id)) && (
                    final(self)@,
                    *final(session),
                    action,
                ) == #[trigger] reliable_step(old(self)@, *old(session), event, id),
            final(session).wf(),
            final(self).wf() == old(self).wf(),
    {
        let id: u128 = match &event {
            ReliableEvent::CheckDue => random_id(),
            ReliableEvent::ProbeOpened(_) => random_id(),
            ReliableEvent::Incoming(_) => random_id(),
            _ => 0,
        };
        self.reliable_session_with(session, event, id)
    }

    /// Advances a reliable session in which a check, a probe or a consumer connection gets a
    /// drawn identifier.
    pub fn reliable_session_with(
        &mut self,
        session: &mut ReliableSession,
        event: ReliableEvent,
        id: u128,
    ) -> (action: ReliableAction)
        requires
            old(session).wf(),
        ensures
            (final(self)@, *final(session), action) == reliable_step(
                old(self)@,
                *old(session),
                event,
                id,
            ),
            final(session).wf(),
            final(self).wf() == old(self).wf(),
    {
        match event {
            ReliableEvent::CheckDue => {
                session.nonce = id;
                ReliableAction::Check(id, NETWORK_TIMEOUT)
            },
            ReliableEvent::Reply(message, waited) => match receive_health(message, session.nonce) {
                HealthReply::Report(reachable) => {
                    session.control_failures = 0;
                    self.health.set_control_connected(true);
                    self.health.set_backend_reachable(reachable);
                    if reachable {
                        ReliableAction::OpenProbe
                    } else {
                        session.tunnel_failures = 0;
                        ReliableAction::Wait
                    }
                },
                HealthReply::Stale => {
                    let left: u64 = if waited < NETWORK_TIMEOUT {
                        NETWORK_TIMEOUT - waited
                    } else {
                        0
                    };
                    ReliableAction::AwaitReply(left)
                },
                HealthReply::Unexpected(other) => {
                    self.withdraw();
                    ReliableAction::End(ReliableEnd::Unexpected(other))
                },
                HealthReply::Closed => {
                    self.withdraw();
                    ReliableAction::End(ReliableEnd::Closed)
                },
            },
            ReliableEvent::ReplyMissed => {
                if session.control_failures + 1 >= HEALTH_FAILURE_THRESHOLD {
                    self.withdraw();
                    ReliableAction::End(ReliableEnd::ControlLost)
                } else {
                    session.control_failures = session.control_failures + 1;
                    self.health.set_control_connected(false);
                    ReliableAction::Wait
                }
            },
            ReliableEvent::ProbeOpened(handle) => {
                session.probe = id;
                self.registry.add_probe(id, handle);
                ReliableAction::AnnounceProbe(id, NETWORK_TIMEOUT)
            },
            ReliableEvent::ProbePassed => {
                session.tunnel_failures = 0;
                self.health.set_tunnel_verified(true);
                ReliableAction::Wait
            },
            ReliableEvent::ProbeFailed => {
                let _ = self.registry.cancel_probe(session.probe);
                self.count_failed_probe(session)
            },
            ReliableEvent::ProbeNotOpened => self.count_failed_probe(session),
            ReliableEvent::Incoming(handle) => {
                self.registry.add_connection(id, handle);
                ReliableAction::Announce(id, STALE_AFTER)
            },
            ReliableEvent::Announced => ReliableAction::Wait,
            ReliableEvent::Failed(reason) => {
                self.withdraw();
                ReliableAction::End(ReliableEnd::Failed(reason))
            },
        }
    }

    fn count_failed_probe(&mut self, session: &mut ReliableSession) -> (action: ReliableAction)
        requires
            old(session).wf(),
        ensures
            (final(self)@, *final(session), action) == probe_failed(old(self)@, *old(session)),
            final(session).wf(),
            final(self).wf() == old(self).wf(),
    {
        if session.tunnel_failures + 1 >= HEALTH_FAILURE_THRESHOLD {
            self.withdraw();
            ReliableAction::End(ReliableEnd::TunnelBroken)
        } else {
            session.tunnel_failures = session.tunnel_failures + 1;
            self.health.set_tunnel_verified(false);
            ReliableAction::Wait
        }
    }
}

/// Law: every port that is tried may be forwarded, and a target that asks for a port gets that
/// one or none. A port outside the range is refused without a try.
pub proof fn law_bound_port_is_allowed(
    server: ServerView,
    port: u16,
    search: PortSearch,
    kind: ErrorKind,
    draw: u16,
)
    requires
        server.allows(draw),
    ensures
        first_bind(server, port, draw).1 matches BindStep::TryBind(tried) ==> server.allows(tried)
            && (port == 0 || tried == port),
        (first_bind(server, port, draw).1 == BindStep::Refuse(ListenError::OutOfRange)) == (port
            > 0 && !server.allows(port)),
        next_bind(search, kind, draw).1 matches BindStep::TryBind(tried) ==> server.allows(tried)
            && search.requested == 0,
{
}

/// The search after so many failures to bind a drawn port.
pub open spec fn search_after(
    server: ServerView,
    kinds: Seq<ErrorKind>,
    draws: Seq<u16>,
) -> PortSearch
    decreases kinds.len(),
{
    if kinds.len() == 0 {
        first_bind(server, 0, draws[0]).0
    } else {
        next_bind(
            search_after(server, kinds.drop_last(), draws),
            kinds.last(),
            draws[kinds.len() as int],
        ).0
    }
}

/// Law: a search for any free port tries a drawn port up to exactly 150 times, whatever the
/// failures are, and then gives up.
pub proof fn law_port_search_is_bounded(
    server: ServerView,
    kinds: Seq<ErrorKind>,
    draws: Seq<u16>,
    kind: ErrorKind,
    draw: u16,
)
    requires
        kinds.len() < 150,
    ensures
        search_after(server, kinds, draws).tried == kinds.len() + 1,
        next_bind(search_after(server, kinds, draws), kind, draw).1 == (if kinds.len() == 149 {
            BindStep::Refuse(ListenError::NoneAvailable)
        } else {
            BindStep::TryBind(draw)
        }),
{
    lemma_search_after(server, kinds, draws);
}

proof fn lemma_search_after(server: ServerView, kinds: Seq<ErrorKind>, draws: Seq<u16>)
    requires
        kinds.len() < 150,
    ensures
        search_after(server, kinds, draws).tried == kinds.len() + 1,
        search_after(server, kinds, draws).requested == 0,
    decreases kinds.len(),
{
    if kinds.len() > 0 {
        lemma_search_after(server, kinds.drop_last(), draws);
    }
}

/// Law: a proxy listens at its configured address and serves every connection that it accepts.
/// However the handling of a connection ends, it goes on accepting, and the end changes nothing
/// unless the handler of a reliable session is lost.
/// It stops only because it cannot bind its port or accept connections, and always with an
/// error.
pub proof fn law_proxy_goes_on_listening(server: ServerView, event: ListenEvent)
    ensures
        listen_step(server, ListenEvent::Started).1 == ListenAction::Bind(
            SocketAddr {
                ip: server.bind_addr,
                port: server.control_port,
                flowinfo: 0,
                scope_id: 0,
            },
        ),
        listen_step(server, ListenEvent::Accepted) == (server, ListenAction::Serve),
        event is ConnectionEnded ==> listen_step(server, event) == (server, ListenAction::Accept),
        (listen_step(server, event).1 is Stop) == (event is BindFailed || event is AcceptFailed),
        listen_step(server, event).1 matches ListenAction::Stop(reason) ==> event
            == ListenEvent::BindFailed(reason) || event == ListenEvent::AcceptFailed(reason),
        event is HandlerLost ==> listen_step(server, event).1 == ListenAction::Accept,
        !(server.reliable && server.active && event == ListenEvent::HandlerLost(true))
            ==> listen_step(server, event).0 == server,
{
}

/// The proxy after several events of its listener, in order.
pub open spec fn listened_by(server: ServerView, events: Seq<ListenEvent>) -> ServerView
    decreases events.len(),
{
    if events.len() == 0 {
        server
    } else {
        listen_step(listened_by(server, events.drop_last()), events.last()).0
    }
}

/// Law: as long as connections can be accepted, each of them is served, however many were
/// handled before and whatever became of those, and the proxy never stops.
pub proof fn law_every_connection_is_served(server: ServerView, events: Seq<ListenEvent>)
    requires
        forall|i: int|
            0 <= i < events.len() ==> !(#[trigger] events[i] is BindFailed
                || events[i] is AcceptFailed),
    ensures
        forall|i: int|
            0 <= i < events.len() ==> !(listen_step(
                listened_by(server, events.take(i)),
                #[trigger] events[i],
            ).1 is Stop),
        forall|i: int|
            0 <= i < events.len() && #[trigger] events[i] is Accepted ==> listen_step(
                listened_by(server, events.take(i)),
                events[i],
            ).1 == ListenAction::Serve,
        listen_step(listened_by(server, events), ListenEvent::Accepted).1 == ListenAction::Serve,
{
}

/// Law: while a reliable session is active, being opened or being given up, no other one is
/// begun: a second target is turned away and nothing changes.
pub proof fn law_second_target_is_turned_away(server: ServerView, port: u16)
    requires
        server.reliable,
    ensures
        ({
            let (next, action) = control_step(
                server,
                ControlEvent::Message(Some(ClientMessage::Hello(port))),
            );
            &&& server.active ==> next == server && action == ControlAction::Reject(Refusal::Busy)
            &&& !server.active ==> next == (ServerView { active: true, ..server }) && action
                == ControlAction::Listen(port)
        }),
{
}

/// A reliable proxy without a session keeps nothing of an earlier one.
pub open spec fn settled(server: ServerView) -> bool {
    server.reliable && !server.active ==> {
        &&& server.registry == crate::registry::RegistryView::empty()
        &&& !server.health.control_connected
        &&& !server.health.tunnel_verified
    }
}

/// Law: whatever ends a reliable session, the proxy is unready at once, nothing of the session
/// waits any more, and the process stays as live as it was. A new session can begin as soon as
/// the consumer port has been given up, and not before.
pub proof fn law_session_end(
    server: ServerView,
    session: ReliableSession,
    event: ReliableEvent,
    id: u128,
    pending: u128,
    port: u16,
    end: ConnectionEnd,
)
    requires
        server.reliable,
        server.active,
        reliable_step(server, session, event, id).2 is End,
    ensures
        ({
            let hello = ControlEvent::Message(Some(ClientMessage::Hello(port)));
            let ended = reliable_step(server, session, event, id).0;
            let free = control_step(ended, ControlEvent::ListenerDropped(end)).0;
            &&& !ended.health.target_ready()
            &&& !ended.health.proxy_ready()
            &&& !ended.health.tunnel_verified
            &&& ended.health.live == server.health.live
            &&& ended.registry.accepted(pending) == Accepted::Missing
            &&& control_step(ended, hello).1 == ControlAction::Reject(Refusal::Busy)
            &&& settled(free)
            &&& control_step(free, hello).1 == ControlAction::Listen(port)
            &&& free.health.live == server.health.live
        }),
{
}

/// One step of a proxy: on a numbered connection before or beside its session, in the session of
/// a numbered connection, when the handler of a numbered connection is lost, or when a consumer
/// connection has waited too long.
pub enum ProxyStep {
    Control(nat, ControlEvent),
    Reliable(nat, ReliableSession, ReliableEvent, u128),
    Standard(nat, StandardEvent, u128),
    Lost(nat, bool),
    Expired(u128),
}

/// The proxy after one step.
pub open spec fn stepped(server: ServerView, step: ProxyStep) -> ServerView {
    match step {
        ProxyStep::Control(_, event) => control_step(server, event).0,
        ProxyStep::Reliable(_, session, event, id) => reliable_step(server, session, event, id).0,
        ProxyStep::Standard(_, event, id) => standard_step(server, event, id).0,
        ProxyStep::Lost(_, held) => listen_step(server, ListenEvent::HandlerLost(held)).0,
        ProxyStep::Expired(id) => ServerView {
            registry: server.registry.without_connection(id),
            ..server
        },
    }
}

/// The proxy after several steps, in order.
pub open spec fn stepped_by(server: ServerView, steps: Seq<ProxyStep>) -> ServerView
    decreases steps.len(),
{
    if steps.len() == 0 {
        server
    } else {
        stepped(stepped_by(server, steps.drop_last()), steps.last())
    }
}

/// The connections that hold the place of the reliable session, after one step: a connection
/// holds it from the greeting that makes the proxy look for a consumer port until there is no
/// such port, or no longer one, or its handler is lost.
pub open spec fn holders_after(server: ServerView, holders: Set<nat>, step: ProxyStep) -> Set<nat> {
    match step {
        ProxyStep::Control(connection, event) => match event {
            ControlEvent::Message(Some(ClientMessage::Hello(_))) => if control_step(
                server,
                event,
            ).1 is Listen {
                holders.insert(connection)
            } else {
                holders
            },
            ControlEvent::ListenerFailed(_) => holders.remove(connection),
            ControlEvent::ListenerDropped(_) => holders.remove(connection),
            _ => holders,
        },
        ProxyStep::Lost(connection, _) => holders.remove(connection),
        _ => holders,
    }
}

/// The connections that hold the place of the reliable session, after several steps of a proxy
/// that began without any.
pub open spec fn holders_by(server: ServerView, steps: Seq<ProxyStep>) -> Set<nat>
    decreases steps.len(),
{
    if steps.len() == 0 {
        Set::empty()
    } else {
        holders_after(
            stepped_by(server, steps.drop_last()),
            holders_by(server, steps.drop_last()),
            steps.last(),
        )
    }
}

/// Whether a step may be taken by a reliable proxy: what becomes of a consumer port, a greeting
/// and a session is reported only for the connection that asked for the port and has not given
/// it up, and of a lost handler it is known whether its connection is that one.
pub open spec fn may_take(holders: Set<nat>, step: ProxyStep) -> bool {
    match step {
        ProxyStep::Control(connection, event) => match event {
            ControlEvent::HandshakeFailed(_) => true,
            ControlEvent::ReadFailed(_) => true,
            ControlEvent::Message(_) => true,
            ControlEvent::RelayEnded(_) => true,
            _ => holders.contains(connection),
        },
        ProxyStep::Reliable(connection, _, _, _) => holders.contains(connection),
        ProxyStep::Standard(_, _, _) => false,
        ProxyStep::Lost(connection, held) => held == holders.contains(connection),
        ProxyStep::Expired(_) => true,
    }
}

/// Whether every one of several steps may be taken in its turn.
pub open spec fn may_take_all(server: ServerView, steps: Seq<ProxyStep>) -> bool
    decreases steps.len(),
{
    steps.len() > 0 ==> {
        &&& may_take_all(server, steps.drop_last())
        &&& may_take(holders_by(server, steps.drop_last()), steps.last())
    }
}

/// Whether at most one connection holds the place of the reliable session, the proxy knows
/// whether one does, and nothing of a session is kept while none does.
pub open spec fn at_most_one(server: ServerView, holders: Set<nat>) -> bool {
    &&& server.reliable
    &&& settled(server)
    &&& forall|one: nat, other: nat|
        #[trigger] holders.contains(one) && #[trigger] holders.contains(other) ==> one == other
    &&& server.active == exists|connection: nat| #[trigger] holders.contains(connection)
}

/// Law: there is at most one reliable session at a time, whatever happens on however many
/// connections. The proxy counts as active exactly while a connection holds the place; a target
/// gets a place only while no other connection holds it, so after the session before it has
/// given up its consumer port, its pending connections, its probes and its readiness; and any
/// other target is turned away.
pub proof fn law_one_reliable_session(server: ServerView, steps: Seq<ProxyStep>, port: u16)
    requires
        server.reliable,
        !server.active,
        settled(server),
        may_take_all(server, steps),
    ensures
        ({
            let after = stepped_by(server, steps);
            let holders = holders_by(server, steps);
            let (_, action) = control_step(
                after,
                ControlEvent::Message(Some(ClientMessage::Hello(port))),
            );
            &&& at_most_one(after, holders)
            &&& (exists|connection: nat| #[trigger] holders.contains(connection)) ==> action
                == ControlAction::Reject(Refusal::Busy)
            &&& !(exists|connection: nat| #[trigger] holders.contains(connection)) ==> {
                &&& action == ControlAction::Listen(port)
                &&& after.registry == crate::registry::RegistryView::empty()
                &&& !after.health.control_connected
                &&& !after.health.tunnel_verified
            }
        }),
    decreases steps.len(),
{
    if steps.len() > 0 {
        law_one_reliable_session(server, steps.drop_last(), port);
        lemma_step_keeps_one(
            stepped_by(server, steps.drop_last()),
            holders_by(server, steps.drop_last()),
            steps.last(),
        );
    }
}

proof fn lemma_step_keeps_one(server: ServerView, holders: Set<nat>, step: ProxyStep)
    requires
        at_most_one(server, holders),
        may_take(holders, step),
    ensures
        at_most_one(stepped(server, step), holders_after(server, holders, step)),
{
    let next = holders_after(server, holders, step);
    match step {
        ProxyStep::Control(connection, event) => {
            if control_step(server, event).1 is Listen {
                assert(next.contains(connection));
            } else if event is ListenerFailed || event is ListenerDropped {
                assert(forall|other: nat| !next.contains(other));
            } else {
                assert(next == holders);
            }
        },
        ProxyStep::Lost(connection, held) => {
            if held {
                assert(forall|other: nat| !next.contains(other));
            } else {
                assert(next =~= holders);
            }
        },
        ProxyStep::Expired(id) => {
            if !server.active {
                assert(server.registry.without_connection(id)
                    =~= crate::registry::RegistryView::empty());
            }
        },
        _ => {},
    }
}

/// Law: whether a connection holds the place of the reliable session is known from what is being
/// done with it. Its first message, or the failure to get one, comes before it has a place, and
/// a connection that is joined with a consumer has none.
pub proof fn law_place_is_known(
    server: ServerView,
    holders: Set<nat>,
    connection: nat,
    event: ControlEvent,
)
    requires
        server.reliable,
        may_take(holders, ProxyStep::Control(connection, event)),
        event is HandshakeFailed || event is ReadFailed || event is Message
            || event is RelayEnded ==> !holders.contains(connection),
    ensures
        holders_after(server, holders, ProxyStep::Control(connection, event)).contains(connection)
            == holding(control_step(server, event).1),
{
}

/// Whether a handler was lost whose connection held the place of the session.
pub open spec fn session_handler_lost(steps: Seq<ProxyStep>) -> bool {
    exists|i: int| 0 <= i < steps.len() && (#[trigger] steps[i] matches ProxyStep::Lost(_, held)
        && held)
}

/// Law: lost sessions, missed heartbeats, failed authentication, an unreachable backend, failed
/// probes and lost data connections leave the process as live as it was.
pub proof fn law_proxy_keeps_liveness(server: ServerView, steps: Seq<ProxyStep>)
    requires
        !(server.reliable && session_handler_lost(steps)),
    ensures
        stepped_by(server, steps).health.live == server.health.live,
    decreases steps.len(),
{
    if steps.len() > 0 {
        let earlier = steps.drop_last();
        if session_handler_lost(earlier) {
            let i = choose|i: int|
                0 <= i < earlier.len() && (#[trigger] earlier[i] matches ProxyStep::Lost(_, held)
                    && held);
            assert(steps[i] == earlier[i]);
        }
        law_proxy_keeps_liveness(server, earlier);
        law_proxy_keeps_settings(server, earlier);
        assert(steps[steps.len() - 1] == steps.last());
    }
}

/// Law: a reliable proxy is not live any more, and never again, once the handler of its session
/// is lost.
pub proof fn law_lost_session_handler_fails_liveness(server: ServerView, steps: Seq<ProxyStep>)
    requires
        server.reliable,
        !server.active,
        settled(server),
        may_take_all(server, steps),
        session_handler_lost(steps),
    ensures
        !stepped_by(server, steps).health.live,
    decreases steps.len(),
{
    let earlier = steps.drop_last();
    let i = choose|i: int|
        0 <= i < steps.len() && (#[trigger] steps[i] matches ProxyStep::Lost(_, held) && held);
    if i < steps.len() - 1 {
        assert(earlier[i] == steps[i]);
        law_lost_session_handler_fails_liveness(server, earlier);
    } else {
        law_one_reliable_session(server, earlier, 0);
    }
}

/// Law: no sequence of steps changes the configuration.
pub proof fn law_proxy_keeps_settings(server: ServerView, steps: Seq<ProxyStep>)
    ensures
        stepped_by(server, steps).reliable == server.reliable,
        stepped_by(server, steps).min_port == server.min_port,
        stepped_by(server, steps).max_port == server.max_port,
        stepped_by(server, steps).secret == server.secret,
        stepped_by(server, steps).bind_addr == server.bind_addr,
        stepped_by(server, steps).bind_tunnels == server.bind_tunnels,
        stepped_by(server, steps).control_port == server.control_port,
    decreases steps.len(),
{
    if steps.len() > 0 {
        law_proxy_keeps_settings(server, steps.drop_last());
    }
}

/// Law: a proxy whose tunnel is not verified becomes ready only through a probe that passes.
pub proof fn law_readiness_needs_a_probe(server: ServerView, steps: Seq<ProxyStep>)
    requires
        !server.health.tunnel_verified,
        forall|i: int|
            0 <= i < steps.len() ==> !(#[trigger] steps[i] matches ProxyStep::Reliable(
                _,
                _,
                event,
                _,
            ) && event is ProbePassed),
    ensures
        !stepped_by(server, steps).health.tunnel_verified,
        !stepped_by(server, steps).health.proxy_ready(),
    decreases steps.len(),
{
    if steps.len() > 0 {
        let earlier = steps.drop_last();
        assert forall|i: int| 0 <= i < earlier.len() implies !(
        #[trigger] earlier[i] matches ProxyStep::Reliable(_, _, event, _)
            && event is ProbePassed) by {
            assert(earlier[i] == steps[i]);
        }
        law_readiness_needs_a_probe(server, earlier);
        assert(steps[steps.len() - 1] == steps.last());
    }
}

/// Law: a connection that fails to authenticate, stays silent, closes early or says something out
/// of place changes nothing for the others, nor does the end of a joined connection.
pub proof fn law_failed_connection_is_harmless(server: ServerView, event: ControlEvent)
    requires
        match event {
            ControlEvent::HandshakeFailed(_) => true,
            ControlEvent::ReadFailed(_) => true,
            ControlEvent::RelayEnded(_) => true,
            ControlEvent::Message(None) => true,
            ControlEvent::Message(Some(ClientMessage::Authenticate(_))) => true,
            ControlEvent::Message(Some(ClientMessage::Health(_, _))) => true,
            ControlEvent::Message(Some(ClientMessage::Accept(id))) => server.registry.accepted(id)
                == Accepted::Missing,
            _ => false,
        },
    ensures
        control_step(server, event).0 == server,
{
}

/// Law: exactly two heartbeats in a row without a response end a session. The first one makes
/// the proxy unready, and a response in between restores the session and starts the count over.
/// With two seconds for each response and two between heartbeats, a silent target is given up
/// after four to six seconds.
pub proof fn law_two_missed_heartbeats(
    server: ServerView,
    session: ReliableSession,
    reachable: bool,
    waited: u64,
    id: u128,
)
    requires
        session.control_failures == 0,
    ensures
        ({
            let (doubted, waiting, first) = reliable_step(
                server,
                session,
                ReliableEvent::ReplyMissed,
                id,
            );
            let report = ReliableEvent::Reply(
                Some(ClientMessage::Health(waiting.nonce, reachable)),
                waited,
            );
            let (heard, restored, _) = reliable_step(doubted, waiting, report, id);
            &&& first == ReliableAction::Wait
            &&& !doubted.health.proxy_ready() && !doubted.health.target_ready()
            &&& reliable_step(doubted, waiting, ReliableEvent::ReplyMissed, id).2
                == ReliableAction::End(ReliableEnd::ControlLost)
            &&& restored.control_failures == 0
            &&& heard.health.control_connected
        }),
        HEALTH_FAILURE_THRESHOLD * NETWORK_TIMEOUT == 4_000,
        crate::shared::HEALTH_CHECK_INTERVAL + HEALTH_FAILURE_THRESHOLD
            * NETWORK_TIMEOUT == 6_000,
{
}

/// Law: a closed or failed connection and a message out of place end a session at once, and
/// apart from these only missed heartbeats and failed probes end one.
pub proof fn law_session_ends_at_once(
    server: ServerView,
    session: ReliableSession,
    event: ReliableEvent,
    id: u128,
)
    requires
        event !is ReplyMissed,
        event !is ProbeFailed,
        event !is ProbeNotOpened,
    ensures
        (reliable_step(server, session, event, id).2 is End) == match event {
            ReliableEvent::Failed(_) => true,
            ReliableEvent::Reply(None, _) => true,
            ReliableEvent::Reply(Some(message), _) => message !is Health,
            _ => false,
        },
{
}

/// Law: a report on an earlier check is ignored: nothing changes and the proxy goes on waiting,
/// for no longer than it would have waited anyway: two seconds in all.
pub proof fn law_stale_report_is_ignored(
    server: ServerView,
    session: ReliableSession,
    nonce: u128,
    reachable: bool,
    waited: u64,
    id: u128,
)
    requires
        nonce != session.nonce,
    ensures
        reliable_step(
            server,
            session,
            ReliableEvent::Reply(Some(ClientMessage::Health(nonce, reachable)), waited),
            id,
        ) == (server, session, ReliableAction::AwaitReply(reply_time_left(waited))),
        reliable_step(server, session, ReliableEvent::CheckDue, id).2 == ReliableAction::Check(
            id,
            2_000,
        ),
        waited <= 2_000 ==> waited + reply_time_left(waited) == 2_000,
        waited > 2_000 ==> reply_time_left(waited) == 0,
{
}

/// Law: a target that reports its backend unreachable makes the proxy unready but keeps the
/// session, and clears the failed probes; the tunnel is probed exactly when a report says that
/// the backend is reachable.
pub proof fn law_backend_report(
    server: ServerView,
    session: ReliableSession,
    event: ReliableEvent,
    waited: u64,
    id: u128,
)
    ensures
        (reliable_step(server, session, event, id).2 == ReliableAction::OpenProbe) == (
        event matches ReliableEvent::Reply(message, _) && message == Some(
            ClientMessage::Health(session.nonce, true),
        )),
        ({
            let report = ReliableEvent::Reply(
                Some(ClientMessage::Health(session.nonce, false)),
                waited,
            );
            let (next, after, action) = reliable_step(server, session, report, id);
            &&& action == ReliableAction::Wait
            &&& after.tunnel_failures == 0
            &&& !next.health.proxy_ready() && !next.health.target_ready()
            &&& next.active == server.active
            &&& next.registry == server.registry
        }),
{
}

/// Law: one failed tunnel probe makes the proxy unready and no more; a second one in a row ends
/// the session. A probe that passes in between starts the count over and, with the session up
/// and the backend reachable, makes the proxy ready. A probe that cannot be opened is a failed
/// one.
pub proof fn law_tunnel_probes(
    server: ServerView,
    session: ReliableSession,
    event: ReliableEvent,
    again: ReliableEvent,
    id: u128,
)
    requires
        session.tunnel_failures == 0,
        event is ProbeFailed || event is ProbeNotOpened,
        again is ProbeFailed || again is ProbeNotOpened,
    ensures
        ({
            let (failed, counting, first) = reliable_step(server, session, event, id);
            let (passed, cleared, _) = reliable_step(
                failed,
                counting,
                ReliableEvent::ProbePassed,
                id,
            );
            &&& first == ReliableAction::Wait
            &&& !failed.health.proxy_ready()
            &&& failed.health.control_connected == server.health.control_connected
            &&& failed.health.backend == server.health.backend
            &&& failed.health.live == server.health.live
            &&& reliable_step(failed, counting, again, id).2 == ReliableAction::End(
                ReliableEnd::TunnelBroken,
            )
            &&& cleared.tunnel_failures == 0
            &&& server.health.target_ready() ==> passed.health.proxy_ready()
        }),
{
}

/// Law: a consumer connection that is announced is handed to the peer that accepts its
/// identifier, once; a probe that is announced is completed by the peer that accepts it, once;
/// and what was announced in a session that has ended is not handed out.
pub proof fn law_announced_then_accepted(
    server: ServerView,
    session: ReliableSession,
    handle: u64,
    id: u128,
)
    requires
        server.registry.accepted(id) == Accepted::Missing,
    ensures
        ({
            let accept = ControlEvent::Message(Some(ClientMessage::Accept(id)));
            let (waiting, _, action) = reliable_step(
                server,
                session,
                ReliableEvent::Incoming(handle),
                id,
            );
            let (probing, probed, announced) = reliable_step(
                server,
                session,
                ReliableEvent::ProbeOpened(handle),
                id,
            );
            &&& action == ReliableAction::Announce(id, 10_000)
            &&& reliable_message(action) == Some(ServerMessage::Connection(id))
            &&& control_step(waiting, accept).1 == ControlAction::Relay(handle)
            &&& control_step(control_step(waiting, accept).0, accept).1 == ControlAction::Close
            &&& announced == ReliableAction::AnnounceProbe(id, 2_000)
            &&& reliable_message(announced) == Some(ServerMessage::Connection(id))
            &&& control_step(probing, accept).1 == ControlAction::CompleteProbe(handle)
            &&& control_step(control_step(probing, accept).0, accept).1 == ControlAction::Close
            &&& control_step(withdrawn(waiting), accept).1 == ControlAction::Close
            &&& control_step(withdrawn(probing), accept).1 == ControlAction::Close
            &&& control_step(
                reliable_step(probing, probed, ReliableEvent::ProbeFailed, id).0,
                accept,
            ).1 == ControlAction::Close
            &&& control_step(
                standard_step(server, StandardEvent::Incoming(handle), id).0,
                accept,
            ).1 == ControlAction::Relay(handle)
        }),
{
}

/// Whether a step registers a connection or a probe under an identifier.
pub open spec fn registers(step: ProxyStep, id: u128) -> bool {
    match step {
        ProxyStep::Reliable(_, _, event, drawn) => drawn == id && (event is Incoming
            || event is ProbeOpened),
        ProxyStep::Standard(_, event, drawn) => drawn == id && event is Incoming,
        _ => false,
    }
}

/// Law: of all the peers that accept a waiting consumer connection, whenever they do, exactly the
/// first is joined with it. From then on the identifier is not kept, and every other peer is
/// closed without an error and without any change. The consumer receives every byte that the
/// first peer sent behind its accept message, in order, those that had been read already first.
/// The connection ends without an error exactly when its relay does.
pub proof fn law_one_peer_is_joined(
    server: ServerView,
    id: u128,
    handle: u64,
    steps: Seq<ProxyStep>,
    buffered: Vec<u8>,
    unread: Seq<u8>,
    end: ConnectionEnd,
)
    requires
        server.registry.accepted(id) == Accepted::Connection(handle),
        forall|i: int| 0 <= i < steps.len() ==> !registers(#[trigger] steps[i], id),
    ensures
        ({
            let accept = ControlEvent::Message(Some(ClientMessage::Accept(id)));
            let (joined, action) = control_step(server, accept);
            let later = stepped_by(joined, steps);
            &&& action == ControlAction::Relay(handle)
            &&& !joined.registry.conns.contains_key(id)
            &&& !later.registry.conns.contains_key(id)
            &&& control_step(later, accept) == (later, ControlAction::Close)
            &&& control_step(later, ControlEvent::RelayEnded(end)).0 == later
            &&& (control_step(later, ControlEvent::RelayEnded(end)).1 == ControlAction::Close) == (
            end is Closed)
            &&& end matches ConnectionEnd::Failed(reason) ==> control_step(
                later,
                ControlEvent::RelayEnded(end),
            ).1 == ControlAction::Fail(reason)
        }),
        crate::shared::delivered(crate::shared::relay_steps(buffered), unread) == buffered@
            + unread,
{
    let accept = ControlEvent::Message(Some(ClientMessage::Accept(id)));
    lemma_stays_missing(control_step(server, accept).0, id, steps);
    crate::shared::law_relay_keeps_order(buffered, unread);
}

/// What does not wait under an identifier does not come to wait there by itself.
proof fn lemma_stays_missing(server: ServerView, id: u128, steps: Seq<ProxyStep>)
    requires
        server.registry.accepted(id) == Accepted::Missing,
        forall|i: int| 0 <= i < steps.len() ==> !registers(#[trigger] steps[i], id),
    ensures
        stepped_by(server, steps).registry.accepted(id) == Accepted::Missing,
    decreases steps.len(),
{
    if steps.len() > 0 {
        let earlier = steps.drop_last();
        assert forall|i: int| 0 <= i < earlier.len() implies !registers(
            #[trigger] earlier[i],
            id,
        ) by {
            assert(earlier[i] == steps[i]);
        }
        lemma_stays_missing(server, id, earlier);
        lemma_step_stays_missing(stepped_by(server, earlier), id, steps[steps.len() - 1]);
    }
}

proof fn lemma_step_stays_missing(server: ServerView, id: u128, step: ProxyStep)
    requires
        server.registry.accepted(id) == Accepted::Missing,
        !registers(step, id),
    ensures
        stepped(server, step).registry.accepted(id) == Accepted::Missing,
{
}

/// Law: a proxy that lost its session becomes ready again in place: a target that connects,
/// reports a reachable backend and accepts a probe is enough.
pub proof fn law_session_recovers(
    server: ServerView,
    requested: u16,
    port: u16,
    nonce: u128,
    waited: u64,
    probe: u128,
    handle: u64,
)
    requires
        server.reliable,
        !server.active,
    ensures
        ({
            let claimed = control_step(
                server,
                ControlEvent::Message(Some(ClientMessage::Hello(requested))),
            ).0;
            let bound = control_step(claimed, ControlEvent::ListenerReady(port)).0;
            let (running, run) = control_step(bound, ControlEvent::Greeted);
            let (checking, asked, _) = reliable_step(
                running,
                ReliableSession::fresh(),
                ReliableEvent::CheckDue,
                nonce,
            );
            let report = ReliableEvent::Reply(Some(ClientMessage::Health(nonce, true)), waited);
            let (heard, reported, _) = reliable_step(checking, asked, report, nonce);
            let (probing, opened, _) = reliable_step(
                heard,
                reported,
                ReliableEvent::ProbeOpened(handle),
                probe,
            );
            let accept = ControlEvent::Message(Some(ClientMessage::Accept(probe)));
            let (accepted, completed) = control_step(probing, accept);
            let ready = reliable_step(accepted, opened, ReliableEvent::ProbePassed, probe).0;
            &&& run == ControlAction::RunReliable
            &&& completed == ControlAction::CompleteProbe(handle)
            &&& ready.health.proxy_ready()
            &&& ready.health.live == server.health.live
        }),
{
}

/// Law: the standard mode turns no target away for another one's sake and leaves the health
/// state alone.
pub proof fn law_standard_mode(
    server: ServerView,
    control: ControlEvent,
    event: StandardEvent,
    id: u128,
)
    requires
        !server.reliable,
    ensures
        control_step(server, control).0.health == server.health,
        control_step(server, control).1 != ControlAction::Reject(Refusal::Busy),
        standard_step(server, event, id).0.health == server.health,
        standard_step(server, event, id).0.active == server.active,
{
}

/// Law: the number of tries, the ten seconds that a connection may wait, and the half second
/// between the heartbeats of a standard session.
pub proof fn law_proxy_constants()
    ensures
        MAX_BIND_TRIES == 150,
        STALE_AFTER == 10 * 1_000,
        2 * HEARTBEAT_INTERVAL == 1_000,
{
}

/// Law: a target that is turned away learns why.
pub proof fn law_refusal_texts(reason: String)
    ensures
        refusal_text(Refusal::Handshake(reason)) == reason@,
        refusal_text(Refusal::Listen(ListenError::OutOfRange))
            == "client port number not in allowed range"@,
        refusal_text(Refusal::Listen(ListenError::AddrInUse)) == "port already in use"@,
        refusal_text(Refusal::Listen(ListenError::PermissionDenied)) == "permission denied"@,
        refusal_text(Refusal::Listen(ListenError::BindFailed)) == "failed to bind to port"@,
        refusal_text(Refusal::Listen(ListenError::NoneAvailable))
            == "failed to find an available port"@,
        refusal_text(Refusal::Busy) == "a reliable session is already active"@,
{
}

/// Law: the reason why a session ended names the message that was out of place, the number of
/// failures that were too many, or the failure of the connection.
pub proof fn law_end_texts(message: ClientMessage, reason: String)
    ensures
        end_text(ReliableEnd::Closed) == "control connection closed"@,
        end_text(ReliableEnd::Unexpected(message)) == "unexpected reliability message: "@
            + crate::shared::debug_text(message),
        end_text(ReliableEnd::ControlLost) == "control health failed after "@
            + crate::text::decimal(2) + " checks"@,
        end_text(ReliableEnd::TunnelBroken) == "tunnel integrity failed after "@
            + crate::text::decimal(2) + " probes"@,
        end_text(ReliableEnd::Failed(reason)) == reason@,
{
}

/// Law: how the search for a consumer port begins and goes on. A requested port is tried first,
/// and only it; otherwise each drawn port is tried as it was drawn, and each try is counted. The
/// failure to bind a requested port is reported by its kind.
pub proof fn law_port_search(
    server: ServerView,
    port: u16,
    draw: u16,
    search: PortSearch,
    kind: ErrorKind,
)
    ensures
        server.allows(port) == (server.min_port <= port && port <= server.max_port),
        server.wf() == (server.min_port <= server.max_port),
        ({
            let (first, step) = first_bind(server, port, draw);
            let allowed = server.min_port <= port && port <= server.max_port;
            &&& first.requested == port
            &&& port == 0 ==> step == BindStep::TryBind(draw) && first.tried == 1
            &&& port > 0 && allowed ==> step == BindStep::TryBind(port) && first.tried == 1
            &&& port > 0 && !allowed ==> step == BindStep::Refuse(ListenError::OutOfRange)
                && first.tried == 0
        }),
        ({
            let (next, step) = next_bind(search, kind, draw);
            &&& next.requested == search.requested
            &&& search.requested == 0 && search.tried < 150 ==> step == BindStep::TryBind(draw)
                && next.tried == search.tried + 1
            &&& search.requested == 0 && search.tried >= 150 ==> step == BindStep::Refuse(
                ListenError::NoneAvailable,
            ) && next.tried == search.tried
            &&& search.requested > 0 ==> next.tried == search.tried && step == (match kind {
                ErrorKind::AddrInUse => BindStep::Refuse(ListenError::AddrInUse),
                ErrorKind::PermissionDenied => BindStep::Refuse(ListenError::PermissionDenied),
                _ => BindStep::Refuse(ListenError::BindFailed),
            })
        }),
{
}

/// Law: a first message asks for a port, and the proxy looks for exactly that one: in standard
/// mode for every target and without any change, in reliable mode for one that finds no session.
pub proof fn law_requested_port_is_looked_for(server: ServerView, port: u16, draw: u16)
    ensures
        ({
            let (next, action) = control_step(
                server,
                ControlEvent::Message(Some(ClientMessage::Hello(port))),
            );
            &&& !server.reliable ==> next == server
            &&& !server.reliable || !server.active ==> action == ControlAction::Listen(port)
            &&& server.reliable && server.active ==> action == ControlAction::Reject(Refusal::Busy)
                && next == server
            &&& server.reliable && !server.active ==> next.active
            &&& action matches ControlAction::Listen(asked) ==> (first_bind(
                next,
                asked,
                draw,
            ).1 matches BindStep::TryBind(tried) ==> tried == if port > 0 { port } else { draw })
        }),
{
}

/// Law: what is done with a connection. A peer that fails to authenticate is told so; one that
/// accepts an identifier gets what waits there; a bound port is what the target is greeted with;
/// and a connection ends as its session, its relay or its attempt did.
pub proof fn law_control_actions(
    server: ServerView,
    reason: String,
    error: ListenError,
    port: u16,
    id: u128,
    reachable: bool,
    end: ConnectionEnd,
)
    ensures
        control_step(server, ControlEvent::HandshakeFailed(reason)).1 == ControlAction::Reject(
            Refusal::Handshake(reason),
        ),
        control_step(server, ControlEvent::ReadFailed(reason)).1 == ControlAction::Fail(reason),
        control_step(server, ControlEvent::Message(None)).1 == ControlAction::Close,
        control_step(
            server,
            ControlEvent::Message(Some(ClientMessage::Authenticate(reason))),
        ).1 == ControlAction::Close,
        control_step(
            server,
            ControlEvent::Message(Some(ClientMessage::Health(id, reachable))),
        ).1 == ControlAction::Close,
        ({
            let action = control_step(
                server,
                ControlEvent::Message(Some(ClientMessage::Accept(id))),
            ).1;
            let probes = server.registry.probes;
            let conns = server.registry.conns;
            if probes.contains_key(id) {
                action == ControlAction::CompleteProbe(probes[id])
            } else if conns.contains_key(id) {
                action == ControlAction::Relay(conns[id])
            } else {
                action == ControlAction::Close
            }
        }),
        control_step(server, ControlEvent::ListenerFailed(error)).1 == ControlAction::Reject(
            Refusal::Listen(error),
        ),
        control_step(server, ControlEvent::ListenerReady(port)).1 == ControlAction::Greet(port),
        server.reliable ==> control_step(server, ControlEvent::Greeted).1
            == ControlAction::RunReliable,
        !server.reliable ==> control_step(server, ControlEvent::Greeted).1
            == ControlAction::RunStandard,
        control_step(server, ControlEvent::GreetingFailed(reason)).1
            == ControlAction::DropListener(ConnectionEnd::Failed(reason)),
        ({
            let concluded = match end {
                ConnectionEnd::Closed => ControlAction::Close,
                ConnectionEnd::Failed(met) => ControlAction::Fail(met),
            };
            &&& control_step(server, ControlEvent::RelayEnded(end)).1 == concluded
            &&& control_step(server, ControlEvent::ListenerDropped(end)).1 == concluded
        }),
{
}

/// Whether an event of a connection gives up what a reliable session has.
pub open spec fn gives_up(event: ControlEvent) -> bool {
    event is ListenerFailed || event is GreetingFailed || event is ListenerDropped
}

/// Law: what an event of a connection leaves behind. The settings stay. Only an accept takes
/// something out of the registry, and only what it names, but for a reliable session that is
/// given up, which leaves nothing waiting and the target disconnected. A target is connected
/// once a reliable session has been greeted. The place is taken by the first message of a target
/// and freed with the consumer port.
pub proof fn law_control_is_local(server: ServerView, event: ControlEvent, other: u128)
    ensures
        ({
            let next = control_step(server, event).0;
            let ends = server.reliable && gives_up(event);
            let accepts = event matches ControlEvent::Message(Some(ClientMessage::Accept(_)));
            let greets = event matches ControlEvent::Message(Some(ClientMessage::Hello(_)));
            &&& next == (ServerView {
                health: next.health,
                registry: next.registry,
                active: next.active,
                ..server
            })
            &&& ends ==> !next.registry.conns.contains_key(other)
                && !next.registry.probes.contains_key(other)
            &&& !ends && !accepts ==> next.registry == server.registry
            &&& event matches ControlEvent::Message(Some(ClientMessage::Accept(id))) ==> {
                let named_probe = server.registry.probes.contains_key(id);
                &&& next.registry.probes == server.registry.probes.remove(id)
                &&& named_probe ==> next.registry.conns == server.registry.conns
                &&& !named_probe ==> next.registry.conns == server.registry.conns.remove(id)
            }
            &&& next.health.live == server.health.live
            &&& next.health.backend == server.health.backend
            &&& next.health.tunnel_verified == (server.health.tunnel_verified && !ends)
            &&& next.health.control_connected == ((server.health.control_connected && !ends) || (
            server.reliable && event is Greeted))
            &&& !server.reliable ==> next.active == server.active
            &&& server.reliable && (event is ListenerFailed || event is ListenerDropped)
                ==> !next.active
            &&& server.reliable && greets ==> next.active
            &&& !(event is ListenerFailed || event is ListenerDropped || greets) ==> next.active
                == server.active
        }),
{
    if let ControlEvent::Message(Some(ClientMessage::Accept(id))) = event {
        let next = control_step(server, event).0;
        assert(next.registry.probes =~= server.registry.probes.remove(id));
        if !server.registry.probes.contains_key(id) {
            assert(next.registry.conns =~= server.registry.conns.remove(id));
        }
    }
}

/// Law: the proxy listens at its configured address, changes nothing about itself by listening,
/// and gives up what a reliable session has, and its liveness, exactly where the handler of that
/// session is lost.
pub proof fn law_listening_is_local(server: ServerView, event: ListenEvent, other: u128)
    ensures
        ({
            let (next, action) = listen_step(server, event);
            let lost = server.reliable && server.active && event == ListenEvent::HandlerLost(true);
            &&& !lost ==> next == server
            &&& lost ==> {
                &&& !next.active
                &&& !next.health.live
                &&& !next.health.control_connected
                &&& !next.health.tunnel_verified
                &&& next.health.backend == server.health.backend
                &&& !next.registry.conns.contains_key(other)
                &&& !next.registry.probes.contains_key(other)
            }
            &&& next == (ServerView {
                health: next.health,
                registry: next.registry,
                active: next.active,
                ..server
            })
            &&& event == ListenEvent::Started ==> (action matches ListenAction::Bind(addr)
                && addr.ip == server.bind_addr && addr.port == server.control_port && addr.flowinfo
                == 0 && addr.scope_id == 0)
            &&& (action == ListenAction::Serve) == (event is Accepted)
            &&& (action == ListenAction::Accept) == (event is Bound || event is ConnectionEnded
                || event is HandlerLost)
        }),
{
}

/// Law: a standard session sends a heartbeat, waits half a second for a consumer, announces the
/// one that comes and begins again, until its target is gone or a failure is met.
pub proof fn law_standard_session(server: ServerView, handle: u64, id: u128, reason: String)
    ensures
        standard_step(server, StandardEvent::Started, id) == (server, StandardAction::Heartbeat),
        standard_step(server, StandardEvent::HeartbeatSent, id) == (
            server,
            StandardAction::Accept(500),
        ),
        standard_step(server, StandardEvent::Idle, id) == (server, StandardAction::Heartbeat),
        standard_step(server, StandardEvent::Announced, id) == (server, StandardAction::Heartbeat),
        standard_step(server, StandardEvent::HeartbeatFailed, id) == (
            server,
            StandardAction::End(ConnectionEnd::Closed),
        ),
        standard_step(server, StandardEvent::Failed(reason), id) == (
            server,
            StandardAction::End(ConnectionEnd::Failed(reason)),
        ),
        ({
            let (next, action) = standard_step(server, StandardEvent::Incoming(handle), id);
            &&& action == StandardAction::Announce(id, 10_000)
            &&& next == (ServerView { registry: next.registry, ..server })
            &&& next.registry.conns == server.registry.conns.insert(id, handle)
            &&& next.registry.probes == server.registry.probes
        }),
{
}

/// Law: an announcement names the identifier that was registered, a health check its nonce, and a
/// heartbeat nothing. No other action of a session sends a message.
pub proof fn law_sessions_send(
    id: u128,
    wait: u64,
    action: ReliableAction,
    standard: StandardAction,
)
    ensures
        reliable_message(ReliableAction::Check(id, wait)) == Some(ServerMessage::HealthCheck(id)),
        reliable_message(ReliableAction::Announce(id, wait)) == Some(ServerMessage::Connection(id)),
        reliable_message(ReliableAction::AnnounceProbe(id, wait)) == Some(
            ServerMessage::Connection(id),
        ),
        (reliable_message(action) is Some) == (action is Check || action is Announce
            || action is AnnounceProbe),
        standard_message(StandardAction::Announce(id, wait)) == Some(ServerMessage::Connection(id)),
        standard_message(StandardAction::Heartbeat) == Some(ServerMessage::Heartbeat),
        (standard_message(standard) is Some) == (standard is Announce || standard is Heartbeat),
{
}

/// Law: a report counts exactly if it carries the nonce of the check that waits for it; any other
/// report is an earlier one, and any other message, which is kept, has no place.
pub proof fn law_health_reply(message: ClientMessage, nonce: u128, expected: u128, reachable: bool)
    ensures
        health_reply(None, expected) == HealthReply::Closed,
        message !is Health ==> health_reply(Some(message), expected) == HealthReply::Unexpected(
            message,
        ),
        nonce == expected ==> health_reply(
            Some(ClientMessage::Health(nonce, reachable)),
            expected,
        ) == HealthReply::Report(reachable),
        nonce != expected ==> health_reply(
            Some(ClientMessage::Health(nonce, reachable)),
            expected,
        ) == HealthReply::Stale,
{
}

/// Whether a message is the report that a session waits for.
pub open spec fn is_report(session: ReliableSession, event: ReliableEvent) -> bool {
    event matches ReliableEvent::Reply(Some(ClientMessage::Health(nonce, _)), _) && nonce
        == session.nonce
}

/// Whether an event ends a reliable session: a closed or failed connection, a message out of
/// place, and a second failure in a row to get a report or to pass a probe.
pub open spec fn ends_session(session: ReliableSession, event: ReliableEvent) -> bool {
    match event {
        ReliableEvent::Failed(_) => true,
        ReliableEvent::Reply(None, _) => true,
        ReliableEvent::Reply(Some(message), _) => message !is Health,
        ReliableEvent::ReplyMissed => session.control_failures >= 1,
        ReliableEvent::ProbeFailed => session.tunnel_failures >= 1,
        ReliableEvent::ProbeNotOpened => session.tunnel_failures >= 1,
        _ => false,
    }
}

/// Law: what a reliable session does next. Checks, probes and connections are announced under the
/// identifier that was drawn for them; a probe follows a report that the backend is reachable;
/// and a session ends for the reason that was met.
pub proof fn law_reliable_actions(
    server: ServerView,
    session: ReliableSession,
    event: ReliableEvent,
    id: u128,
)
    ensures
        ({
            let action = reliable_step(server, session, event, id).2;
            &&& (action is End) == ends_session(session, event)
            &&& event is CheckDue ==> action == ReliableAction::Check(id, 2_000)
            &&& event is ProbeOpened ==> action == ReliableAction::AnnounceProbe(id, 2_000)
            &&& event is Incoming ==> action == ReliableAction::Announce(id, 10_000)
            &&& event is Announced || event is ProbePassed ==> action == ReliableAction::Wait
            &&& event is ReplyMissed || event is ProbeFailed || event is ProbeNotOpened ==> action
                is End || action == ReliableAction::Wait
            &&& event matches ReliableEvent::Failed(reason) ==> action == ReliableAction::End(
                ReliableEnd::Failed(reason),
            )
            &&& event is ReplyMissed && action is End ==> action == ReliableAction::End(
                ReliableEnd::ControlLost,
            )
            &&& (event is ProbeFailed || event is ProbeNotOpened) && action is End ==> action
                == ReliableAction::End(ReliableEnd::TunnelBroken)
            &&& event matches ReliableEvent::Reply(None, _) ==> action == ReliableAction::End(
                ReliableEnd::Closed,
            )
            &&& event matches ReliableEvent::Reply(Some(message), waited) ==> {
                &&& message !is Health ==> action == ReliableAction::End(
                    ReliableEnd::Unexpected(message),
                )
                &&& message matches ClientMessage::Health(nonce, reachable) ==> {
                    &&& nonce == session.nonce && reachable ==> action == ReliableAction::OpenProbe
                    &&& nonce == session.nonce && !reachable ==> action == ReliableAction::Wait
                    &&& nonce != session.nonce ==> (action matches ReliableAction::AwaitReply(left)
                        && left == if waited < 2_000 {
                        2_000 - waited
                    } else {
                        0
                    })
                }
            }
        }),
{
}

/// Law: what a reliable session counts and remembers. A check remembers its nonce and a probe its
/// identifier; a report clears the missed ones, and one of an unreachable backend the failed
/// probes too; a probe that passes clears the failed ones; and each failure that does not end the
/// session counts one.
pub proof fn law_reliable_counts(
    server: ServerView,
    session: ReliableSession,
    event: ReliableEvent,
    id: u128,
)
    ensures
        ({
            let next = reliable_step(server, session, event, id).1;
            let probe_fails = event is ProbeFailed || event is ProbeNotOpened;
            let unreachable = event matches ReliableEvent::Reply(Some(message), _) && message
                == ClientMessage::Health(session.nonce, false);
            &&& next.nonce == if event is CheckDue { id } else { session.nonce }
            &&& next.probe == if event is ProbeOpened { id } else { session.probe }
            &&& ends_session(session, event) ==> next == session
            &&& is_report(session, event) ==> next.control_failures == 0
            &&& event is ReplyMissed && !ends_session(session, event) ==> next.control_failures == 1
            &&& !is_report(session, event) && event !is ReplyMissed ==> next.control_failures
                == session.control_failures
            &&& event is ProbePassed || unreachable ==> next.tunnel_failures == 0
            &&& probe_fails && !ends_session(session, event) ==> next.tunnel_failures == 1
            &&& !(event is ProbePassed || unreachable || probe_fails) ==> next.tunnel_failures
                == session.tunnel_failures
        }),
        session.wf() == (session.control_failures < 2 && session.tunnel_failures < 2),
        ReliableSession::fresh().control_failures == 0,
        ReliableSession::fresh().tunnel_failures == 0,
        ReliableSession::fresh().nonce == 0,
        ReliableSession::fresh().probe == 0,
        draws_id(event) == (event is CheckDue || event is ProbeOpened || event is Incoming),
{
}

/// Law: what an event of a reliable session leaves behind in the proxy. The settings, the place
/// and liveness stay. A consumer or a probe is registered beside what waits already, and a failed
/// probe is taken out; only the end of the session takes out more, and takes out everything. A
/// report says that the target is connected and how its backend is; a missed one that it is not
/// connected; and only a probe that passes verifies the tunnel.
pub proof fn law_reliable_is_local(
    server: ServerView,
    session: ReliableSession,
    event: ReliableEvent,
    id: u128,
    other: u128,
)
    ensures
        ({
            let next = reliable_step(server, session, event, id).0;
            let ends = ends_session(session, event);
            let conns = server.registry.conns;
            let probes = server.registry.probes;
            &&& next == (ServerView { health: next.health, registry: next.registry, ..server })
            &&& ends ==> !next.registry.conns.contains_key(other)
                && !next.registry.probes.contains_key(other)
            &&& !ends ==> next.registry.conns == match event {
                ReliableEvent::Incoming(handle) => conns.insert(id, handle),
                _ => conns,
            }
            &&& !ends ==> next.registry.probes == match event {
                ReliableEvent::ProbeOpened(handle) => probes.insert(id, handle),
                ReliableEvent::ProbeFailed => probes.remove(session.probe),
                _ => probes,
            }
            &&& next.health.live == server.health.live
            &&& next.health.control_connected == (is_report(session, event) || (!ends
                && event !is ReplyMissed && server.health.control_connected))
            &&& !is_report(session, event) ==> next.health.backend == server.health.backend
            &&& event matches ReliableEvent::Reply(Some(ClientMessage::Health(nonce, reachable)), _)
                ==> nonce == session.nonce ==> {
                &&& (next.health.backend == crate::health::Backend::Healthy) == reachable
                &&& (next.health.backend == crate::health::Backend::Unhealthy) == !reachable
                &&& next.health.tunnel_verified == (server.health.tunnel_verified && reachable)
            }
            &&& !is_report(session, event) ==> next.health.tunnel_verified == (
            event is ProbePassed || (!ends && event !is ReplyMissed && event !is ProbeFailed
                && event !is ProbeNotOpened && server.health.tunnel_verified))
        }),
{
}

/// Whether a step may take a consumer connection out of the registry, or put another one in its
/// place: its own accept, its own expiry, a registration under its identifier, and whatever gives
/// up a reliable session.
pub open spec fn concerns(server: ServerView, step: ProxyStep, id: u128) -> bool {
    match step {
        ProxyStep::Control(_, event) => {
            ||| event == ControlEvent::Message(Some(ClientMessage::Accept(id)))
            ||| server.reliable && gives_up(event)
        },
        ProxyStep::Reliable(_, session, event, drawn) => {
            ||| ends_session(session, event)
            ||| drawn == id && (event is Incoming || event is ProbeOpened)
        },
        ProxyStep::Standard(_, event, drawn) => drawn == id && event is Incoming,
        ProxyStep::Lost(_, held) => server.reliable && held,
        ProxyStep::Expired(expired) => expired == id,
    }
}

/// Law: a consumer connection that waits goes on waiting, under the same handle, whatever else
/// happens: until it is accepted or expires, its session is given up, or another one is
/// registered under its identifier. Whoever accepts it meanwhile is joined with it.
pub proof fn law_waiting_connection_is_kept(
    server: ServerView,
    id: u128,
    handle: u64,
    steps: Seq<ProxyStep>,
)
    requires
        server.registry.conns.contains_key(id),
        server.registry.conns[id] == handle,
        !server.registry.probes.contains_key(id),
        forall|i: int| 0 <= i < steps.len() ==> !concerns(server, #[trigger] steps[i], id),
    ensures
        ({
            let later = stepped_by(server, steps);
            &&& later.registry.conns.contains_key(id)
            &&& later.registry.conns[id] == handle
            &&& !later.registry.probes.contains_key(id)
            &&& control_step(later, ControlEvent::Message(Some(ClientMessage::Accept(id)))).1
                == ControlAction::Relay(handle)
        }),
    decreases steps.len(),
{
    if steps.len() > 0 {
        let earlier = steps.drop_last();
        assert forall|i: int| 0 <= i < earlier.len() implies !concerns(
            server,
            #[trigger] earlier[i],
            id,
        ) by {
            assert(earlier[i] == steps[i]);
        }
        law_waiting_connection_is_kept(server, id, handle, earlier);
        law_proxy_keeps_settings(server, earlier);
        assert(!concerns(server, steps[steps.len() - 1], id));
    }
}

/// Law: a consumer that connects, in a session of either kind, is joined with the peer that
/// accepts the identifier of its announcement, whatever happens in between that does not concern
/// it: that the announcement has been sent, other consumers, checks and probes.
pub proof fn law_announced_connection_is_joined(
    server: ServerView,
    session: ReliableSession,
    id: u128,
    handle: u64,
    steps: Seq<ProxyStep>,
)
    requires
        !server.registry.probes.contains_key(id),
        forall|i: int| 0 <= i < steps.len() ==> !concerns(server, #[trigger] steps[i], id),
    ensures
        ({
            let accept = ControlEvent::Message(Some(ClientMessage::Accept(id)));
            let reliable = reliable_step(server, session, ReliableEvent::Incoming(handle), id).0;
            let standard = standard_step(server, StandardEvent::Incoming(handle), id).0;
            &&& control_step(stepped_by(reliable, steps), accept).1 == ControlAction::Relay(handle)
            &&& control_step(stepped_by(standard, steps), accept).1 == ControlAction::Relay(handle)
        }),
{
    let reliable = reliable_step(server, session, ReliableEvent::Incoming(handle), id).0;
    let standard = standard_step(server, StandardEvent::Incoming(handle), id).0;
    assert forall|i: int| 0 <= i < steps.len() implies !concerns(
        reliable,
        #[trigger] steps[i],
        id,
    ) && !concerns(standard, steps[i], id) by {
        assert(!concerns(server, steps[i], id));
    }
    law_waiting_connection_is_kept(reliable, id, handle, steps);
    law_waiting_connection_is_kept(standard, id, handle, steps);
}

/// Law: a probe that waits is completed by the peer that accepts it, whatever else happens, until
/// it is accepted or fails, its session is given up, or another one is registered under its
/// identifier.
pub proof fn law_waiting_probe_is_kept(
    server: ServerView,
    id: u128,
    handle: u64,
    steps: Seq<ProxyStep>,
)
    requires
        server.registry.probes.contains_key(id),
        server.registry.probes[id] == handle,
        forall|i: int|
            0 <= i < steps.len() ==> !concerns(server, #[trigger] steps[i], id) && !(
            steps[i] matches ProxyStep::Reliable(_, session, event, _) && event is ProbeFailed
                && session.probe == id),
    ensures
        ({
            let later = stepped_by(server, steps);
            &&& later.registry.probes.contains_key(id)
            &&& later.registry.probes[id] == handle
            &&& control_step(later, ControlEvent::Message(Some(ClientMessage::Accept(id)))).1
                == ControlAction::CompleteProbe(handle)
        }),
    decreases steps.len(),
{
    if steps.len() > 0 {
        let earlier = steps.drop_last();
        assert forall|i: int| 0 <= i < earlier.len() implies !concerns(
            server,
            #[trigger] earlier[i],
            id,
        ) && !(earlier[i] matches ProxyStep::Reliable(_, session, event, _) && event is ProbeFailed
            && session.probe == id) by {
            assert(earlier[i] == steps[i]);
        }
        law_waiting_probe_is_kept(server, id, handle, earlier);
        law_proxy_keeps_settings(server, earlier);
        assert(!concerns(server, steps[steps.len() - 1], id));
    }
}

/// Law: a connection holds the place of the session from the search for its port until that port
/// is given up, and only then.
pub proof fn law_holding(action: ControlAction)
    ensures
        holding(action) == !(action is Reject || action is CompleteProbe || action is Relay
            || action is Close || action is Fail),
{
}

} // verus!
