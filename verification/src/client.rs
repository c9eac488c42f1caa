//! The target: it keeps a control session with the proxy and serves the connections that the
//! proxy announces.

use vstd::prelude::*;
use vstd::string::*;

use crate::health::{serve, HealthState};
use crate::random::random_up_to;
use crate::shared::{
    ClientMessage, Endpoint, ErrorKind, ServerMessage, SocketAddr, CONNECTION_ATTEMPT_TIMEOUT,
    CONNECT_TIMEOUT, HEALTH_CHECK_INTERVAL, HEALTH_FAILURE_THRESHOLD, NETWORK_TIMEOUT,
};
use crate::text::decimal_text;

verus! {

/// How long a session must last for the reconnect backoff to start over, in milliseconds.
pub const BACKOFF_RESET_AFTER: u64 = 10_000;

/// The longest pause between two connection attempts, in milliseconds.
pub const MAX_RECONNECT_DELAY: u64 = 2_000;

/// The reconnect delay after a number of earlier failures, before jitter, in milliseconds.
pub open spec fn ladder(failed_attempts: nat) -> nat {
    if failed_attempts == 0 {
        100
    } else if failed_attempts == 1 {
        250
    } else if failed_attempts == 2 {
        500
    } else if failed_attempts == 3 {
        1_000
    } else {
        2_000
    }
}

/// The shortest delay that jitter leaves: twenty percent less.
pub open spec fn shortest_delay(failed_attempts: nat) -> nat {
    ladder(failed_attempts) * 4 / 5
}

/// The longest delay that jitter leaves: twenty percent more, but never over the maximum.
pub open spec fn longest_delay(failed_attempts: nat) -> nat {
    let raised = ladder(failed_attempts) * 6 / 5;
    if raised <= MAX_RECONNECT_DELAY {
        raised
    } else {
        MAX_RECONNECT_DELAY as nat
    }
}

/// Returns the delay before jitter.
fn base_delay(failed_attempts: usize) -> (delay: u64)
    ensures
        delay == ladder(failed_attempts as nat),
{
    match failed_attempts {
        0 => 100,
        1 => 250,
        2 => 500,
        3 => 1_000,
        _ => 2_000,
    }
}

/// Returns how much jitter may be added to the shortest delay.
pub fn jitter_limit(failed_attempts: usize) -> (limit: u64)
    ensures
        limit == longest_delay(failed_attempts as nat) - shortest_delay(failed_attempts as nat),
{
    let base: u64 = base_delay(failed_attempts);
    let low: u64 = base * 4 / 5;
    let high: u64 = base * 6 / 5;
    if high <= MAX_RECONNECT_DELAY {
        high - low
    } else {
        MAX_RECONNECT_DELAY - low
    }
}

/// Returns the reconnect delay with a given jitter.
pub fn jittered_delay(failed_attempts: usize, jitter: u64) -> (delay: u64)
    requires
        jitter <= longest_delay(failed_attempts as nat) - shortest_delay(failed_attempts as nat),
    ensures
        delay == shortest_delay(failed_attempts as nat) + jitter,
{
    base_delay(failed_attempts) * 4 / 5 + jitter
}

/// Returns how long to wait before the next connection attempt, in milliseconds, with a random
/// jitter.
pub fn reconnect_delay(failed_attempts: usize) -> (delay: u64)
    ensures
        shortest_delay(failed_attempts as nat) <= delay <= longest_delay(failed_attempts as nat),
{
    jittered_delay(failed_attempts, random_up_to(jitter_limit(failed_attempts)))
}

/// Law: every reconnect delay stays within twenty percent of its step of the ladder and never
/// exceeds two seconds; the ladder climbs and is exhausted after four failures; and it never
/// comes down to a delay that would make a tight loop. Even a blackholed proxy is tried every
/// five seconds.
pub proof fn law_reconnect_delay(failed_attempts: nat)
    ensures
        shortest_delay(failed_attempts) * 5 == ladder(failed_attempts) * 4,
        longest_delay(failed_attempts) * 5 <= ladder(failed_attempts) * 6,
        longest_delay(failed_attempts) <= 2_000,
        ladder(failed_attempts) * 6 <= 10_000 ==> longest_delay(failed_attempts) * 5 == ladder(
            failed_attempts,
        ) * 6,
        ladder(failed_attempts) * 6 > 10_000 ==> longest_delay(failed_attempts) == 2_000,
        80 <= shortest_delay(failed_attempts) <= ladder(failed_attempts) <= longest_delay(
            failed_attempts,
        ),
        ladder(failed_attempts) <= ladder(failed_attempts + 1),
        failed_attempts >= 4 ==> ladder(failed_attempts) == 2_000,
        CONNECTION_ATTEMPT_TIMEOUT + longest_delay(failed_attempts) <= 5_000,
{
}

/// Whether a failure means that the peer closed the connection.
pub open spec fn peer_reset(kind: ErrorKind) -> bool {
    kind == ErrorKind::ConnectionReset || kind == ErrorKind::BrokenPipe
}

/// Returns whether a failed transfer is to be taken as closed by the peer.
pub fn is_peer_reset(kind: ErrorKind) -> (reset: bool)
    ensures
        reset == peer_reset(kind),
{
    matches!(kind, ErrorKind::ConnectionReset | ErrorKind::BrokenPipe)
}

/// Whether a connection was forwarded successfully, by the failure of its two-way copy: the copy
/// came to its end, or the peer closed the connection.
pub open spec fn forwarded(copy: Option<ErrorKind>) -> bool {
    match copy {
        Some(kind) => peer_reset(kind),
        None => true,
    }
}

/// Returns whether a connection was forwarded successfully, by the failure of its two-way copy.
pub fn forwarding_done(copy: Option<ErrorKind>) -> (done: bool)
    ensures
        done == forwarded(copy),
        done == (copy is None || peer_reset(copy->0)),
{
    match copy {
        Some(kind) => is_peer_reset(kind),
        None => true,
    }
}

/// Why a control connection could not be opened.
#[derive(Debug, PartialEq, Eq)]
pub enum ClientError {
    /// The proxy refused, with a reason.
    Server(String),
    /// The proxy wants a secret and none is configured.
    AuthenticationRequired,
    /// The first message was not a greeting.
    NotHello,
    /// The connection was closed before the greeting.
    Eof,
    /// The proxy bound another port than in the earlier sessions.
    UnexpectedPort(u16),
}

/// The text of an error.
pub open spec fn error_text(error: ClientError) -> Seq<char> {
    match error {
        ClientError::Server(reason) => "server error: "@ + reason@,
        ClientError::AuthenticationRequired =>
            "server requires authentication, but no client secret was provided"@,
        ClientError::NotHello => "unexpected initial non-hello message"@,
        ClientError::Eof => "unexpected EOF"@,
        ClientError::UnexpectedPort(port) => "server assigned unexpected remote port "@
            + crate::text::decimal(port as nat),
    }
}

impl ClientError {
    /// Returns the text of the error.
    pub fn message(&self) -> (text: String)
        ensures
            text@ == error_text(*self),
    {
        match self {
            ClientError::Server(reason) => {
                let mut text = "server error: ".to_owned();
                text.append(reason);
                text
            },
            ClientError::AuthenticationRequired =>
                "server requires authentication, but no client secret was provided".to_owned(),
            ClientError::NotHello => "unexpected initial non-hello message".to_owned(),
            ClientError::Eof => "unexpected EOF".to_owned(),
            ClientError::UnexpectedPort(port) => {
                let mut text = "server assigned unexpected remote port ".to_owned();
                text.append(&decimal_text(*port as usize));
                text
            },
        }
    }
}

/// One step of opening a connection to the proxy. The steps are performed in order, and the
/// first failure ends the sequence.
#[derive(Debug, PartialEq, Eq)]
pub enum Step {
    /// Connect to the proxy.
    ConnectProxy(Endpoint),
    /// Answer the proxy's authentication challenge.
    Authenticate,
    /// Connect to the backend.
    ConnectBackend(Endpoint),
    /// Send a message to the proxy.
    Send(ClientMessage),
    /// Wait for the proxy's first message.
    AwaitReply,
    /// Join the connection to the proxy with the backend.
    Relay,
}

/// The time limit of a step, in milliseconds: every connect and every wait for the proxy has
/// one.
pub open spec fn step_limit(step: Step) -> Option<u64> {
    match step {
        Step::ConnectProxy(_) => Some(CONNECT_TIMEOUT),
        Step::ConnectBackend(_) => Some(CONNECT_TIMEOUT),
        Step::Authenticate => Some(NETWORK_TIMEOUT),
        Step::AwaitReply => Some(NETWORK_TIMEOUT),
        Step::Send(_) => None,
        Step::Relay => None,
    }
}

impl Step {
    /// Returns the time limit of the step, in milliseconds.
    pub fn limit(&self) -> (limit: Option<u64>)
        ensures
            limit == step_limit(*self),
    {
        match self {
            Step::ConnectProxy(_) => Some(CONNECT_TIMEOUT),
            Step::ConnectBackend(_) => Some(CONNECT_TIMEOUT),
            Step::Authenticate => Some(NETWORK_TIMEOUT),
            Step::AwaitReply => Some(NETWORK_TIMEOUT),
            Step::Send(_) => None,
            Step::Relay => None,
        }
    }
}

/// An attempt to open a control session in two parts, with time limits in milliseconds.
#[derive(Debug, PartialEq, Eq)]
pub struct Attempt {
    /// Reaching the proxy.
    pub connect: Vec<Step>,
    /// Authentication and greeting.
    pub handshake: Vec<Step>,
    /// Limit of the handshake.
    pub handshake_limit: u64,
    /// Limit of the two parts together.
    pub limit: u64,
}

/// Reaching the proxy, with authentication where a secret is configured.
pub open spec fn dial_steps(proxy: Endpoint, authenticate: bool) -> Seq<Step> {
    if authenticate {
        seq![Step::ConnectProxy(proxy), Step::Authenticate]
    } else {
        seq![Step::ConnectProxy(proxy)]
    }
}

/// Opening a control session that asks for a consumer port.
pub open spec fn control_steps(proxy: Endpoint, authenticate: bool, port: u16) -> Seq<Step> {
    dial_steps(proxy, authenticate) + seq![
        Step::Send(ClientMessage::Hello(port)),
        Step::AwaitReply,
    ]
}

/// Accepting an announced connection, which happens only after the backend is connected.
pub open spec fn accept_steps(
    proxy: Endpoint,
    authenticate: bool,
    backend: Endpoint,
    id: u128,
) -> Seq<Step> {
    dial_steps(proxy, authenticate) + seq![
        Step::ConnectBackend(backend),
        Step::Send(ClientMessage::Accept(id)),
    ]
}

fn dial(proxy: Endpoint, authenticate: bool) -> (steps: Vec<Step>)
    ensures
        steps@ == dial_steps(proxy, authenticate),
{
    let mut steps: Vec<Step> = Vec::new();
    steps.push(Step::ConnectProxy(proxy));
    if authenticate {
        steps.push(Step::Authenticate);
    }
    steps
}

/// Returns the steps that open a control session.
pub fn open_control(proxy: Endpoint, authenticate: bool, port: u16) -> (steps: Vec<Step>)
    ensures
        steps@ == control_steps(proxy, authenticate, port),
{
    let mut steps: Vec<Step> = Vec::new();
    steps.push(Step::ConnectProxy(proxy));
    let mut rest = handshake(authenticate, port);
    steps.append(&mut rest);
    steps
}

fn handshake(authenticate: bool, port: u16) -> (steps: Vec<Step>)
    ensures
        steps@ == (if authenticate {
            seq![Step::Authenticate]
        } else {
            seq![]
        }) + seq![Step::Send(ClientMessage::Hello(port)), Step::AwaitReply],
{
    let mut steps: Vec<Step> = Vec::new();
    if authenticate {
        steps.push(Step::Authenticate);
    }
    steps.push(Step::Send(ClientMessage::Hello(port)));
    steps.push(Step::AwaitReply);
    steps
}

/// Law: a control connection attempt authenticates before it asks for a port, and each of its
/// waits for the network, each part and the whole have a limit. A blackholed proxy costs no more
/// than three seconds.
pub proof fn law_attempt_is_bounded(proxy: Endpoint, authenticate: bool, port: u16)
    ensures
        ({
            let steps = control_steps(proxy, authenticate, port);
            let last = steps.len() - 1;
            &&& steps[0] == Step::ConnectProxy(proxy)
            &&& authenticate ==> steps[1] == Step::Authenticate
            &&& steps[last - 1] == Step::Send(ClientMessage::Hello(port))
            &&& steps[last] == Step::AwaitReply
            &&& forall|i: int|
                0 <= i <= last ==> (step_limit(#[trigger] steps[i]) is Some) == !(steps[i] is Send)
            &&& forall|i: int|
                0 <= i <= last ==> (step_limit(#[trigger] steps[i]) matches Some(limit) ==> limit
                    <= 2_000)
        }),
        CONNECTION_ATTEMPT_TIMEOUT == 3_000,
{
}

/// Law: a connection is accepted only after the backend has been connected, and nothing is sent
/// before the proxy has been reached and, with a secret, the target has authenticated.
pub proof fn law_accept_comes_last(
    proxy: Endpoint,
    authenticate: bool,
    backend: Endpoint,
    id: u128,
)
    ensures
        ({
            let steps = accept_steps(proxy, authenticate, backend, id);
            let last = steps.len() - 1;
            &&& steps[0] == Step::ConnectProxy(proxy)
            &&& authenticate ==> steps[1] == Step::Authenticate
            &&& steps[last - 1] == Step::ConnectBackend(backend)
            &&& steps[last] == Step::Send(ClientMessage::Accept(id))
            &&& forall|i: int| 0 <= i < last ==> !(#[trigger] steps[i] is Send)
            &&& forall|i: int| 0 <= i <= last ==> !(#[trigger] steps[i] is Relay)
        }),
{
}

/// Whether a step succeeded, by its failure. Only a relay that the peer cut short is a success
/// in spite of one.
pub open spec fn step_succeeds(step: Step, failure: Option<ErrorKind>) -> bool {
    match step {
        Step::Relay => forwarded(failure),
        _ => failure is None,
    }
}

/// How many steps are performed, one after the other up to the first that does not succeed, by
/// the failure that each of them would meet.
pub open spec fn performed(steps: Seq<Step>, failures: Seq<Option<ErrorKind>>) -> nat
    decreases steps.len(),
{
    if steps.len() == 0 {
        0
    } else if step_succeeds(steps[0], failures[0]) {
        1 + performed(steps.drop_first(), failures.drop_first())
    } else {
        1
    }
}

/// Whether all steps are performed and succeed.
pub open spec fn succeeds(steps: Seq<Step>, failures: Seq<Option<ErrorKind>>) -> bool {
    forall|i: int| 0 <= i < steps.len() ==> step_succeeds(#[trigger] steps[i], failures[i])
}

proof fn lemma_performed(steps: Seq<Step>, failures: Seq<Option<ErrorKind>>, step: int)
    requires
        failures.len() == steps.len(),
        0 <= step < steps.len(),
        !step_succeeds(steps[step], failures[step]),
    ensures
        performed(steps, failures) <= step + 1,
    decreases steps.len(),
{
    if step > 0 && step_succeeds(steps[0], failures[0]) {
        lemma_performed(steps.drop_first(), failures.drop_first(), step - 1);
    }
}

/// Law: a consumer connection is not accepted where the proxy cannot be reached, the target
/// cannot authenticate or the backend cannot be reached, and serving it fails. Otherwise it is
/// accepted once and joined with the backend, and serving it succeeds exactly when the copy
/// comes to its end or the peer closes the connection.
pub proof fn law_forwarding_result(
    proxy: Endpoint,
    authenticate: bool,
    backend: Endpoint,
    id: u128,
    failures: Seq<Option<ErrorKind>>,
)
    requires
        failures.len() == accept_steps(proxy, authenticate, backend, id).len() + 1,
    ensures
        ({
            let steps = accept_steps(proxy, authenticate, backend, id).push(Step::Relay);
            let relay = steps.len() - 1;
            let accept = relay - 1;
            let opened = forall|i: int| 0 <= i < accept ==> (#[trigger] failures[i]) is None;
            &&& steps[relay] == Step::Relay
            &&& steps[accept] == Step::Send(ClientMessage::Accept(id))
            &&& forall|i: int| 0 <= i < accept ==> !(#[trigger] steps[i] is Send)
            &&& !opened ==> performed(steps, failures) <= accept && !succeeds(steps, failures)
            &&& opened && failures[accept] is None ==> {
                &&& performed(steps, failures) == steps.len()
                &&& succeeds(steps, failures) == forwarded(failures[relay])
            }
        }),
{
    let steps = accept_steps(proxy, authenticate, backend, id).push(Step::Relay);
    let relay = steps.len() - 1;
    let accept = relay - 1;
    if exists|i: int| 0 <= i < accept && (#[trigger] failures[i]) is Some {
        let failed = choose|i: int| 0 <= i < accept && (#[trigger] failures[i]) is Some;
        assert(!step_succeeds(steps[failed], failures[failed]));
        lemma_performed(steps, failures, failed);
    } else {
        assert(forall|i: int| 0 <= i < accept ==> (#[trigger] failures[i]) is None);
        if failures[accept] is None {
            assert(succeeds(steps.drop_last(), failures.drop_last()));
            lemma_last_performed(steps, failures);
            assert(succeeds(steps, failures) ==> step_succeeds(steps[relay], failures[relay]));
        }
    }
}

/// The last step is performed where all before it succeed.
proof fn lemma_last_performed(steps: Seq<Step>, failures: Seq<Option<ErrorKind>>)
    requires
        steps.len() > 0,
        failures.len() == steps.len(),
        succeeds(steps.drop_last(), failures.drop_last()),
    ensures
        performed(steps, failures) == steps.len(),
    decreases steps.len(),
{
    let rest = steps.drop_first();
    let others = failures.drop_first();
    if steps.len() > 1 {
        assert(steps.drop_last()[0] == steps[0]);
        assert forall|i: int| 0 <= i < rest.drop_last().len() implies step_succeeds(
            #[trigger] rest.drop_last()[i],
            others.drop_last()[i],
        ) by {
            assert(step_succeeds(steps.drop_last()[i + 1], failures.drop_last()[i + 1]));
        }
        lemma_last_performed(rest, others);
    } else {
        reveal_with_fuel(performed, 2);
    }
}

/// Model of a [`Client`].
pub struct ClientView {
    pub to: String,
    pub local_host: String,
    pub local_port: u16,
    pub remote_port: u16,
    pub requested_port: u16,
    pub secret: Option<String>,
    pub control_port: u16,
    pub reliable: bool,
    pub health_addr: Option<SocketAddr>,
    pub health: crate::health::HealthView,
    pub connected: bool,
    pub failed_attempts: usize,
    pub resumed: bool,
    pub missed: u32,
}

impl ClientView {
    /// A client that had a session has counted the attempt to replace it, and a session with
    /// too many missed heartbeats is over.
    pub open spec fn wf(self) -> bool {
        &&& self.resumed ==> self.failed_attempts >= 1
        &&& self.missed < HEALTH_FAILURE_THRESHOLD
    }

    pub open spec fn proxy(self) -> Endpoint {
        Endpoint { host: self.to, port: self.control_port }
    }

    pub open spec fn backend(self) -> Endpoint {
        Endpoint { host: self.local_host, port: self.local_port }
    }

    /// The port to ask for: the configured one, or any at first and the assigned one from then
    /// on.
    pub open spec fn wanted_port(self) -> u16 {
        if self.requested_port == 0 {
            self.remote_port
        } else {
            self.requested_port
        }
    }

    /// The step of the backoff ladder that a failed attempt leads to.
    pub open spec fn rung(self) -> usize {
        if self.resumed {
            (self.failed_attempts - 1) as usize
        } else {
            self.failed_attempts
        }
    }
}

/// The state of a client that has the given configuration and has not started.
pub open spec fn configured(
    client: ClientView,
    local_host: Seq<char>,
    local_port: u16,
    to: Seq<char>,
    port: u16,
    secret: Option<Seq<char>>,
    control_port: u16,
) -> bool {
    &&& client.local_host@ == local_host
    &&& client.local_port == local_port
    &&& client.to@ == to
    &&& client.requested_port == port
    &&& match secret {
        Some(text) => client.secret is Some && client.secret->0@ == text,
        None => client.secret is None,
    }
    &&& client.control_port == control_port
    &&& client.health_addr is None
    &&& client.health == crate::health::HealthView::started()
    &&& client.failed_attempts == 0
    &&& !client.resumed
    &&& client.missed == 0
}

/// The view of an optional text.
pub open spec fn text_of(text: Option<&str>) -> Option<Seq<char>> {
    match text {
        Some(chars) => Some(chars@),
        None => None,
    }
}

fn owned(text: Option<&str>) -> (result: Option<String>)
    ensures
        match text_of(text) {
            Some(chars) => result is Some && result->0@ == chars,
            None => result is None,
        },
{
    match text {
        Some(chars) => Some(chars.to_owned()),
        None => None,
    }
}

/// What the proxy's first message means for a first connection: the port that was bound, or
/// why there is none.
pub open spec fn greeting(reply: Option<ServerMessage>) -> Result<u16, ClientError> {
    match reply {
        Some(ServerMessage::Hello(port)) => Ok(port),
        Some(ServerMessage::Error(reason)) => Err(ClientError::Server(reason)),
        Some(ServerMessage::Challenge(_)) => Err(ClientError::AuthenticationRequired),
        Some(_) => Err(ClientError::NotHello),
        None => Err(ClientError::Eof),
    }
}

/// What the proxy's first message means for a control connection of a running client. The port
/// of earlier sessions must be bound again.
pub open spec fn renewal(client: ClientView, reply: Option<ServerMessage>) -> Result<
    u16,
    ClientError,
> {
    match reply {
        Some(ServerMessage::Hello(port)) => if client.remote_port != 0 && port
            != client.remote_port {
            Err(ClientError::UnexpectedPort(port))
        } else {
            Ok(port)
        },
        Some(ServerMessage::Error(reason)) => Err(ClientError::Server(reason)),
        Some(_) => Err(ClientError::NotHello),
        None => Err(ClientError::Eof),
    }
}

/// What happened to the session supervisor.
#[derive(Debug, PartialEq, Eq)]
pub enum SupervisorEvent {
    /// The supervisor was started.
    Started,
    /// A control connection was opened.
    Dialed,
    /// A control connection could not be opened, or not in time.
    DialFailed,
    /// A pause is over.
    Rested,
    /// The control session ended for this reason, after so many milliseconds.
    SessionEnded(SessionEnd, u64),
}

/// What the session supervisor does next.
#[derive(Debug, PartialEq, Eq)]
pub enum SupervisorAction {
    /// Open a control connection.
    Dial,
    /// Wait for the reconnect delay after so many failures.
    Rest(usize),
    /// Run a session on the open control connection.
    Run,
    /// Return the result of the session that ended for this reason.
    Stop(SessionEnd),
}

/// One more, up to the largest number.
pub open spec fn bumped(count: usize) -> usize {
    if count < usize::MAX {
        (count + 1) as usize
    } else {
        count
    }
}

/// A client whose control session has just been established.
pub open spec fn session_started(client: ClientView) -> ClientView {
    ClientView { connected: false, missed: 0, health: client.health.with_control(true), ..client }
}

/// The transitions of the session supervisor.
pub open spec fn supervised(client: ClientView, event: SupervisorEvent) -> (
    ClientView,
    SupervisorAction,
) {
    match event {
        SupervisorEvent::Started => if client.connected {
            (session_started(client), SupervisorAction::Run)
        } else {
            (client, SupervisorAction::Dial)
        },
        SupervisorEvent::Dialed => (session_started(client), SupervisorAction::Run),
        SupervisorEvent::DialFailed => (
            ClientView { failed_attempts: bumped(client.failed_attempts), ..client },
            SupervisorAction::Rest(client.rung()),
        ),
        SupervisorEvent::Rested => (client, SupervisorAction::Dial),
        SupervisorEvent::SessionEnded(end, lasted) => {
            let lost = ClientView { health: client.health.with_control(false), ..client };
            if !client.reliable {
                (lost, SupervisorAction::Stop(end))
            } else if lasted >= BACKOFF_RESET_AFTER {
                (
                    ClientView { failed_attempts: 1, resumed: true, ..lost },
                    SupervisorAction::Dial,
                )
            } else {
                (
                    ClientView {
                        failed_attempts: bumped(client.failed_attempts),
                        resumed: true,
                        ..lost
                    },
                    if client.failed_attempts > 0 {
                        SupervisorAction::Rest((client.failed_attempts - 1) as usize)
                    } else {
                        SupervisorAction::Dial
                    },
                )
            }
        },
    }
}

/// What happened on the control connection of a running session.
#[derive(Debug, PartialEq, Eq)]
pub enum SessionEvent {
    /// The proxy sent a message.
    Message(ServerMessage),
    /// The proxy closed the connection.
    Closed,
    /// Reading, decoding or writing a message failed, with a reason.
    Failed(String),
    /// The proxy was silent for as long as it may be.
    Silent,
}

/// Why a session ended.
#[derive(Debug, PartialEq, Eq)]
pub enum SessionEnd {
    /// The proxy closed the connection.
    Closed,
    /// The proxy gave up, with a reason.
    Server(String),
    /// Reading, decoding or writing a message failed, with a reason.
    Failed(String),
    /// The proxy stayed silent.
    Lost,
}

/// The text of the reason why a session ended.
pub open spec fn session_text(end: SessionEnd) -> Seq<char> {
    match end {
        SessionEnd::Closed => "control session closed"@,
        SessionEnd::Server(reason) => "server error: "@ + reason@,
        SessionEnd::Failed(reason) => reason@,
        SessionEnd::Lost => "control heartbeats missed"@,
    }
}

/// The result of a session: only one that the proxy closed was successful.
pub open spec fn session_result(end: SessionEnd) -> Result<(), Seq<char>> {
    match end {
        SessionEnd::Closed => Ok(()),
        _ => Err(session_text(end)),
    }
}

impl SessionEnd {
    /// Returns the text of the reason.
    pub fn message(&self) -> (text: String)
        ensures
            text@ == session_text(*self),
    {
        match self {
            SessionEnd::Closed => "control session closed".to_owned(),
            SessionEnd::Server(reason) => {
                let mut text = "server error: ".to_owned();
                text.append(reason);
                text
            },
            SessionEnd::Failed(reason) => reason.as_str().to_owned(),
            SessionEnd::Lost => "control heartbeats missed".to_owned(),
        }
    }

    /// Returns the result of the session, with the text of the reason where it failed.
    pub fn result(&self) -> (result: Result<(), String>)
        ensures
            match session_result(*self) {
                Ok(()) => result is Ok,
                Err(text) => result is Err && result->Err_0@ == text,
            },
    {
        match self {
            SessionEnd::Closed => Ok(()),
            _ => Err(self.message()),
        }
    }
}

/// What a running session does next.
#[derive(Debug, PartialEq, Eq)]
pub enum SessionAction {
    /// Wait for the next message.
    Listen,
    /// Answer the proxy.
    Reply(ClientMessage),
    /// Serve a tunnel probe in the background.
    Probe(u128),
    /// Serve a connection in the background.
    Forward(u128),
    /// End the session.
    End(SessionEnd),
}

/// The transitions of a running session. Any message shows that the proxy is there.
pub open spec fn session_step(client: ClientView, event: SessionEvent) -> (
    ClientView,
    SessionAction,
) {
    let heard = ClientView { missed: 0, ..client };
    match event {
        SessionEvent::Message(ServerMessage::HealthCheck(nonce)) => (
            heard,
            SessionAction::Reply(
                ClientMessage::Health(nonce, client.health.backend
                    == crate::health::Backend::Healthy),
            ),
        ),
        SessionEvent::Message(ServerMessage::TunnelProbe(id)) => (heard, SessionAction::Probe(id)),
        SessionEvent::Message(ServerMessage::Connection(id)) => (heard, SessionAction::Forward(id)),
        SessionEvent::Message(ServerMessage::Error(reason)) => (
            heard,
            SessionAction::End(SessionEnd::Server(reason)),
        ),
        SessionEvent::Message(_) => (heard, SessionAction::Listen),
        SessionEvent::Closed => (client, SessionAction::End(SessionEnd::Closed)),
        SessionEvent::Failed(reason) => (client, SessionAction::End(SessionEnd::Failed(reason))),
        SessionEvent::Silent => if !client.reliable {
            (client, SessionAction::Listen)
        } else if client.missed + 1 >= HEALTH_FAILURE_THRESHOLD {
            (client, SessionAction::End(SessionEnd::Lost))
        } else {
            (
                ClientView { missed: (client.missed + 1) as u32, ..client },
                SessionAction::Listen,
            )
        },
    }
}

/// How long the proxy may be silent before a heartbeat counts as missed: the first one is due
/// after one interval and may be late by one timeout, each later one follows an interval
/// after. The standard mode waits without limit.
pub open spec fn silence_limit(client: ClientView) -> Option<u64> {
    if !client.reliable {
        None
    } else if client.missed == 0 {
        Some((HEALTH_CHECK_INTERVAL + NETWORK_TIMEOUT) as u64)
    } else {
        Some(HEALTH_CHECK_INTERVAL)
    }
}

/// State of the target.
pub struct Client {
    /// Host of the proxy.
    to: String,
    /// Local host that is forwarded.
    local_host: String,
    /// Local port that is forwarded.
    local_port: u16,
    /// Port that is publicly available on the proxy; zero while none is assigned.
    remote_port: u16,
    /// Port requested when establishing a control session.
    requested_port: u16,
    /// Optional secret used to authenticate.
    secret: Option<String>,
    /// TCP port used for control connections with the proxy.
    control_port: u16,
    /// Whether sessions are checked and recovered.
    reliable: bool,
    /// Address serving local HTTP health endpoints.
    health_addr: Option<SocketAddr>,
    /// Current tunnel health.
    health: HealthState,
    /// Whether a control connection was opened before the supervisor started.
    connected: bool,
    /// Attempts counted since the backoff last started over.
    failed_attempts: usize,
    /// Whether a session has ended before.
    resumed: bool,
    /// Heartbeats missed in a row.
    missed: u32,
}

impl View for Client {
    type V = ClientView;

    closed spec fn view(&self) -> ClientView {
        ClientView {
            to: self.to,
            local_host: self.local_host,
            local_port: self.local_port,
            remote_port: self.remote_port,
            requested_port: self.requested_port,
            secret: self.secret,
            control_port: self.control_port,
            reliable: self.reliable,
            health_addr: self.health_addr,
            health: self.health@,
            connected: self.connected,
            failed_attempts: self.failed_attempts,
            resumed: self.resumed,
            missed: self.missed,
        }
    }
}

impl Client {
    /// Creates a client from the proxy's first message on a new control connection.
    pub fn new(
        local_host: &str,
        local_port: u16,
        to: &str,
        port: u16,
        secret: Option<&str>,
        control_port: u16,
        reply: Option<ServerMessage>,
    ) -> (result: Result<Client, ClientError>)
        ensures
            match greeting(reply) {
                Ok(remote_port) => {
                    &&& result is Ok
                    &&& configured(
                        result->Ok_0@,
                        local_host@,
                        local_port,
                        to@,
                        port,
                        text_of(secret),
                        control_port,
                    )
                    &&& result->Ok_0@.remote_port == remote_port
                    &&& result->Ok_0@.connected
                    &&& !result->Ok_0@.reliable
                    &&& result->Ok_0@.wf()
                },
                Err(error) => result == Err::<Client, ClientError>(error),
            },
    {
        let remote_port: u16 = match reply {
            Some(ServerMessage::Hello(remote_port)) => remote_port,
            Some(ServerMessage::Error(reason)) => return Err(ClientError::Server(reason)),
            Some(ServerMessage::Challenge(_)) => return Err(ClientError::AuthenticationRequired),
            Some(_) => return Err(ClientError::NotHello),
            None => return Err(ClientError::Eof),
        };
        Ok(
            Client {
                to: to.to_owned(),
                local_host: local_host.to_owned(),
                local_port,
                remote_port,
                requested_port: port,
                secret: owned(secret),
                control_port,
                reliable: false,
                health_addr: None,
                health: HealthState::new(),
                connected: true,
                failed_attempts: 0,
                resumed: false,
                missed: 0,
            },
        )
    }

    /// Creates a reliable client whose initial connection is established by the supervisor.
    pub fn new_reliable(
        local_host: &str,
        local_port: u16,
        to: &str,
        port: u16,
        secret: Option<&str>,
        control_port: u16,
    ) -> (client: Client)
        ensures
            configured(
                client@,
                local_host@,
                local_port,
                to@,
                port,
                text_of(secret),
                control_port,
            ),
            client@.remote_port == port,
            !client@.connected,
            client@.reliable,
            client@.wf(),
    {
        Client {
            to: to.to_owned(),
            local_host: local_host.to_owned(),
            local_port,
            remote_port: port,
            requested_port: port,
            secret: owned(secret),
            control_port,
            reliable: true,
            health_addr: None,
            health: HealthState::new(),
            connected: false,
            failed_attempts: 0,
            resumed: false,
            missed: 0,
        }
    }

    /// Enables health checks and automatic session recovery.
    pub fn set_reliable(&mut self, reliable: bool)
        ensures
            final(self)@ == (ClientView { reliable, ..old(self)@ }),
    {
        self.reliable = reliable;
    }

    /// Sets the address serving HTTP health endpoints.
    pub fn set_health_addr(&mut self, health_addr: SocketAddr)
        ensures
            final(self)@ == (ClientView { health_addr: Some(health_addr), ..old(self)@ }),
    {
        self.health_addr = Some(health_addr);
    }

    /// Returns the port publicly available on the proxy.
    pub fn remote_port(&self) -> (port: u16)
        ensures
            port == self@.remote_port,
    {
        self.remote_port
    }

    /// Returns whether sessions are checked and recovered.
    pub fn is_reliable(&self) -> (reliable: bool)
        ensures
            reliable == self@.reliable,
    {
        self.reliable
    }

    /// Returns the address serving HTTP health endpoints.
    pub fn health_addr(&self) -> (addr: Option<SocketAddr>)
        ensures
            addr == self@.health_addr,
    {
        self.health_addr
    }

    /// Returns the current health.
    pub fn health(&self) -> (health: &HealthState)
        ensures
            health@ == self@.health,
    {
        &self.health
    }

    /// Returns the response to an HTTP request for the health of the target.
    pub fn health_response(&self, request: &[u8]) -> (response: String)
        ensures
            response@ == crate::health::response_to(
                crate::health::lossy_text(request@),
                "target"@,
                self@.health,
            ),
            vstd::utf8::valid_utf8(request@) ==> response@ == crate::health::response_to(
                vstd::utf8::decode_utf8(request@),
                "target"@,
                self@.health,
            ),
    {
        serve(request, "target", &self.health)
    }

    /// Returns the endpoint of the backend, for forwarding and for its regular checks alike.
    pub fn backend(&self) -> (backend: Endpoint)
        ensures
            backend == self@.backend(),
    {
        Endpoint { host: self.local_host.clone(), port: self.local_port }
    }

    fn proxy(&self) -> (proxy: Endpoint)
        ensures
            proxy == self@.proxy(),
    {
        Endpoint { host: self.to.clone(), port: self.control_port }
    }

    /// Records the outcome of a backend check.
    pub fn set_backend_reachable(&mut self, reachable: bool)
        ensures
            final(self)@ == (ClientView {
                health: old(self)@.health.with_backend(reachable),
                ..old(self)@
            }),
    {
        self.health.set_backend_reachable(reachable);
    }

    /// Records that the supervisor is gone and the process has to be restarted.
    pub fn fail_liveness(&mut self)
        ensures
            final(self)@ == (ClientView {
                health: old(self)@.health.without_liveness(),
                ..old(self)@
            }),
    {
        self.health.fail_liveness();
    }

    /// Advances the session supervisor and returns what it does next.
    pub fn listen(&mut self, event: SupervisorEvent) -> (action: SupervisorAction)
        requires
            old(self)@.wf(),
        ensures
            (final(self)@, action) == supervised(old(self)@, event),
            final(self)@.wf(),
    {
        match event {
            SupervisorEvent::Started => if self.connected {
                self.start_session();
                SupervisorAction::Run
            } else {
                SupervisorAction::Dial
            },
            SupervisorEvent::Dialed => {
                self.start_session();
                SupervisorAction::Run
            },
            SupervisorEvent::DialFailed => {
                let rung: usize = if self.resumed {
                    self.failed_attempts - 1
                } else {
                    self.failed_attempts
                };
                self.failed_attempts = self.failed_attempts.saturating_add(1);
                SupervisorAction::Rest(rung)
            },
            SupervisorEvent::Rested => SupervisorAction::Dial,
            SupervisorEvent::SessionEnded(end, lasted) => {
                self.health.set_control_connected(false);
                if !self.reliable {
                    return SupervisorAction::Stop(end);
                }
                let mut action = SupervisorAction::Dial;
                if lasted >= BACKOFF_RESET_AFTER {
                    self.failed_attempts = 0;
                } else if self.failed_attempts > 0 {
                    action = SupervisorAction::Rest(self.failed_attempts - 1);
                }
                self.failed_attempts = self.failed_attempts.saturating_add(1);
                self.resumed = true;
                action
            },
        }
    }

    fn start_session(&mut self)
        ensures
            final(self)@ == session_started(old(self)@),
    {
        self.connected = false;
        self.missed = 0;
        self.health.set_control_connected(true);
    }

    /// Advances a running session and returns what it does next.
    pub fn run_session(&mut self, event: SessionEvent) -> (action: SessionAction)
        requires
            old(self)@.wf(),
        ensures
            (final(self)@, action) == session_step(old(self)@, event),
            final(self)@.wf(),
    {
        match event {
            SessionEvent::Message(message) => {
                self.missed = 0;
                match message {
                    ServerMessage::Hello(_) => SessionAction::Listen,
                    ServerMessage::Challenge(_) => SessionAction::Listen,
                    ServerMessage::Heartbeat => SessionAction::Listen,
                    ServerMessage::HealthCheck(nonce) => {
                        let reachable = self.health.backend_reachable();
                        SessionAction::Reply(ClientMessage::Health(nonce, reachable))
                    },
                    ServerMessage::TunnelProbe(id) => SessionAction::Probe(id),
                    ServerMessage::Connection(id) => SessionAction::Forward(id),
                    ServerMessage::Error(reason) => SessionAction::End(
                        SessionEnd::Server(reason),
                    ),
                }
            },
            SessionEvent::Closed => SessionAction::End(SessionEnd::Closed),
            SessionEvent::Failed(reason) => SessionAction::End(SessionEnd::Failed(reason)),
            SessionEvent::Silent => {
                if !self.reliable {
                    SessionAction::Listen
                } else if self.missed + 1 >= HEALTH_FAILURE_THRESHOLD {
                    SessionAction::End(SessionEnd::Lost)
                } else {
                    self.missed = self.missed + 1;
                    SessionAction::Listen
                }
            },
        }
    }

    /// Returns how long to wait for the next message, in milliseconds.
    pub fn session_wait(&self) -> (limit: Option<u64>)
        ensures
            limit == silence_limit(self@),
    {
        if !self.reliable {
            None
        } else if self.missed == 0 {
            Some(HEALTH_CHECK_INTERVAL + NETWORK_TIMEOUT)
        } else {
            Some(HEALTH_CHECK_INTERVAL)
        }
    }

    /// Returns the step that checks the backend: the connect that forwarding makes.
    pub fn backend_check(&self) -> (step: Step)
        ensures
            step == Step::ConnectBackend(self@.backend()),
    {
        Step::ConnectBackend(self.backend())
    }

    /// Returns the attempt to open a control connection.
    pub fn connect_control(&self) -> (attempt: Attempt)
        ensures
            attempt.connect@ == seq![Step::ConnectProxy(self@.proxy())],
            attempt.connect@ + attempt.handshake@ == control_steps(
                self@.proxy(),
                self@.secret is Some,
                self@.wanted_port(),
            ),
            attempt.handshake_limit == NETWORK_TIMEOUT,
            attempt.limit == CONNECTION_ATTEMPT_TIMEOUT,
    {
        let requested: u16 = if self.requested_port == 0 {
            self.remote_port
        } else {
            self.requested_port
        };
        let mut connect: Vec<Step> = Vec::new();
        connect.push(Step::ConnectProxy(self.proxy()));
        Attempt {
            connect,
            handshake: handshake(self.secret.is_some(), requested),
            handshake_limit: NETWORK_TIMEOUT,
            limit: CONNECTION_ATTEMPT_TIMEOUT,
        }
    }

    /// Takes the proxy's first message on a control connection.
    pub fn control_reply(&mut self, reply: Option<ServerMessage>) -> (result: Result<
        (),
        ClientError,
    >)
        ensures
            match renewal(old(self)@, reply) {
                Ok(port) => {
                    &&& result is Ok
                    &&& final(self)@ == (ClientView { remote_port: port, ..old(self)@ })
                },
                Err(error) => {
                    &&& result == Err::<(), ClientError>(error)
                    &&& final(self)@ == old(self)@
                },
            },
    {
        match reply {
            Some(ServerMessage::Hello(port)) => {
                if self.remote_port != 0 && port != self.remote_port {
                    return Err(ClientError::UnexpectedPort(port));
                }
                self.remote_port = port;
                Ok(())
            },
            Some(ServerMessage::Error(reason)) => Err(ClientError::Server(reason)),
            Some(_) => Err(ClientError::NotHello),
            None => Err(ClientError::Eof),
        }
    }

    /// Returns the steps that serve a tunnel probe. The backend connection is closed at once.
    pub fn handle_probe(&self, id: u128) -> (steps: Vec<Step>)
        ensures
            steps@ == accept_steps(self@.proxy(), self@.secret is Some, self@.backend(), id),
    {
        let mut steps = dial(self.proxy(), self.secret.is_some());
        steps.push(Step::ConnectBackend(self.backend()));
        steps.push(Step::Send(ClientMessage::Accept(id)));
        steps
    }

    /// Returns the steps that serve a consumer connection.
    pub fn handle_connection(&self, id: u128) -> (steps: Vec<Step>)
        ensures
            steps@ == accept_steps(
                self@.proxy(),
                self@.secret is Some,
                self@.backend(),
                id,
            ).push(Step::Relay),
    {
        let mut steps = self.handle_probe(id);
        steps.push(Step::Relay);
        steps
    }
}

/// The client after a number of failed attempts in a row, each followed by its pause.
pub open spec fn after_failures(client: ClientView, failures: nat) -> ClientView
    decreases failures,
{
    if failures == 0 {
        client
    } else {
        let earlier = after_failures(client, (failures - 1) as nat);
        supervised(
            supervised(earlier, SupervisorEvent::DialFailed).0,
            SupervisorEvent::Rested,
        ).0
    }
}

/// Law: from the foot of the ladder the first attempt is made at once, and every failed attempt
/// is followed by the next step: a tenth of a second, a quarter, a half, one second, and two
/// seconds from then on. The attempts leave the health state as it was.
pub proof fn law_reconnect_ladder(client: ClientView, failures: nat)
    requires
        client.wf(),
        client.rung() == 0,
        failures < usize::MAX,
    ensures
        ({
            let dialing = after_failures(client, failures);
            let (resting, action) = supervised(dialing, SupervisorEvent::DialFailed);
            &&& action == SupervisorAction::Rest(failures as usize)
            &&& supervised(resting, SupervisorEvent::Rested).1 == SupervisorAction::Dial
            &&& dialing.health == client.health
            &&& resting.health == client.health
        }),
        !client.connected ==> supervised(client, SupervisorEvent::Started) == (
            client,
            SupervisorAction::Dial,
        ),
        ladder(0) == 100 && ladder(1) == 250 && ladder(2) == 500 && ladder(3) == 1_000,
        failures >= 4 ==> ladder(failures) == 2_000,
{
    lemma_after_failures(client, failures);
}

proof fn lemma_after_failures(client: ClientView, failures: nat)
    requires
        client.wf(),
        client.rung() == 0,
        failures < usize::MAX,
    ensures
        after_failures(client, failures).rung() == failures,
        after_failures(client, failures).resumed == client.resumed,
        after_failures(client, failures).wf(),
        after_failures(client, failures).health == client.health,
    decreases failures,
{
    if failures > 0 {
        lemma_after_failures(client, (failures - 1) as nat);
    }
}

/// Law: a client whose last session was stable is back at the foot of the ladder and dials again
/// at once.
pub proof fn law_stable_session_resets(client: ClientView, end: SessionEnd, lasted: u64)
    requires
        client.wf(),
        client.reliable,
        lasted >= BACKOFF_RESET_AFTER,
    ensures
        supervised(client, SupervisorEvent::SessionEnded(end, lasted)).1 == SupervisorAction::Dial,
        supervised(client, SupervisorEvent::SessionEnded(end, lasted)).0.rung() == 0,
        supervised(client, SupervisorEvent::SessionEnded(end, lasted)).0.wf(),
{
}

/// Law: a proxy that accepts sessions and drops them early cannot make a reliable client dial
/// in a tight loop: from the second such session on there is a pause, on a step of the ladder
/// that only rises.
pub proof fn law_unstable_session_rests(client: ClientView, end: SessionEnd, lasted: u64)
    requires
        client.wf(),
        client.reliable,
        client.resumed,
        lasted < BACKOFF_RESET_AFTER,
    ensures
        ({
            let (next, action) = supervised(client, SupervisorEvent::SessionEnded(end, lasted));
            &&& action == SupervisorAction::Rest(client.rung())
            &&& next.resumed
            &&& next.rung() >= client.rung()
            &&& client.failed_attempts < usize::MAX ==> next.rung() == client.rung() + 1
        }),
{
}

/// Law: only a stable session starts the backoff over. Opening a connection does not.
pub proof fn law_backoff_is_kept(client: ClientView, event: SupervisorEvent)
    requires
        client.wf(),
        !(event matches SupervisorEvent::SessionEnded(_, lasted) && lasted >= BACKOFF_RESET_AFTER),
    ensures
        supervised(client, event).0.failed_attempts >= client.failed_attempts,
{
}

/// Law: a reliable client never stops, whatever happens to its connections; a standard one
/// stops when its session ends, and not before, and returns what the session came to.
pub proof fn law_supervisor_goes_on(client: ClientView, event: SupervisorEvent)
    ensures
        (supervised(client, event).1 is Stop) == (!client.reliable && event is SessionEnded),
        supervised(client, event).1 matches SupervisorAction::Stop(end) ==> (
        event matches SupervisorEvent::SessionEnded(reported, _) && reported == end),
        supervised(client, event).0.reliable == client.reliable,
{
}

/// One step of a target: of its supervisor, of its session, when the proxy answers a control
/// connection, or when the backend has been checked.
pub enum TargetStep {
    Supervisor(SupervisorEvent),
    Session(SessionEvent),
    Reply(Option<ServerMessage>),
    Backend(bool),
}

/// The target after one step. A refused answer changes nothing.
pub open spec fn stepped(client: ClientView, step: TargetStep) -> ClientView {
    match step {
        TargetStep::Supervisor(event) => supervised(client, event).0,
        TargetStep::Session(event) => session_step(client, event).0,
        TargetStep::Reply(reply) => match renewal(client, reply) {
            Ok(port) => ClientView { remote_port: port, ..client },
            Err(_) => client,
        },
        TargetStep::Backend(reachable) => ClientView {
            health: client.health.with_backend(reachable),
            ..client
        },
    }
}

/// The target after several steps, in order.
pub open spec fn stepped_by(client: ClientView, steps: Seq<TargetStep>) -> ClientView
    decreases steps.len(),
{
    if steps.len() == 0 {
        client
    } else {
        stepped(stepped_by(client, steps.drop_last()), steps.last())
    }
}

/// What the supervisor does after several steps: what the last of its events led to, or nothing
/// where it was not started.
pub open spec fn doing(client: ClientView, steps: Seq<TargetStep>) -> Option<SupervisorAction>
    decreases steps.len(),
{
    if steps.len() == 0 {
        None
    } else {
        match steps.last() {
            TargetStep::Supervisor(event) => Some(
                supervised(stepped_by(client, steps.drop_last()), event).1,
            ),
            _ => doing(client, steps.drop_last()),
        }
    }
}

/// Whether an event reports on an action of the supervisor, or starts one that does nothing yet.
pub open spec fn reports_on(event: SupervisorEvent, action: Option<SupervisorAction>) -> bool {
    match action {
        None => event is Started,
        Some(SupervisorAction::Dial) => event is Dialed || event is DialFailed,
        Some(SupervisorAction::Rest(_)) => event is Rested,
        Some(SupervisorAction::Run) => event is SessionEnded,
        Some(SupervisorAction::Stop(_)) => false,
    }
}

/// Whether the steps are those of a target whose supervisor is started once and whose actions
/// are performed one at a time. Sessions, answers and backend checks may come at any time.
pub open spec fn driven(client: ClientView, steps: Seq<TargetStep>) -> bool
    decreases steps.len(),
{
    steps.len() > 0 ==> {
        &&& driven(client, steps.drop_last())
        &&& steps.last() matches TargetStep::Supervisor(event) ==> reports_on(
            event,
            doing(client, steps.drop_last()),
        )
    }
}

/// Whether the backend is reachable after several steps: what the last check found, or what was
/// known before.
pub open spec fn reachable(client: ClientView, steps: Seq<TargetStep>) -> bool
    decreases steps.len(),
{
    if steps.len() == 0 {
        client.health.backend == crate::health::Backend::Healthy
    } else {
        match steps.last() {
            TargetStep::Backend(found) => found,
            _ => reachable(client, steps.drop_last()),
        }
    }
}

/// Law: there is at most one session at a time, whatever else happens meanwhile: the supervisor
/// runs one only while none is up. The target counts as connected exactly while the supervisor
/// runs a session, and is ready exactly when, besides, the last check found the backend
/// reachable. Lost sessions, refused connections, failed authentication and an unreachable
/// backend leave the process as live as it was.
pub proof fn law_one_session(client: ClientView, steps: Seq<TargetStep>)
    requires
        !client.health.control_connected,
        driven(client, steps),
    ensures
        ({
            let after = stepped_by(client, steps);
            let runs = doing(client, steps) == Some(SupervisorAction::Run);
            &&& after.health.control_connected == runs
            &&& after.health.target_ready() == (runs && reachable(client, steps))
            &&& after.health.live == client.health.live
        }),
        steps.len() > 0 && steps.last() is Supervisor && doing(client, steps) == Some(
            SupervisorAction::Run,
        ) ==> !stepped_by(client, steps.drop_last()).health.control_connected,
    decreases steps.len(),
{
    lemma_backend_is_known(client, steps);
    if steps.len() > 0 {
        let earlier = steps.drop_last();
        law_one_session(client, earlier);
        lemma_session_follows(
            stepped_by(client, earlier),
            doing(client, earlier),
            steps.last(),
        );
    }
}

/// A session runs after an event of the supervisor only where none ran before, and no other step
/// begins or ends one.
proof fn lemma_session_follows(
    client: ClientView,
    action: Option<SupervisorAction>,
    step: TargetStep,
)
    requires
        client.health.control_connected == (action == Some(SupervisorAction::Run)),
        step matches TargetStep::Supervisor(event) ==> reports_on(event, action),
    ensures
        stepped(client, step).health.live == client.health.live,
        match step {
            TargetStep::Supervisor(event) => {
                let (next, following) = supervised(client, event);
                &&& next.health.control_connected == (following == SupervisorAction::Run)
                &&& following == SupervisorAction::Run ==> !client.health.control_connected
            },
            _ => stepped(client, step).health.control_connected
                == client.health.control_connected,
        },
{
}

proof fn lemma_backend_is_known(client: ClientView, steps: Seq<TargetStep>)
    ensures
        (stepped_by(client, steps).health.backend == crate::health::Backend::Healthy) == reachable(
            client,
            steps,
        ),
    decreases steps.len(),
{
    if steps.len() > 0 {
        lemma_backend_is_known(client, steps.drop_last());
    }
}

/// Law: nothing that happens to a target changes liveness, in whatever order it happens.
pub proof fn law_target_keeps_liveness(client: ClientView, steps: Seq<TargetStep>)
    ensures
        stepped_by(client, steps).health.live == client.health.live,
    decreases steps.len(),
{
    if steps.len() > 0 {
        law_target_keeps_liveness(client, steps.drop_last());
    }
}

/// Whether a step begins a session.
pub open spec fn connects(step: TargetStep) -> bool {
    step matches TargetStep::Supervisor(event) && (event is Dialed || event is Started)
}

/// Law: whenever a session ends the target is unready at once, and whatever happens, it does not
/// become ready before another control connection is opened.
pub proof fn law_session_loss_is_unready(
    client: ClientView,
    end: SessionEnd,
    lasted: u64,
    steps: Seq<TargetStep>,
)
    requires
        forall|i: int| 0 <= i < steps.len() ==> !connects(#[trigger] steps[i]),
    ensures
        ({
            let lost = supervised(client, SupervisorEvent::SessionEnded(end, lasted)).0;
            &&& !lost.health.target_ready()
            &&& !stepped_by(lost, steps).health.target_ready()
        }),
{
    lemma_control_stays_down(
        supervised(client, SupervisorEvent::SessionEnded(end, lasted)).0,
        steps,
    );
}

proof fn lemma_control_stays_down(client: ClientView, steps: Seq<TargetStep>)
    requires
        !client.health.control_connected,
        forall|i: int| 0 <= i < steps.len() ==> !connects(#[trigger] steps[i]),
    ensures
        !stepped_by(client, steps).health.control_connected,
    decreases steps.len(),
{
    if steps.len() > 0 {
        let earlier = steps.drop_last();
        assert forall|i: int| 0 <= i < earlier.len() implies !connects(#[trigger] earlier[i]) by {
            assert(earlier[i] == steps[i]);
        }
        lemma_control_stays_down(client, earlier);
        assert(!connects(steps[steps.len() - 1]));
    }
}

/// How many control connections several steps report.
pub open spec fn connections(steps: Seq<TargetStep>) -> nat
    decreases steps.len(),
{
    if steps.len() == 0 {
        0
    } else {
        connections(steps.drop_last()) + (if steps.last() matches TargetStep::Supervisor(event)
            && event is Dialed {
            1nat
        } else {
            0
        })
    }
}

/// Whether the supervisor has a session, or had its last one.
pub open spec fn had_session(action: Option<SupervisorAction>) -> bool {
    action matches Some(did) && (did is Run || did is Stop)
}

/// Law: a standard client never has more than one control connection, that it was made with or
/// that its supervisor opened, and when the session on it ends, it returns what the session
/// came to.
pub proof fn law_standard_client_connects_once(client: ClientView, steps: Seq<TargetStep>)
    requires
        !client.reliable,
        driven(client, steps),
    ensures
        connections(steps) + (if client.connected {
            1nat
        } else {
            0
        }) <= 1,
        had_session(doing(client, steps)) ==> connections(steps) + (if client.connected {
            1nat
        } else {
            0
        }) == 1,
        steps.len() > 0 ==> (steps.last() matches TargetStep::Supervisor(
            SupervisorEvent::SessionEnded(end, _),
        ) ==> doing(client, steps) == Some(SupervisorAction::Stop(end))),
{
    lemma_connects_once(client, steps);
}

proof fn lemma_connects_once(client: ClientView, steps: Seq<TargetStep>)
    requires
        !client.reliable,
        driven(client, steps),
    ensures
        !stepped_by(client, steps).reliable,
        doing(client, steps) is None ==> connections(steps) == 0 && stepped_by(
            client,
            steps,
        ).connected == client.connected,
        doing(client, steps) is Some ==> connections(steps) + (if client.connected {
            1nat
        } else {
            0
        }) == (if had_session(doing(client, steps)) {
            1nat
        } else {
            0
        }),
    decreases steps.len(),
{
    if steps.len() > 0 {
        lemma_connects_once(client, steps.drop_last());
    }
}

/// Law: nothing that arrives in a session changes liveness, readiness or the backoff.
pub proof fn law_session_keeps_health(client: ClientView, event: SessionEvent)
    ensures
        session_step(client, event).0.health == client.health,
        session_step(client, event).0.failed_attempts == client.failed_attempts,
        session_step(client, event).0.remote_port == client.remote_port,
{
}

/// Law: a health check is answered with its own nonce and with the latest state of the backend.
pub proof fn law_health_check_is_answered(client: ClientView, nonce: u128)
    ensures
        session_step(
            client,
            SessionEvent::Message(ServerMessage::HealthCheck(nonce)),
        ).1 == SessionAction::Reply(
            ClientMessage::Health(nonce, client.health.backend == crate::health::Backend::Healthy),
        ),
{
}

/// Law: a session ends as soon as the connection is closed, fails, or the proxy gives up, and
/// not for any other message.
pub proof fn law_session_ends_at_once(client: ClientView, event: SessionEvent)
    requires
        event !is Silent,
    ensures
        (session_step(client, event).1 is End) == (event is Closed || event is Failed
            || event matches SessionEvent::Message(ServerMessage::Error(_))),
{
}

/// The client after several events of a session, in order.
pub open spec fn session_by(client: ClientView, events: Seq<SessionEvent>) -> ClientView
    decreases events.len(),
{
    if events.len() == 0 {
        client
    } else {
        session_step(session_by(client, events.drop_last()), events.last()).0
    }
}

/// Whether an event is a message with which a session goes on.
pub open spec fn goes_on(event: SessionEvent) -> bool {
    event matches SessionEvent::Message(message) && message !is Error
}

/// Law: a session goes on through any number of messages until the connection is closed or
/// fails, or the proxy gives up. In the first case it is successful, otherwise it fails with
/// the reason that was met. A standard client then returns that result.
pub proof fn law_session_result(
    client: ClientView,
    events: Seq<SessionEvent>,
    reason: String,
    lasted: u64,
)
    requires
        forall|i: int| 0 <= i < events.len() ==> goes_on(#[trigger] events[i]),
    ensures
        forall|i: int|
            0 <= i < events.len() ==> !(session_step(
                session_by(client, events.take(i)),
                #[trigger] events[i],
            ).1 is End),
        ({
            let running = session_by(client, events);
            let given_up = SessionEvent::Message(ServerMessage::Error(reason));
            &&& session_step(running, SessionEvent::Closed).1 == SessionAction::End(
                SessionEnd::Closed,
            )
            &&& session_step(running, given_up).1 == SessionAction::End(SessionEnd::Server(reason))
            &&& session_step(running, SessionEvent::Failed(reason)).1 == SessionAction::End(
                SessionEnd::Failed(reason),
            )
            &&& !client.reliable ==> supervised(
                running,
                SupervisorEvent::SessionEnded(SessionEnd::Server(reason), lasted),
            ).1 == SupervisorAction::Stop(SessionEnd::Server(reason))
            &&& !client.reliable ==> supervised(
                running,
                SupervisorEvent::SessionEnded(SessionEnd::Closed, lasted),
            ).1 == SupervisorAction::Stop(SessionEnd::Closed)
        }),
        session_result(SessionEnd::Closed) == Ok::<(), Seq<char>>(()),
        session_result(SessionEnd::Server(reason)) == Err::<(), Seq<char>>(
            "server error: "@ + reason@,
        ),
        session_result(SessionEnd::Failed(reason)) == Err::<(), Seq<char>>(reason@),
{
    lemma_session_keeps_mode(client, events);
}

proof fn lemma_session_keeps_mode(client: ClientView, events: Seq<SessionEvent>)
    ensures
        session_by(client, events).reliable == client.reliable,
    decreases events.len(),
{
    if events.len() > 0 {
        lemma_session_keeps_mode(client, events.drop_last());
    }
}

/// Law: in reliable mode a silent proxy is given up after exactly two missed heartbeats, six
/// seconds after its last message. Heartbeats are two seconds apart, so that is four to six
/// seconds after the connection went dead. One message in between starts the count over.
pub proof fn law_silent_proxy_is_lost(client: ClientView, message: ServerMessage)
    requires
        client.reliable,
        client.missed == 0,
    ensures
        ({
            let (waiting, first) = session_step(client, SessionEvent::Silent);
            &&& first == SessionAction::Listen
            &&& session_step(waiting, SessionEvent::Silent).1 == SessionAction::End(
                SessionEnd::Lost,
            )
            &&& silence_limit(client) is Some && silence_limit(waiting) is Some
            &&& silence_limit(client)->0 + silence_limit(waiting)->0 == 6_000
            &&& silence_limit(client)->0 + silence_limit(waiting)->0 - HEALTH_CHECK_INTERVAL
                == 4_000
            &&& session_step(waiting, SessionEvent::Message(message)).0.missed == 0
        }),
{
}

/// Law: once a public port is assigned it never changes, whatever happens and however often the
/// control connection is renewed, and a client without a configured port asks for the same one
/// again.
pub proof fn law_remote_port_is_kept(client: ClientView, steps: Seq<TargetStep>)
    requires
        client.remote_port != 0,
    ensures
        stepped_by(client, steps).remote_port == client.remote_port,
        client.requested_port == 0 ==> stepped_by(client, steps).wanted_port()
            == client.remote_port,
    decreases steps.len(),
{
    lemma_request_is_kept(client, steps);
    if steps.len() > 0 {
        law_remote_port_is_kept(client, steps.drop_last());
    }
}

proof fn lemma_request_is_kept(client: ClientView, steps: Seq<TargetStep>)
    ensures
        stepped_by(client, steps).requested_port == client.requested_port,
    decreases steps.len(),
{
    if steps.len() > 0 {
        lemma_request_is_kept(client, steps.drop_last());
    }
}

/// Law: the peer has closed a connection that was reset or whose pipe is broken. Forwarding
/// fails on any other failure of the copy, and on no other ground.
pub proof fn law_peer_closes(kind: ErrorKind)
    ensures
        peer_reset(ErrorKind::ConnectionReset),
        peer_reset(ErrorKind::BrokenPipe),
        !peer_reset(ErrorKind::AddrInUse),
        !peer_reset(ErrorKind::PermissionDenied),
        !peer_reset(ErrorKind::Other),
        forwarded(None),
        forwarded(Some(kind)) == (kind == ErrorKind::ConnectionReset || kind
            == ErrorKind::BrokenPipe),
{
}

/// Law: a refusal by the proxy, and a port that was not asked for, are reported with what the
/// proxy said; the other failures have a text of their own.
pub proof fn law_error_texts(reason: String, port: u16)
    ensures
        error_text(ClientError::Server(reason)) == "server error: "@ + reason@,
        error_text(ClientError::UnexpectedPort(port)) == "server assigned unexpected remote port "@
            + crate::text::decimal(port as nat),
        error_text(ClientError::AuthenticationRequired)
            == "server requires authentication, but no client secret was provided"@,
        error_text(ClientError::NotHello) == "unexpected initial non-hello message"@,
        error_text(ClientError::Eof) == "unexpected EOF"@,
{
}

/// Law: a session that the proxy closed has succeeded; any other end is a failure, and its text
/// carries the reason that the proxy or the connection gave.
pub proof fn law_session_texts(end: SessionEnd, reason: String)
    ensures
        (session_result(end) is Ok) == (end == SessionEnd::Closed),
        session_result(end) matches Err(text) ==> text == session_text(end),
        session_text(SessionEnd::Server(reason)) == "server error: "@ + reason@,
        session_text(SessionEnd::Failed(reason)) == reason@,
        session_text(SessionEnd::Lost) == "control heartbeats missed"@,
        session_text(SessionEnd::Closed) == "control session closed"@,
{
}

/// Law: each connect, whatever the endpoint, and each wait for the proxy is limited to two
/// seconds. Sending and carrying bytes have no limit of their own.
pub proof fn law_step_limits(endpoint: Endpoint, message: ClientMessage)
    ensures
        step_limit(Step::ConnectProxy(endpoint)) == Some(2_000u64),
        step_limit(Step::ConnectBackend(endpoint)) == Some(2_000u64),
        step_limit(Step::Authenticate) == Some(2_000u64),
        step_limit(Step::AwaitReply) == Some(2_000u64),
        step_limit(Step::Send(message)) is None,
        step_limit(Step::Relay) is None,
{
}

/// Law: a target authenticates exactly where it has a secret, on every connection to the proxy:
/// right after the connect and before anything is sent. Without a secret the steps are the same
/// but for that one.
pub proof fn law_authentication_needs_a_secret(
    proxy: Endpoint,
    authenticate: bool,
    backend: Endpoint,
    id: u128,
    port: u16,
)
    ensures
        ({
            let accept = accept_steps(proxy, authenticate, backend, id);
            let control = control_steps(proxy, authenticate, port);
            &&& accept.len() == if authenticate { 4nat } else { 3 }
            &&& control.len() == if authenticate { 4nat } else { 3 }
            &&& accept.contains(Step::Authenticate) == authenticate
            &&& control.contains(Step::Authenticate) == authenticate
            &&& forall|i: int|
                0 <= i < accept.len() ==> (#[trigger] accept[i] == Step::Authenticate) == (
                authenticate && i == 1)
            &&& forall|i: int|
                0 <= i < control.len() ==> (#[trigger] control[i] == Step::Authenticate) == (
                authenticate && i == 1)
        }),
        accept_steps(proxy, false, backend, id) == seq![
            Step::ConnectProxy(proxy),
            Step::ConnectBackend(backend),
            Step::Send(ClientMessage::Accept(id)),
        ],
        accept_steps(proxy, true, backend, id).remove(1) == accept_steps(proxy, false, backend, id),
        control_steps(proxy, false, port) == seq![
            Step::ConnectProxy(proxy),
            Step::Send(ClientMessage::Hello(port)),
            Step::AwaitReply,
        ],
        control_steps(proxy, true, port).remove(1) == control_steps(proxy, false, port),
{
    let accept = accept_steps(proxy, authenticate, backend, id);
    let control = control_steps(proxy, authenticate, port);
    if authenticate {
        assert(accept[1] == Step::Authenticate);
        assert(control[1] == Step::Authenticate);
    }
    assert(accept_steps(proxy, true, backend, id)[1] == Step::Authenticate);
    assert(control_steps(proxy, true, port)[1] == Step::Authenticate);
}

/// Law: a target dials the host and the control port that it was configured with, and forwards to
/// its local host and port. It asks for the configured port, or else for the assigned one.
pub proof fn law_endpoints_are_those_configured(client: ClientView)
    ensures
        client.proxy().host == client.to,
        client.proxy().port == client.control_port,
        client.backend().host == client.local_host,
        client.backend().port == client.local_port,
        client.requested_port != 0 ==> client.wanted_port() == client.requested_port,
        client.requested_port == 0 ==> client.wanted_port() == client.remote_port,
{
}

/// Law: a client that is made from some settings has each of them, and begins with no failures,
/// no missed heartbeats and the health of a process that has just started.
pub proof fn law_new_client_has_its_settings(
    client: ClientView,
    local_host: Seq<char>,
    local_port: u16,
    to: Seq<char>,
    port: u16,
    secret: Option<&str>,
    control_port: u16,
)
    requires
        configured(client, local_host, local_port, to, port, text_of(secret), control_port),
    ensures
        client.local_host@ == local_host,
        client.local_port == local_port,
        client.to@ == to,
        client.requested_port == port,
        client.secret is Some == secret is Some,
        secret is Some ==> client.secret->0@ == secret->0@,
        client.control_port == control_port,
        client.health_addr is None,
        client.health.live,
        !client.health.target_ready(),
        !client.health.control_connected,
        client.health.backend == crate::health::Backend::Unknown,
        !client.health.tunnel_verified,
        client.failed_attempts == 0,
        !client.resumed,
        client.missed == 0,
        client.rung() == 0,
        client.wf(),
{
}

/// Law: only a greeting opens a control connection. Anything else is an error, with the reason
/// where the proxy gave one; a running client also insists on the port of its earlier sessions.
pub proof fn law_first_message(
    client: ClientView,
    port: u16,
    reason: String,
    message: ServerMessage,
)
    ensures
        greeting(Some(ServerMessage::Hello(port))) == Ok::<u16, ClientError>(port),
        greeting(Some(ServerMessage::Error(reason))) == Err::<u16, ClientError>(
            ClientError::Server(reason),
        ),
        message is Challenge ==> greeting(Some(message)) == Err::<u16, ClientError>(
            ClientError::AuthenticationRequired,
        ),
        !(message is Hello || message is Error || message is Challenge) ==> greeting(Some(message))
            == Err::<u16, ClientError>(ClientError::NotHello),
        greeting(None) == Err::<u16, ClientError>(ClientError::Eof),
        (renewal(client, Some(ServerMessage::Hello(port))) is Ok) == (client.remote_port == 0
            || client.remote_port == port),
        renewal(client, Some(ServerMessage::Hello(port))) matches Ok(bound) ==> bound == port,
        renewal(client, Some(ServerMessage::Hello(port))) matches Err(error) ==> error
            == ClientError::UnexpectedPort(port),
        renewal(client, Some(ServerMessage::Error(reason))) == Err::<u16, ClientError>(
            ClientError::Server(reason),
        ),
        !(message is Hello || message is Error) ==> renewal(client, Some(message)) == Err::<
            u16,
            ClientError,
        >(ClientError::NotHello),
        renewal(client, None) == Err::<u16, ClientError>(ClientError::Eof),
{
}

/// Law: what the supervisor does next. It dials at once when it is started, after a pause, after a
/// stable session and after a first session; it rests after every failed attempt and, once
/// attempts have been counted, after a session that was not stable; and it runs a session
/// whenever it has a connection.
pub proof fn law_supervisor_actions(client: ClientView, end: SessionEnd, lasted: u64)
    requires
        client.resumed ==> client.failed_attempts >= 1,
    ensures
        (supervised(client, SupervisorEvent::Started).1 == SupervisorAction::Run)
            == client.connected,
        (supervised(client, SupervisorEvent::Started).1 == SupervisorAction::Dial)
            == !client.connected,
        supervised(client, SupervisorEvent::Dialed).1 == SupervisorAction::Run,
        supervised(client, SupervisorEvent::Rested).1 == SupervisorAction::Dial,
        !client.resumed ==> supervised(client, SupervisorEvent::DialFailed).1
            == SupervisorAction::Rest(client.failed_attempts),
        client.resumed ==> supervised(client, SupervisorEvent::DialFailed).1
            == SupervisorAction::Rest((client.failed_attempts - 1) as usize),
        ({
            let action = supervised(client, SupervisorEvent::SessionEnded(end, lasted)).1;
            &&& !client.reliable ==> action == SupervisorAction::Stop(end)
            &&& client.reliable && (lasted >= 10_000 || client.failed_attempts == 0) ==> action
                == SupervisorAction::Dial
            &&& client.reliable && lasted < 10_000 && client.failed_attempts > 0 ==> action
                == SupervisorAction::Rest((client.failed_attempts - 1) as usize)
        }),
{
}

/// Law: what the supervisor counts. A failed attempt and an ended session of a reliable client
/// count one each, up to the largest number; a stable session leaves just its own; and nothing
/// else is counted.
pub proof fn law_supervisor_counts(client: ClientView, end: SessionEnd, lasted: u64)
    ensures
        supervised(client, SupervisorEvent::Started).0.failed_attempts == client.failed_attempts,
        supervised(client, SupervisorEvent::Dialed).0.failed_attempts == client.failed_attempts,
        supervised(client, SupervisorEvent::Rested).0.failed_attempts == client.failed_attempts,
        ({
            let one_more = if client.failed_attempts == usize::MAX {
                usize::MAX as int
            } else {
                client.failed_attempts + 1
            };
            let ended = supervised(client, SupervisorEvent::SessionEnded(end, lasted)).0;
            &&& supervised(client, SupervisorEvent::DialFailed).0.failed_attempts == one_more
            &&& !client.reliable ==> ended.failed_attempts == client.failed_attempts
            &&& client.reliable && lasted >= 10_000 ==> ended.failed_attempts == 1
            &&& client.reliable && lasted < 10_000 ==> ended.failed_attempts == one_more
            &&& ended.resumed == (client.resumed || client.reliable)
        }),
        supervised(client, SupervisorEvent::Started).0.resumed == client.resumed,
        supervised(client, SupervisorEvent::Dialed).0.resumed == client.resumed,
        supervised(client, SupervisorEvent::Rested).0.resumed == client.resumed,
        supervised(client, SupervisorEvent::DialFailed).0.resumed == client.resumed,
{
}

/// Law: what an event of the supervisor leaves behind. With a session the target is connected,
/// has missed nothing and has used up the connection that it was made with; after one it is not
/// connected; nothing else changes but the counts.
pub proof fn law_supervisor_is_local(client: ClientView, event: SupervisorEvent)
    ensures
        ({
            let (next, action) = supervised(client, event);
            let begins = event is Dialed || (event is Started && client.connected);
            &&& next == (ClientView {
                failed_attempts: next.failed_attempts,
                resumed: next.resumed,
                connected: next.connected,
                missed: next.missed,
                health: next.health,
                ..client
            })
            &&& begins == (action == SupervisorAction::Run)
            &&& next.connected == (client.connected && !begins)
            &&& next.missed == if begins { 0 } else { client.missed }
            &&& next.health.live == client.health.live
            &&& next.health.backend == client.health.backend
            &&& next.health.control_connected == (begins || (client.health.control_connected
                && event !is SessionEnded))
            &&& next.health.tunnel_verified == (client.health.tunnel_verified
                && event !is SessionEnded)
        }),
{
}

/// Law: a session acts on exactly what the proxy names: it forwards the announced connection,
/// probes for the announced probe, answers a health check with the same nonce and with whether
/// the last check found the backend reachable, and ends for the reason that was given. It does
/// so in either mode, however the session went before.
pub proof fn law_session_serves_what_is_named(
    client: ClientView,
    id: u128,
    port: u16,
    reason: String,
)
    ensures
        session_step(client, SessionEvent::Message(ServerMessage::Connection(id))).1
            == SessionAction::Forward(id),
        session_step(client, SessionEvent::Message(ServerMessage::TunnelProbe(id))).1
            == SessionAction::Probe(id),
        session_step(client, SessionEvent::Message(ServerMessage::HealthCheck(id))).1
            == SessionAction::Reply(
            ClientMessage::Health(id, client.health.backend == crate::health::Backend::Healthy),
        ),
        session_step(client, SessionEvent::Message(ServerMessage::Error(reason))).1
            == SessionAction::End(SessionEnd::Server(reason)),
        session_step(client, SessionEvent::Message(ServerMessage::Heartbeat)).1
            == SessionAction::Listen,
        session_step(client, SessionEvent::Message(ServerMessage::Hello(port))).1
            == SessionAction::Listen,
        session_step(client, SessionEvent::Message(ServerMessage::Challenge(id))).1
            == SessionAction::Listen,
        session_step(client, SessionEvent::Closed).1 == SessionAction::End(SessionEnd::Closed),
        session_step(client, SessionEvent::Failed(reason)).1 == SessionAction::End(
            SessionEnd::Failed(reason),
        ),
        !client.reliable ==> session_step(client, SessionEvent::Silent).1 == SessionAction::Listen,
        client.reliable && client.missed == 0 ==> session_step(client, SessionEvent::Silent).1
            == SessionAction::Listen,
        client.reliable && client.missed >= 1 ==> session_step(client, SessionEvent::Silent).1
            == SessionAction::End(SessionEnd::Lost),
{
}

/// Law: a session leaves everything about the client as it is but the count of missed heartbeats.
/// Every message starts the count over, and silence counts only in reliable mode.
pub proof fn law_session_is_local(client: ClientView, event: SessionEvent)
    ensures
        ({
            let next = session_step(client, event).0;
            &&& next == (ClientView { missed: next.missed, ..client })
            &&& event is Message ==> next.missed == 0
            &&& event is Closed || event is Failed ==> next.missed == client.missed
            &&& event is Silent && (!client.reliable || client.missed >= 1) ==> next.missed
                == client.missed
            &&& event is Silent && client.reliable && client.missed == 0 ==> next.missed == 1
        }),
{
}

/// Law: a reliable client waits four seconds for a first heartbeat and two for one more; a
/// standard client waits as long as it takes.
pub proof fn law_silence_limit(client: ClientView)
    ensures
        (silence_limit(client) is None) == !client.reliable,
        client.reliable && client.missed == 0 ==> silence_limit(client) == Some(4_000u64),
        client.reliable && client.missed > 0 ==> silence_limit(client) == Some(2_000u64),
{
}

/// Law: nothing that happens to a target changes its settings: after any steps it dials the same
/// proxy, with the same secret, for the same backend and the same requested port. So every
/// control connection and every data connection is opened in the same steps as the first.
pub proof fn law_target_keeps_settings(client: ClientView, steps: Seq<TargetStep>, id: u128)
    ensures
        ({
            let after = stepped_by(client, steps);
            &&& after.secret == client.secret
            &&& after.to == client.to
            &&& after.control_port == client.control_port
            &&& after.local_host == client.local_host
            &&& after.local_port == client.local_port
            &&& after.requested_port == client.requested_port
            &&& after.reliable == client.reliable
            &&& after.health_addr == client.health_addr
            &&& accept_steps(after.proxy(), after.secret is Some, after.backend(), id)
                == accept_steps(client.proxy(), client.secret is Some, client.backend(), id)
            &&& client.requested_port != 0 ==> control_steps(
                after.proxy(),
                after.secret is Some,
                after.wanted_port(),
            ) == control_steps(client.proxy(), client.secret is Some, client.wanted_port())
            &&& control_steps(
                after.proxy(),
                after.secret is Some,
                after.wanted_port(),
            ).contains(Step::Authenticate) == client.secret is Some
        }),
    decreases steps.len(),
{
    if steps.len() > 0 {
        law_target_keeps_settings(client, steps.drop_last(), id);
    }
    let after = stepped_by(client, steps);
    law_authentication_needs_a_secret(
        after.proxy(),
        after.secret is Some,
        after.backend(),
        id,
        after.wanted_port(),
    );
}

/// Law: a client is in order exactly when one that had a session has counted an attempt since, and
/// fewer than two heartbeats were missed. Every event keeps it so.
pub proof fn law_client_stays_in_order(
    client: ClientView,
    event: SupervisorEvent,
    message: SessionEvent,
)
    ensures
        client.wf() == ((client.resumed ==> client.failed_attempts > 0) && client.missed < 2),
        client.wf() ==> supervised(client, event).0.wf(),
        client.wf() ==> session_step(client, message).0.wf(),
{
}

} // verus!
