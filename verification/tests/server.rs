use std::collections::HashSet;

use netaminity_agent::server::{
    receive_health, BindStep, ConnectionEnd, ControlAction, ControlEvent, HealthReply,
    ListenAction, ListenError, ListenEvent, PortSearch, Refusal, ReliableAction, ReliableEnd,
    ReliableEvent, ReliableSession, Server, StandardAction, StandardEvent,
};
use netaminity_agent::shared::{
    relay, ClientMessage, ErrorKind, IpAddr, RelayStep, ServerMessage, SocketAddr,
};

fn proxy() -> Server {
    let mut server = Server::new(1024..=2048, None);
    server.set_reliable(true);
    server
}

fn hello(port: u16) -> ControlEvent {
    ControlEvent::Message(Some(ClientMessage::Hello(port)))
}

fn accept(id: u128) -> ControlEvent {
    ControlEvent::Message(Some(ClientMessage::Accept(id)))
}

fn running() -> (Server, ReliableSession) {
    let mut server = proxy();
    assert_eq!(server.handle_connection(hello(0)), ControlAction::Listen(0));
    assert_eq!(
        server.handle_connection(ControlEvent::ListenerReady(1500)),
        ControlAction::Greet(1500)
    );
    assert_eq!(server.handle_connection(ControlEvent::Greeted), ControlAction::RunReliable);
    (server, ReliableSession::new())
}

fn report(nonce: u128, reachable: bool) -> ReliableEvent {
    ReliableEvent::Reply(Some(ClientMessage::Health(nonce, reachable)), 500)
}

fn failed(reason: &str) -> ConnectionEnd {
    ConnectionEnd::Failed(reason.to_string())
}

fn check(server: &mut Server, session: &mut ReliableSession) -> u128 {
    match server.reliable_session(session, ReliableEvent::CheckDue) {
        ReliableAction::Check(nonce, 2_000) => nonce,
        other => panic!("{:?}", other),
    }
}

fn make_ready(server: &mut Server, session: &mut ReliableSession) {
    let nonce = check(server, session);
    assert_eq!(
        server.reliable_session(session, report(nonce, true)),
        ReliableAction::OpenProbe
    );
    let id = match server.reliable_session(session, ReliableEvent::ProbeOpened(3)) {
        ReliableAction::AnnounceProbe(id, 2_000) => id,
        other => panic!("{:?}", other),
    };
    assert_eq!(server.handle_connection(accept(id)), ControlAction::CompleteProbe(3));
    assert_eq!(
        server.reliable_session(session, ReliableEvent::ProbePassed),
        ReliableAction::Wait
    );
    assert!(server.health().proxy_ready());
}

#[test]
fn requested_port_must_be_allowed() {
    let server = proxy();
    for port in [1, 1023, 2049, 65535] {
        assert_eq!(
            server.create_listener(port),
            (
                PortSearch { requested: port, tried: 0 },
                BindStep::Refuse(ListenError::OutOfRange)
            )
        );
    }
    for port in [1024, 1500, 2048] {
        assert_eq!(
            server.create_listener(port),
            (PortSearch { requested: port, tried: 1 }, BindStep::TryBind(port))
        );
    }
}

#[test]
fn requested_port_is_tried_once() {
    let server = proxy();
    for (kind, error) in [
        (ErrorKind::AddrInUse, ListenError::AddrInUse),
        (ErrorKind::PermissionDenied, ListenError::PermissionDenied),
        (ErrorKind::Other, ListenError::BindFailed),
        (ErrorKind::BrokenPipe, ListenError::BindFailed),
    ] {
        let (mut search, _) = server.create_listener(1500);
        assert_eq!(server.bind_failed(&mut search, kind), BindStep::Refuse(error));
    }
}

#[test]
fn any_port_is_searched_for() {
    let server = proxy();
    let (mut search, mut step) = server.create_listener(0);
    let mut tries = 0;
    let mut ports = HashSet::new();
    while let BindStep::TryBind(port) = step {
        assert!((1024..=2048).contains(&port));
        ports.insert(port);
        tries += 1;
        step = server.bind_failed(&mut search, ErrorKind::AddrInUse);
    }
    assert_eq!(tries, 150);
    assert!(ports.len() > 1);
    assert_eq!(step, BindStep::Refuse(ListenError::NoneAvailable));
}

#[test]
fn drawn_ports_are_used_as_given() {
    let server = proxy();
    let (mut search, step) = server.create_listener_with(0, 1999);
    assert_eq!(step, BindStep::TryBind(1999));
    assert_eq!(
        Server::bind_failed_with(&mut search, ErrorKind::Other, 1111),
        BindStep::TryBind(1111)
    );
    assert_eq!(search, PortSearch { requested: 0, tried: 2 });
}

#[test]
fn single_port_range() {
    let server = Server::new(4000..=4000, None);
    assert_eq!(server.create_listener(0).1, BindStep::TryBind(4000));
}

#[test]
fn refusals_have_texts() {
    let texts = [
        (Refusal::Listen(ListenError::OutOfRange), "client port number not in allowed range"),
        (Refusal::Listen(ListenError::AddrInUse), "port already in use"),
        (Refusal::Listen(ListenError::PermissionDenied), "permission denied"),
        (Refusal::Listen(ListenError::BindFailed), "failed to bind to port"),
        (Refusal::Listen(ListenError::NoneAvailable), "failed to find an available port"),
        (Refusal::Handshake("invalid secret".to_string()), "invalid secret"),
        (Refusal::Busy, "a reliable session is already active"),
    ];
    for (refusal, text) in texts {
        assert_eq!(refusal.message(), text);
    }
}

#[test]
fn failed_handshake_is_rejected() {
    let mut server = proxy();
    assert_eq!(
        server.handle_connection(ControlEvent::HandshakeFailed("invalid secret".to_string())),
        ControlAction::Reject(Refusal::Handshake("invalid secret".to_string()))
    );
    assert!(server.health().is_live());
    assert_eq!(server.handle_connection(hello(0)), ControlAction::Listen(0));
}

#[test]
fn messages_out_of_place_close_the_connection() {
    let mut server = proxy();
    for message in [
        None,
        Some(ClientMessage::Authenticate("tag".to_string())),
        Some(ClientMessage::Health(1, true)),
        Some(ClientMessage::Accept(1)),
    ] {
        assert_eq!(
            server.handle_connection(ControlEvent::Message(message)),
            ControlAction::Close
        );
    }
}

#[test]
fn one_reliable_session_at_a_time() {
    let (mut server, mut session) = running();
    assert_eq!(
        server.handle_connection(hello(0)),
        ControlAction::Reject(Refusal::Busy)
    );
    assert_eq!(
        server.reliable_session(&mut session, ReliableEvent::Failed("reset".to_string())),
        ReliableAction::End(ReliableEnd::Failed("reset".to_string()))
    );
    assert_eq!(
        server.handle_connection(hello(0)),
        ControlAction::Reject(Refusal::Busy)
    );
    assert_eq!(
        server.handle_connection(ControlEvent::ListenerDropped(failed("reset"))),
        ControlAction::Fail("reset".to_string())
    );
    assert_eq!(server.handle_connection(hello(0)), ControlAction::Listen(0));
}

#[test]
fn failed_opening_frees_the_place() {
    let mut server = proxy();
    server.handle_connection(hello(80));
    assert_eq!(
        server.handle_connection(ControlEvent::ListenerFailed(ListenError::OutOfRange)),
        ControlAction::Reject(Refusal::Listen(ListenError::OutOfRange))
    );
    assert_eq!(server.handle_connection(hello(0)), ControlAction::Listen(0));
    assert_eq!(
        server.handle_connection(ControlEvent::GreetingFailed("broken pipe".to_string())),
        ControlAction::DropListener(failed("broken pipe"))
    );
    assert_eq!(
        server.handle_connection(hello(0)),
        ControlAction::Reject(Refusal::Busy)
    );
    assert_eq!(
        server.handle_connection(ControlEvent::ListenerDropped(failed("broken pipe"))),
        ControlAction::Fail("broken pipe".to_string())
    );
    assert_eq!(server.handle_connection(hello(0)), ControlAction::Listen(0));
}

#[test]
fn refused_target_is_told_why() {
    let mut server = proxy();
    let refused = server.handle_connection(ControlEvent::HandshakeFailed("no".to_string()));
    assert_eq!(refused.message(), Some(ServerMessage::Error("no".to_string())));
    server.handle_connection(hello(0));
    let busy = server.handle_connection(hello(0)).message();
    let text = "a reliable session is already active".to_string();
    assert_eq!(busy, Some(ServerMessage::Error(text)));
    let greeting = server.handle_connection(ControlEvent::ListenerReady(1500));
    assert_eq!(greeting.message(), Some(ServerMessage::Hello(1500)));
    assert_eq!(ControlAction::Close.message(), None);
}

#[test]
fn silent_peer_changes_nothing() {
    let (mut server, _) = running();
    let reason = "timed out waiting for initial message".to_string();
    assert_eq!(
        server.handle_connection(ControlEvent::ReadFailed(reason.clone())),
        ControlAction::Fail(reason)
    );
    assert!(server.health().is_live());
    assert_eq!(server.handle_connection(hello(0)), ControlAction::Reject(Refusal::Busy));
}

#[test]
fn listening_goes_on_whatever_connections_do() {
    let mut server = proxy();
    assert_eq!(server.listen(ListenEvent::Bound), ListenAction::Accept);
    for _ in 0..3 {
        assert_eq!(server.listen(ListenEvent::Accepted), ListenAction::Serve);
        assert_eq!(
            server.listen(ListenEvent::ConnectionEnded(ConnectionEnd::Closed)),
            ListenAction::Accept
        );
        assert_eq!(server.listen(ListenEvent::Accepted), ListenAction::Serve);
        assert_eq!(
            server.listen(ListenEvent::ConnectionEnded(failed("reset"))),
            ListenAction::Accept
        );
        assert!(server.health().is_live());
    }
    assert_eq!(
        server.listen(ListenEvent::AcceptFailed("too many open files".to_string())),
        ListenAction::Stop("too many open files".to_string())
    );
    assert_eq!(
        server.listen(ListenEvent::BindFailed("address in use".to_string())),
        ListenAction::Stop("address in use".to_string())
    );
}

#[test]
fn lost_data_connection_changes_nothing() {
    let mut server = proxy();
    for held in [false, true] {
        assert_eq!(server.listen(ListenEvent::HandlerLost(held)), ListenAction::Accept);
        assert!(server.health().is_live());
    }
    let (mut server, mut session) = running();
    make_ready(&mut server, &mut session);
    assert_eq!(server.listen(ListenEvent::HandlerLost(false)), ListenAction::Accept);
    assert!(server.health().is_live());
    assert!(server.health().proxy_ready());
    assert_eq!(server.handle_connection(hello(0)), ControlAction::Reject(Refusal::Busy));
}

#[test]
fn lost_session_handler_fails_liveness() {
    let (mut server, mut session) = running();
    make_ready(&mut server, &mut session);
    server.reliable_session_with(&mut session, ReliableEvent::Incoming(4), 77);
    assert_eq!(server.listen(ListenEvent::HandlerLost(true)), ListenAction::Accept);
    assert!(!server.health().is_live());
    assert!(!server.health().target_ready());
    assert_eq!(server.handle_connection(accept(77)), ControlAction::Close);
    assert_eq!(server.handle_connection(hello(0)), ControlAction::Listen(0));
    let mut standard = Server::new(1024..=2048, None);
    assert_eq!(standard.listen(ListenEvent::HandlerLost(true)), ListenAction::Accept);
    assert!(standard.health().is_live());
}

#[test]
fn place_is_held_from_search_to_release() {
    let mut server = proxy();
    assert!(server.handle_connection(hello(0)).holds_place());
    assert!(!server.handle_connection(hello(0)).holds_place());
    assert!(server.handle_connection(ControlEvent::ListenerReady(1500)).holds_place());
    assert!(server.handle_connection(ControlEvent::Greeted).holds_place());
    let reason = "broken pipe".to_string();
    assert!(server.handle_connection(ControlEvent::GreetingFailed(reason)).holds_place());
    let dropped = ControlEvent::ListenerDropped(failed("broken pipe"));
    assert!(!server.handle_connection(dropped).holds_place());
    server.handle_connection(hello(0));
    let refused = ControlEvent::ListenerFailed(ListenError::NoneAvailable);
    assert!(!server.handle_connection(refused).holds_place());
    assert!(!server.handle_connection(accept(1)).holds_place());
    let mut standard = Server::new(1024..=2048, None);
    assert!(standard.handle_connection(ControlEvent::Greeted).holds_place());
}

#[test]
fn one_of_two_peers_is_joined() {
    let mut server = Server::new(1024..=2048, None);
    server.standard_session_with(StandardEvent::Incoming(9), 5);
    assert_eq!(server.handle_connection(accept(5)), ControlAction::Relay(9));
    server.standard_session_with(StandardEvent::Incoming(10), 6);
    assert_eq!(server.handle_connection(accept(5)), ControlAction::Close);
    assert_eq!(server.expire(5), None);
    assert_eq!(
        server.handle_connection(ControlEvent::RelayEnded(ConnectionEnd::Closed)),
        ControlAction::Close
    );
    assert_eq!(
        server.handle_connection(ControlEvent::RelayEnded(failed("reset"))),
        ControlAction::Fail("reset".to_string())
    );
    assert_eq!(server.handle_connection(accept(6)), ControlAction::Relay(10));
    assert_eq!(
        relay(vec![1, 2, 3]),
        vec![RelayStep::Write(vec![1, 2, 3]), RelayStep::Carry]
    );
    assert_eq!(relay(vec![]), vec![RelayStep::Write(vec![]), RelayStep::Carry]);
}

#[test]
fn standard_mode_takes_several_targets() {
    let mut server = Server::new(1024..=2048, None);
    assert!(!server.is_reliable());
    for _ in 0..3 {
        assert_eq!(server.handle_connection(hello(0)), ControlAction::Listen(0));
        assert_eq!(server.handle_connection(ControlEvent::Greeted), ControlAction::RunStandard);
    }
    assert!(!server.health().target_ready());
}

#[test]
fn standard_session_steps() {
    let mut server = Server::new(1024..=2048, None);
    assert_eq!(server.standard_session(StandardEvent::Started), StandardAction::Heartbeat);
    assert_eq!(
        server.standard_session(StandardEvent::HeartbeatSent),
        StandardAction::Accept(500)
    );
    assert_eq!(StandardAction::Heartbeat.message(), Some(ServerMessage::Heartbeat));
    assert_eq!(StandardAction::Accept(500).message(), None);
    assert_eq!(server.standard_session(StandardEvent::Idle), StandardAction::Heartbeat);
    assert_eq!(server.standard_session(StandardEvent::Announced), StandardAction::Heartbeat);
    assert_eq!(
        server.standard_session(StandardEvent::HeartbeatFailed),
        StandardAction::End(ConnectionEnd::Closed)
    );
    assert_eq!(
        server.standard_session(StandardEvent::Failed("reset".to_string())),
        StandardAction::End(failed("reset"))
    );
    let announcement = server.standard_session_with(StandardEvent::Incoming(11), 99);
    assert_eq!(announcement, StandardAction::Announce(99, 10_000));
    assert_eq!(announcement.message(), Some(ServerMessage::Connection(99)));
    assert_eq!(
        server.handle_connection(ControlEvent::ListenerDropped(ConnectionEnd::Closed)),
        ControlAction::Close
    );
    assert_eq!(server.handle_connection(accept(98)), ControlAction::Close);
    assert_eq!(server.handle_connection(accept(99)), ControlAction::Relay(11));
    assert_eq!(server.handle_connection(accept(99)), ControlAction::Close);
}

#[test]
fn identifiers_are_random() {
    let mut server = Server::new(1024..=2048, None);
    let mut ids = HashSet::new();
    for handle in 0..100 {
        match server.standard_session(StandardEvent::Incoming(handle)) {
            StandardAction::Announce(id, 10_000) => {
                assert_eq!((id >> 76) & 0xf, 4);
                assert_eq!((id >> 62) & 0x3, 2);
                assert!(ids.insert(id));
                assert_eq!(server.handle_connection(accept(id)), ControlAction::Relay(handle));
            }
            other => panic!("{:?}", other),
        }
    }
}

#[test]
fn stale_connections_expire() {
    let mut server = Server::new(1024..=2048, None);
    server.standard_session_with(StandardEvent::Incoming(5), 1);
    server.standard_session_with(StandardEvent::Incoming(6), 2);
    assert_eq!(server.expire(1), Some(5));
    assert_eq!(server.expire(1), None);
    assert_eq!(server.handle_connection(accept(1)), ControlAction::Close);
    assert_eq!(server.handle_connection(accept(2)), ControlAction::Relay(6));
    assert_eq!(server.expire(2), None);
}

#[test]
fn health_replies() {
    assert_eq!(
        receive_health(Some(ClientMessage::Health(4, true)), 4),
        HealthReply::Report(true)
    );
    assert_eq!(
        receive_health(Some(ClientMessage::Health(4, false)), 4),
        HealthReply::Report(false)
    );
    assert_eq!(receive_health(Some(ClientMessage::Health(3, true)), 4), HealthReply::Stale);
    assert_eq!(
        receive_health(Some(ClientMessage::Hello(1)), 4),
        HealthReply::Unexpected(ClientMessage::Hello(1))
    );
    assert_eq!(receive_health(None, 4), HealthReply::Closed);
}

#[test]
fn probe_makes_the_proxy_ready() {
    let (mut server, mut session) = running();
    assert!(!server.health().proxy_ready());
    make_ready(&mut server, &mut session);
    assert!(server.health_response(b"GET /ready HTTP/1.1").starts_with("HTTP/1.1 200 OK"));
    assert!(server.health_response(b"GET /status HTTP/1.1").contains("\"role\":\"proxy\""));
}

#[test]
fn two_missed_heartbeats_end_the_session() {
    let (mut server, mut session) = running();
    make_ready(&mut server, &mut session);
    let nonce = check(&mut server, &mut session);
    assert_eq!(
        server.reliable_session(&mut session, ReliableEvent::ReplyMissed),
        ReliableAction::Wait
    );
    assert!(!server.health().proxy_ready());
    let later = check(&mut server, &mut session);
    assert_eq!(
        server.reliable_session(&mut session, report(nonce, true)),
        ReliableAction::AwaitReply(1_500)
    );
    for (waited, left) in [(0, 2_000), (1_999, 1), (2_000, 0), (u64::MAX, 0)] {
        let late = ReliableEvent::Reply(Some(ClientMessage::Health(nonce, true)), waited);
        assert_eq!(
            server.reliable_session(&mut session, late),
            ReliableAction::AwaitReply(left)
        );
    }
    assert_eq!(
        server.reliable_session(&mut session, report(later, true)),
        ReliableAction::OpenProbe
    );
    assert_eq!(session.control_failures, 0);
    server.reliable_session(&mut session, ReliableEvent::ReplyMissed);
    assert_eq!(
        server.reliable_session(&mut session, ReliableEvent::ReplyMissed),
        ReliableAction::End(ReliableEnd::ControlLost)
    );
    assert!(server.health().is_live());
    assert!(!server.health().target_ready());
}

#[test]
fn two_failed_probes_end_the_session() {
    let (mut server, mut session) = running();
    make_ready(&mut server, &mut session);
    let id = match server.reliable_session(&mut session, ReliableEvent::ProbeOpened(8)) {
        ReliableAction::AnnounceProbe(id, 2_000) => id,
        other => panic!("{:?}", other),
    };
    assert_eq!(
        server.reliable_session(&mut session, ReliableEvent::ProbeFailed),
        ReliableAction::Wait
    );
    assert_eq!(server.handle_connection(accept(id)), ControlAction::Close);
    assert!(!server.health().proxy_ready());
    assert!(server.health().target_ready());
    assert_eq!(
        server.reliable_session(&mut session, ReliableEvent::ProbeFailed),
        ReliableAction::End(ReliableEnd::TunnelBroken)
    );
    assert!(server.health().is_live());
}

#[test]
fn probe_that_cannot_be_opened_has_failed() {
    let (mut server, mut session) = running();
    make_ready(&mut server, &mut session);
    assert_eq!(
        server.reliable_session(&mut session, ReliableEvent::ProbeNotOpened),
        ReliableAction::Wait
    );
    assert_eq!(session.tunnel_failures, 1);
    assert!(!server.health().proxy_ready());
    assert_eq!(
        server.reliable_session(&mut session, ReliableEvent::ProbeNotOpened),
        ReliableAction::End(ReliableEnd::TunnelBroken)
    );
    assert!(server.health().is_live());
}

#[test]
fn unreachable_backend_keeps_the_session() {
    let (mut server, mut session) = running();
    make_ready(&mut server, &mut session);
    server.reliable_session(&mut session, ReliableEvent::ProbeFailed);
    let nonce = check(&mut server, &mut session);
    assert_eq!(
        server.reliable_session(&mut session, report(nonce, false)),
        ReliableAction::Wait
    );
    assert!(!server.health().target_ready());
    assert_eq!(session.tunnel_failures, 0);
    make_ready(&mut server, &mut session);
}

#[test]
fn errors_end_the_session_at_once() {
    let cases = [
        (ReliableEvent::Reply(None, 1), ReliableEnd::Closed),
        (
            ReliableEvent::Reply(Some(ClientMessage::Hello(1)), 1),
            ReliableEnd::Unexpected(ClientMessage::Hello(1)),
        ),
        (
            ReliableEvent::Failed("reset".to_string()),
            ReliableEnd::Failed("reset".to_string()),
        ),
    ];
    for (event, end) in cases {
        let (mut server, mut session) = running();
        make_ready(&mut server, &mut session);
        assert_eq!(
            server.reliable_session(&mut session, event),
            ReliableAction::End(end)
        );
        assert!(server.health().is_live());
        assert!(!server.health().proxy_ready());
    }
}

#[test]
fn ended_session_leaves_nothing() {
    let (mut server, mut session) = running();
    let announcement =
        server.reliable_session_with(&mut session, ReliableEvent::Incoming(21), 77);
    assert_eq!(announcement, ReliableAction::Announce(77, 10_000));
    assert_eq!(announcement.message(), Some(ServerMessage::Connection(77)));
    assert_eq!(
        server.reliable_session(&mut session, ReliableEvent::Announced),
        ReliableAction::Wait
    );
    let announcement =
        server.reliable_session_with(&mut session, ReliableEvent::ProbeOpened(22), 78);
    assert_eq!(announcement, ReliableAction::AnnounceProbe(78, 2_000));
    assert_eq!(announcement.message(), Some(ServerMessage::Connection(78)));
    let check = server.reliable_session_with(&mut session, ReliableEvent::CheckDue, 79);
    assert_eq!(check.message(), Some(ServerMessage::HealthCheck(79)));
    assert_eq!(ReliableAction::Wait.message(), None);
    server.reliable_session(&mut session, ReliableEvent::Reply(None, 1));
    assert_eq!(server.expire(77), None);
    assert_eq!(server.handle_connection(accept(77)), ControlAction::Close);
    assert_eq!(server.handle_connection(accept(78)), ControlAction::Close);
}

#[test]
fn session_recovers_in_place() {
    let (mut server, mut session) = running();
    make_ready(&mut server, &mut session);
    server.reliable_session(&mut session, ReliableEvent::Failed("reset".to_string()));
    server.handle_connection(ControlEvent::ListenerDropped(failed("reset")));
    server.handle_connection(hello(1500));
    server.handle_connection(ControlEvent::ListenerReady(1500));
    server.handle_connection(ControlEvent::Greeted);
    assert!(!server.health().proxy_ready());
    let mut next = ReliableSession::new();
    make_ready(&mut server, &mut next);
    assert!(server.health().is_live());
}

#[test]
fn ends_have_texts() {
    assert_eq!(ReliableEnd::Closed.message(), "control connection closed");
    let messages = [
        (ClientMessage::Hello(80), "Hello(80)"),
        (
            ClientMessage::Accept(0x0123_4567_89ab_4def_8123_4567_89ab_cdef),
            "Accept(01234567-89ab-4def-8123-456789abcdef)",
        ),
        (
            ClientMessage::Health(1, true),
            "Health(00000000-0000-0000-0000-000000000001, true)",
        ),
        (
            ClientMessage::Health(0xf << 124, false),
            "Health(f0000000-0000-0000-0000-000000000000, false)",
        ),
        (ClientMessage::Authenticate("a\"b\n".to_string()), "Authenticate(\"a\\\"b\\n\")"),
    ];
    for (message, text) in messages {
        assert_eq!(message.debug(), text);
        assert_eq!(
            ReliableEnd::Unexpected(message).message(),
            format!("unexpected reliability message: {}", text)
        );
    }
    let tagged = ClientMessage::Authenticate("secret tag".to_string());
    assert_eq!(tagged.debug_with("<tag>"), "Authenticate(<tag>)");
    assert_eq!(ReliableEnd::ControlLost.message(), "control health failed after 2 checks");
    assert_eq!(ReliableEnd::TunnelBroken.message(), "tunnel integrity failed after 2 probes");
    let end = ReliableEnd::Failed("frame error".to_string());
    assert_eq!(end.message(), "frame error");
    assert_eq!(end.outcome(), failed("frame error"));
    assert_eq!(ReliableEnd::Closed.outcome(), failed("control connection closed"));
}

#[test]
fn addresses() {
    let mut server = Server::new(1024..=2048, Some("secret"));
    assert!(server.requires_secret());
    assert!(!proxy().requires_secret());
    let any = SocketAddr { ip: IpAddr::V4(0), port: 7835, flowinfo: 0, scope_id: 0 };
    assert_eq!(server.listen(ListenEvent::Started), ListenAction::Bind(any));
    server.set_bind_addr(IpAddr::V4(0x7f000001));
    server.set_bind_tunnels(IpAddr::V6(1));
    server.set_control_port(7000);
    assert_eq!(
        server.listen(ListenEvent::Started),
        ListenAction::Bind(SocketAddr { ip: IpAddr::V4(0x7f000001), port: 7000, ..any })
    );
    assert_eq!(server.tunnel_addr(1500), SocketAddr { ip: IpAddr::V6(1), port: 1500, ..any });
    assert_eq!(server.health_addr(), None);
    server.set_health_addr(any);
    assert_eq!(server.health_addr(), Some(any));
}
