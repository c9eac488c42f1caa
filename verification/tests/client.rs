use netaminity_agent::client::{
    forwarding_done, is_peer_reset, jitter_limit, jittered_delay, open_control,
    reconnect_delay, Attempt, Client, ClientError, SessionAction, SessionEnd, SessionEvent, Step, SupervisorAction,
    SupervisorEvent,
};
use netaminity_agent::shared::{
    ClientMessage, Endpoint, ErrorKind, IpAddr, ServerMessage, SocketAddr,
};

fn endpoint(host: &str, port: u16) -> Endpoint {
    Endpoint { host: host.to_string(), port }
}

fn reliable(port: u16) -> Client {
    Client::new_reliable("backend", 80, "proxy", port, None, 7835)
}

fn standard(reply: Option<ServerMessage>) -> Result<Client, ClientError> {
    Client::new("backend", 80, "proxy", 0, Some("secret"), 7835, reply)
}

fn text(error: ClientError) -> String {
    error.message()
}

#[test]
fn delays_follow_the_ladder() {
    let bounds = [(80, 120), (200, 300), (400, 600), (800, 1200), (1600, 2000), (1600, 2000)];
    for (failures, (low, high)) in bounds.iter().enumerate() {
        assert_eq!(jittered_delay(failures, 0), *low);
        assert_eq!(jittered_delay(failures, jitter_limit(failures)), *high);
        for _ in 0..200 {
            let delay = reconnect_delay(failures);
            assert!(*low <= delay && delay <= *high);
        }
    }
    assert!(reconnect_delay(usize::MAX) <= 2000);
}

#[test]
fn jitter_varies() {
    let first = reconnect_delay(3);
    assert!((0..200).any(|_| reconnect_delay(3) != first));
}

#[test]
fn peer_resets() {
    assert!(is_peer_reset(ErrorKind::ConnectionReset));
    assert!(is_peer_reset(ErrorKind::BrokenPipe));
    assert!(!is_peer_reset(ErrorKind::AddrInUse));
    assert!(!is_peer_reset(ErrorKind::PermissionDenied));
    assert!(!is_peer_reset(ErrorKind::Other));
}

#[test]
fn forwarding_ends() {
    assert!(forwarding_done(None));
    assert!(forwarding_done(Some(ErrorKind::ConnectionReset)));
    assert!(forwarding_done(Some(ErrorKind::BrokenPipe)));
    assert!(!forwarding_done(Some(ErrorKind::AddrInUse)));
    assert!(!forwarding_done(Some(ErrorKind::PermissionDenied)));
    assert!(!forwarding_done(Some(ErrorKind::Other)));
}

#[test]
fn readiness_needs_a_session_and_the_last_check() {
    let mut client = reliable(0);
    client.listen(SupervisorEvent::Started);
    client.listen(SupervisorEvent::Dialed);
    assert_eq!(client.control_reply(Some(ServerMessage::Hello(9000))), Ok(()));
    assert!(!client.health().target_ready());
    for (found, message) in [
        (true, ServerMessage::Heartbeat),
        (false, ServerMessage::Connection(1)),
        (true, ServerMessage::HealthCheck(2)),
    ] {
        client.set_backend_reachable(found);
        client.run_session(SessionEvent::Message(message));
        assert_eq!(client.health().target_ready(), found);
        assert!(client.health().is_live());
    }
    client.run_session(SessionEvent::Closed);
    client.listen(SupervisorEvent::SessionEnded(SessionEnd::Closed, 1));
    client.set_backend_reachable(true);
    assert!(!client.health().target_ready());
    assert!(client.health().is_live());
    assert_eq!(client.remote_port(), 9000);
}

#[test]
fn first_reply_decides() {
    assert_eq!(standard(Some(ServerMessage::Hello(9000))).ok().unwrap().remote_port(), 9000);
    assert_eq!(
        text(standard(Some(ServerMessage::Error("full".to_string()))).err().unwrap()),
        "server error: full"
    );
    assert_eq!(
        text(standard(Some(ServerMessage::Challenge(1))).err().unwrap()),
        "server requires authentication, but no client secret was provided"
    );
    assert_eq!(
        text(standard(Some(ServerMessage::Heartbeat)).err().unwrap()),
        "unexpected initial non-hello message"
    );
    assert_eq!(text(standard(None).err().unwrap()), "unexpected EOF");
}

#[test]
fn standard_client_runs_once() {
    let mut client = standard(Some(ServerMessage::Hello(9000))).ok().unwrap();
    assert!(!client.is_reliable());
    assert_eq!(client.session_wait(), None);
    assert_eq!(client.listen(SupervisorEvent::Started), SupervisorAction::Run);
    client.set_backend_reachable(true);
    assert!(client.health().target_ready());
    assert_eq!(client.run_session(SessionEvent::Silent), SessionAction::Listen);
    assert_eq!(client.run_session(SessionEvent::Silent), SessionAction::Listen);
    assert_eq!(
        client.listen(SupervisorEvent::SessionEnded(SessionEnd::Closed, 60_000)),
        SupervisorAction::Stop(SessionEnd::Closed)
    );
    assert!(!client.health().target_ready());
}

#[test]
fn reliable_client_climbs_the_ladder() {
    let mut client = reliable(0);
    assert_eq!(client.listen(SupervisorEvent::Started), SupervisorAction::Dial);
    for failures in 0..7 {
        assert_eq!(
            client.listen(SupervisorEvent::DialFailed),
            SupervisorAction::Rest(failures)
        );
        assert_eq!(client.listen(SupervisorEvent::Rested), SupervisorAction::Dial);
        assert!(client.health().is_live());
        assert!(!client.health().target_ready());
    }
    assert_eq!(client.listen(SupervisorEvent::Dialed), SupervisorAction::Run);
}

#[test]
fn stable_session_starts_over() {
    let mut client = reliable(0);
    client.listen(SupervisorEvent::Started);
    for _ in 0..5 {
        client.listen(SupervisorEvent::DialFailed);
    }
    assert_eq!(client.listen(SupervisorEvent::Dialed), SupervisorAction::Run);
    assert_eq!(
        client.listen(SupervisorEvent::SessionEnded(SessionEnd::Closed, 10_000)),
        SupervisorAction::Dial
    );
    assert_eq!(client.listen(SupervisorEvent::DialFailed), SupervisorAction::Rest(0));
    assert_eq!(client.listen(SupervisorEvent::DialFailed), SupervisorAction::Rest(1));
}

#[test]
fn dropped_sessions_do_not_make_a_tight_loop() {
    let mut client = reliable(0);
    client.listen(SupervisorEvent::Started);
    client.listen(SupervisorEvent::Dialed);
    assert_eq!(
        client.listen(SupervisorEvent::SessionEnded(SessionEnd::Closed, 9_999)),
        SupervisorAction::Dial
    );
    for rung in 0..6 {
        client.listen(SupervisorEvent::Dialed);
        assert_eq!(
            client.listen(SupervisorEvent::SessionEnded(SessionEnd::Closed, 5)),
            SupervisorAction::Rest(rung)
        );
        assert!(client.health().is_live());
    }
    assert_eq!(client.listen(SupervisorEvent::DialFailed), SupervisorAction::Rest(6));
}

#[test]
fn early_end_after_failures_rests_on_the_last_step() {
    let mut client = reliable(0);
    client.listen(SupervisorEvent::Started);
    client.listen(SupervisorEvent::DialFailed);
    client.listen(SupervisorEvent::DialFailed);
    client.listen(SupervisorEvent::Dialed);
    assert_eq!(
        client.listen(SupervisorEvent::SessionEnded(SessionEnd::Closed, 100)),
        SupervisorAction::Rest(1)
    );
    assert_eq!(client.listen(SupervisorEvent::DialFailed), SupervisorAction::Rest(2));
}

#[test]
fn session_messages() {
    let mut client = reliable(0);
    client.listen(SupervisorEvent::Dialed);
    let mut step = |message: ServerMessage| client.run_session(SessionEvent::Message(message));
    assert_eq!(step(ServerMessage::Hello(1)), SessionAction::Listen);
    assert_eq!(step(ServerMessage::Challenge(2)), SessionAction::Listen);
    assert_eq!(step(ServerMessage::Heartbeat), SessionAction::Listen);
    assert_eq!(step(ServerMessage::TunnelProbe(3)), SessionAction::Probe(3));
    assert_eq!(step(ServerMessage::Connection(4)), SessionAction::Forward(4));
    assert_eq!(
        step(ServerMessage::Error("gone".to_string())),
        SessionAction::End(SessionEnd::Server("gone".to_string()))
    );
    assert_eq!(
        client.run_session(SessionEvent::Closed),
        SessionAction::End(SessionEnd::Closed)
    );
    assert_eq!(
        client.run_session(SessionEvent::Failed("reset".to_string())),
        SessionAction::End(SessionEnd::Failed("reset".to_string()))
    );
}

#[test]
fn health_checks_report_the_backend() {
    let mut client = reliable(0);
    client.listen(SupervisorEvent::Dialed);
    let check = || SessionEvent::Message(ServerMessage::HealthCheck(7));
    assert_eq!(
        client.run_session(check()),
        SessionAction::Reply(ClientMessage::Health(7, false))
    );
    client.set_backend_reachable(true);
    assert_eq!(
        client.run_session(check()),
        SessionAction::Reply(ClientMessage::Health(7, true))
    );
    client.set_backend_reachable(false);
    assert_eq!(
        client.run_session(check()),
        SessionAction::Reply(ClientMessage::Health(7, false))
    );
}

#[test]
fn silent_proxy_is_given_up_after_six_seconds() {
    let mut client = reliable(0);
    client.listen(SupervisorEvent::Dialed);
    assert_eq!(client.session_wait(), Some(4_000));
    assert_eq!(client.run_session(SessionEvent::Silent), SessionAction::Listen);
    assert_eq!(client.session_wait(), Some(2_000));
    client.run_session(SessionEvent::Message(ServerMessage::Heartbeat));
    assert_eq!(client.session_wait(), Some(4_000));
    assert_eq!(client.run_session(SessionEvent::Silent), SessionAction::Listen);
    assert_eq!(
        client.run_session(SessionEvent::Silent),
        SessionAction::End(SessionEnd::Lost)
    );
    client.listen(SupervisorEvent::SessionEnded(SessionEnd::Closed, 6_000));
    assert!(client.health().is_live());
    client.listen(SupervisorEvent::Dialed);
    assert_eq!(client.session_wait(), Some(4_000));
}

#[test]
fn assigned_port_is_kept() {
    let mut client = reliable(0);
    assert_eq!(
        client.connect_control(),
        Attempt {
            connect: vec![Step::ConnectProxy(endpoint("proxy", 7835))],
            handshake: vec![Step::Send(ClientMessage::Hello(0)), Step::AwaitReply],
            handshake_limit: 2_000,
            limit: 3_000,
        }
    );
    assert_eq!(client.control_reply(Some(ServerMessage::Hello(9000))), Ok(()));
    assert_eq!(client.remote_port(), 9000);
    let mut attempt = client.connect_control();
    attempt.connect.append(&mut attempt.handshake);
    assert_eq!(attempt.connect, open_control(endpoint("proxy", 7835), false, 9000));
    let error = client.control_reply(Some(ServerMessage::Hello(9001))).unwrap_err();
    assert_eq!(text(error), "server assigned unexpected remote port 9001");
    assert_eq!(client.remote_port(), 9000);
    assert_eq!(client.control_reply(Some(ServerMessage::Hello(9000))), Ok(()));
}

#[test]
fn control_replies_that_are_refused() {
    let mut client = reliable(5000);
    assert_eq!(client.remote_port(), 5000);
    assert_eq!(
        client.control_reply(Some(ServerMessage::Error("busy".to_string()))),
        Err(ClientError::Server("busy".to_string()))
    );
    assert_eq!(
        client.control_reply(Some(ServerMessage::Challenge(1))),
        Err(ClientError::NotHello)
    );
    assert_eq!(client.control_reply(None), Err(ClientError::Eof));
    assert_eq!(
        client.control_reply(Some(ServerMessage::Hello(5001))),
        Err(ClientError::UnexpectedPort(5001))
    );
    assert_eq!(client.remote_port(), 5000);
}

#[test]
fn connections_are_accepted_after_the_backend() {
    let client = standard(Some(ServerMessage::Hello(9000))).ok().unwrap();
    let mut steps = vec![
        Step::ConnectProxy(endpoint("proxy", 7835)),
        Step::Authenticate,
        Step::ConnectBackend(endpoint("backend", 80)),
        Step::Send(ClientMessage::Accept(42)),
    ];
    assert_eq!(client.handle_probe(42), steps);
    steps.push(Step::Relay);
    assert_eq!(client.handle_connection(42), steps);
    assert_eq!(client.backend(), endpoint("backend", 80));
    assert_eq!(client.backend_check(), Step::ConnectBackend(endpoint("backend", 80)));
    let limits: Vec<Option<u64>> = steps.iter().map(Step::limit).collect();
    assert_eq!(limits, [Some(2_000), Some(2_000), Some(2_000), None, None]);
    assert_eq!(Step::AwaitReply.limit(), Some(2_000));
    assert_eq!(endpoint("backend", 80).connect_failure(), "could not connect to backend:80");
}

#[test]
fn secret_belongs_to_the_handshake() {
    let client = Client::new_reliable("backend", 80, "proxy", 5000, Some("secret"), 7000);
    let attempt = client.connect_control();
    assert_eq!(attempt.connect, [Step::ConnectProxy(endpoint("proxy", 7000))]);
    assert_eq!(
        attempt.handshake,
        [Step::Authenticate, Step::Send(ClientMessage::Hello(5000)), Step::AwaitReply]
    );
}

#[test]
fn ended_sessions_have_results() {
    assert_eq!(SessionEnd::Closed.result(), Ok(()));
    assert_eq!(SessionEnd::Closed.message(), "control session closed");
    let texts = [
        (SessionEnd::Server("boom".to_string()), "server error: boom"),
        (SessionEnd::Failed("unable to parse message".to_string()), "unable to parse message"),
        (SessionEnd::Lost, "control heartbeats missed"),
    ];
    for (end, text) in texts {
        assert_eq!(end.message(), text);
        assert_eq!(end.result(), Err(text.to_string()));
    }
}

/// Run a client on one connection after another until it stops.
fn run(client: &mut Client, messages: Vec<ServerMessage>) -> (Result<(), String>, usize) {
    let mut messages = messages.into_iter();
    let mut connections = 0;
    let mut event = SupervisorEvent::Started;
    loop {
        event = match client.listen(event) {
            SupervisorAction::Dial => {
                connections += 1;
                assert_eq!(client.control_reply(messages.next()), Ok(()));
                SupervisorEvent::Dialed
            }
            SupervisorAction::Rest(_) => SupervisorEvent::Rested,
            SupervisorAction::Run => loop {
                let next = match messages.next() {
                    Some(message) => SessionEvent::Message(message),
                    None => SessionEvent::Closed,
                };
                if let SessionAction::End(end) = client.run_session(next) {
                    break SupervisorEvent::SessionEnded(end, 100);
                }
            },
            SupervisorAction::Stop(end) => return (end.result(), connections),
        };
    }
}

#[test]
fn standard_client_returns_what_its_session_came_to() {
    let mut client = Client::new_reliable("localhost", 8080, "proxy", 4000, None, 7835);
    client.set_reliable(false);
    let error = ServerMessage::Error("boom".to_string());
    assert_eq!(
        run(&mut client, vec![ServerMessage::Hello(4000), error]),
        (Err("server error: boom".to_string()), 1)
    );
    let mut client = Client::new_reliable("localhost", 8080, "proxy", 4000, None, 7835);
    client.set_reliable(false);
    assert_eq!(
        run(&mut client, vec![ServerMessage::Hello(4000), ServerMessage::Heartbeat]),
        (Ok(()), 1)
    );
    let mut client = standard(Some(ServerMessage::Hello(9000))).ok().unwrap();
    assert_eq!(run(&mut client, vec![]), (Ok(()), 0));
}

#[test]
fn settings_and_health() {
    let mut client = reliable(0);
    assert!(client.is_reliable());
    client.set_reliable(false);
    assert!(!client.is_reliable());
    assert_eq!(client.health_addr(), None);
    let addr = SocketAddr { ip: IpAddr::V4(0), port: 8080, flowinfo: 0, scope_id: 0 };
    client.set_health_addr(addr);
    assert_eq!(client.health_addr(), Some(addr));
    assert!(client.health_response(b"GET /live HTTP/1.1").starts_with("HTTP/1.1 200 OK"));
    assert!(client.health_response(b"GET /ready HTTP/1.1").starts_with("HTTP/1.1 503"));
    client.listen(SupervisorEvent::Dialed);
    client.set_backend_reachable(true);
    assert!(client.health_response(b"GET /ready HTTP/1.1").starts_with("HTTP/1.1 200 OK"));
    assert!(client.health_response(b"GET /status HTTP/1.1").contains("\"role\":\"target\""));
    client.fail_liveness();
    assert!(client.health_response(b"GET /live HTTP/1.1").starts_with("HTTP/1.1 503"));
}

#[test]
fn connected_while_a_session_runs() {
    let mut client = reliable(0);
    client.set_backend_reachable(true);
    client.listen(SupervisorEvent::Started);
    client.listen(SupervisorEvent::DialFailed);
    client.listen(SupervisorEvent::Rested);
    assert!(!client.health().target_ready());
    assert_eq!(client.listen(SupervisorEvent::Dialed), SupervisorAction::Run);
    assert!(client.health().target_ready());
    client.listen(SupervisorEvent::SessionEnded(SessionEnd::Closed, 20_000));
    assert!(!client.health().target_ready());
    client.listen(SupervisorEvent::DialFailed);
    client.listen(SupervisorEvent::Rested);
    assert!(!client.health().target_ready());
    client.listen(SupervisorEvent::Dialed);
    assert!(client.health().target_ready());
}
