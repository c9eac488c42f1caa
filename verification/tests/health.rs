use netaminity_agent::health::{respond, serve, HealthState};

#[test]
fn backend_failure_is_not_a_liveness_failure() {
    let mut health = HealthState::new();
    health.set_control_connected(true);
    health.set_backend_reachable(false);

    assert!(health.is_live());
    assert!(!health.target_ready());
    assert!(!health.proxy_ready());
}

#[test]
fn proxy_requires_verified_tunnel() {
    let mut health = HealthState::new();
    health.set_control_connected(true);
    health.set_backend_reachable(true);

    assert!(health.target_ready());
    assert!(!health.proxy_ready());

    health.set_tunnel_verified(true);
    assert!(health.proxy_ready());
}

#[test]
fn tunnel_failure_fails_liveness() {
    let mut health = HealthState::new();
    health.set_control_connected(true);
    health.set_backend_reachable(true);
    health.set_tunnel_verified(true);
    health.fail_liveness();

    assert!(!health.is_live());
}

#[test]
fn default_state_is_not_live() {
    let health = HealthState::default();
    assert!(!health.is_live());
    assert!(!health.target_ready());
    assert!(!health.backend_reachable());
}

#[test]
fn control_loss_needs_a_new_verification() {
    let mut health = HealthState::new();
    health.set_control_connected(true);
    health.set_backend_reachable(true);
    health.set_tunnel_verified(true);
    health.set_control_connected(false);
    assert!(!health.target_ready());
    health.set_control_connected(true);
    assert!(health.target_ready());
    assert!(!health.proxy_ready());
    health.set_tunnel_verified(true);
    assert!(health.proxy_ready());
}

#[test]
fn backend_loss_needs_a_new_verification() {
    let mut health = HealthState::new();
    health.set_control_connected(true);
    health.set_backend_reachable(true);
    health.set_tunnel_verified(true);
    health.set_backend_reachable(false);
    health.set_backend_reachable(true);
    assert!(health.backend_reachable());
    assert!(health.target_ready());
    assert!(!health.proxy_ready());
}

#[test]
fn liveness_does_not_come_back() {
    let mut health = HealthState::new();
    health.fail_liveness();
    health.set_control_connected(true);
    health.set_backend_reachable(true);
    health.set_tunnel_verified(true);
    assert!(!health.is_live());
    assert!(health.proxy_ready());
}

#[test]
fn status_is_json() {
    let mut health = HealthState::new();
    assert_eq!(
        health.status("target"),
        "{\"role\":\"target\",\"live\":true,\"controlConnected\":false,\"backend\":\"unknown\",\"tunnelVerified\":false}\n"
    );
    health.set_control_connected(true);
    health.set_backend_reachable(true);
    health.set_tunnel_verified(true);
    health.fail_liveness();
    assert_eq!(
        health.status("proxy"),
        "{\"role\":\"proxy\",\"live\":false,\"controlConnected\":true,\"backend\":\"healthy\",\"tunnelVerified\":true}\n"
    );
    health.set_backend_reachable(false);
    assert_eq!(
        health.status("proxy"),
        "{\"role\":\"proxy\",\"live\":false,\"controlConnected\":true,\"backend\":\"unhealthy\",\"tunnelVerified\":false}\n"
    );
}

#[test]
fn live_endpoint() {
    let mut health = HealthState::new();
    assert_eq!(
        serve(b"GET /live HTTP/1.1\r\nHost: x\r\n\r\n", "target", &health),
        "HTTP/1.1 200 OK\r\nContent-Type: text/plain\r\nContent-Length: 3\r\nConnection: close\r\n\r\nok\n"
    );
    health.fail_liveness();
    assert_eq!(
        serve(b"GET /live HTTP/1.1\r\n\r\n", "target", &health),
        "HTTP/1.1 503 Service Unavailable\r\nContent-Type: text/plain\r\nContent-Length: 7\r\nConnection: close\r\n\r\nfailed\n"
    );
}

#[test]
fn ready_endpoint_depends_on_the_role() {
    let mut health = HealthState::new();
    health.set_control_connected(true);
    health.set_backend_reachable(true);
    assert_eq!(
        respond("GET /ready HTTP/1.1", "target", &health),
        "HTTP/1.1 200 OK\r\nContent-Type: text/plain\r\nContent-Length: 6\r\nConnection: close\r\n\r\nready\n"
    );
    assert_eq!(
        respond("GET /ready HTTP/1.1", "proxy", &health),
        "HTTP/1.1 503 Service Unavailable\r\nContent-Type: text/plain\r\nContent-Length: 10\r\nConnection: close\r\n\r\nnot ready\n"
    );
    health.set_tunnel_verified(true);
    assert!(respond("GET /ready HTTP/1.1", "proxy", &health).starts_with("HTTP/1.1 200 OK"));
}

#[test]
fn status_endpoint_counts_bytes() {
    let health = HealthState::new();
    let response = respond("GET /status HTTP/1.1", "pr\u{f6}xy", &health);
    let body = health.status("pr\u{f6}xy");
    assert!(response.starts_with("HTTP/1.1 200 OK\r\n"));
    assert!(response.contains(&format!("\r\nContent-Length: {}\r\n", body.len())));
    assert!(response.ends_with(&format!("\r\n\r\n{}", body)));
    assert_ne!(body.len(), body.chars().count());
}

#[test]
fn other_paths_are_not_found() {
    let health = HealthState::new();
    let missing = "HTTP/1.1 404 Not Found\r\nContent-Type: text/plain\r\nContent-Length: 10\r\nConnection: close\r\n\r\nnot found\n";
    assert_eq!(serve(b"GET / HTTP/1.1", "target", &health), missing);
    assert_eq!(serve(b"GET", "target", &health), missing);
    assert_eq!(serve(b"", "target", &health), missing);
    assert_eq!(serve(b"GET /live/ HTTP/1.1", "target", &health), missing);
    assert_eq!(serve(b"GET /liv\xff HTTP/1.1", "target", &health), missing);
}

#[test]
fn invalid_bytes_do_not_hide_the_path() {
    let health = HealthState::new();
    let response = serve(b"\xff\xfe /live \xff", "target", &health);
    assert!(response.starts_with("HTTP/1.1 200 OK"));
}

#[test]
fn unicode_white_space_separates_words() {
    let health = HealthState::new();
    let response = serve("GET\u{a0}/live\u{3000}x".as_bytes(), "target", &health);
    assert!(response.starts_with("HTTP/1.1 200 OK"));
}
