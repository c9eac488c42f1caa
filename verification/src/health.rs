//! Health state of the tunnel and the answers of the HTTP health endpoints.

use vstd::prelude::*;
use vstd::string::*;
use vstd::utf8::*;

use crate::text::{decimal_text, target_of};

verus! {

/// What is known of the backend.
#[derive(Debug, Clone, Copy, PartialEq, Eq, Structural)]
pub enum Backend {
    Unknown,
    Healthy,
    Unhealthy,
}

/// How many bytes of an HTTP request are looked at.
pub const MAX_REQUEST: usize = 1024;

/// Model of a [`HealthState`].
pub struct HealthView {
    pub live: bool,
    pub control_connected: bool,
    pub backend: Backend,
    pub tunnel_verified: bool,
}

impl HealthView {
    /// A running process of which nothing else is known yet.
    pub open spec fn started() -> HealthView {
        HealthView {
            live: true,
            control_connected: false,
            backend: Backend::Unknown,
            tunnel_verified: false,
        }
    }

    /// The control session is up or down. Without it the tunnel is not verified.
    pub open spec fn with_control(self, connected: bool) -> HealthView {
        HealthView {
            control_connected: connected,
            tunnel_verified: connected && self.tunnel_verified,
            ..self
        }
    }

    /// The backend is reachable or not. Without it the tunnel is not verified.
    pub open spec fn with_backend(self, reachable: bool) -> HealthView {
        HealthView {
            backend: if reachable {
                Backend::Healthy
            } else {
                Backend::Unhealthy
            },
            tunnel_verified: reachable && self.tunnel_verified,
            ..self
        }
    }

    pub open spec fn with_tunnel(self, verified: bool) -> HealthView {
        HealthView { tunnel_verified: verified, ..self }
    }

    pub open spec fn without_liveness(self) -> HealthView {
        HealthView { live: false, ..self }
    }

    pub open spec fn target_ready(self) -> bool {
        self.control_connected && self.backend == Backend::Healthy
    }

    pub open spec fn proxy_ready(self) -> bool {
        self.target_ready() && self.tunnel_verified
    }
}

/// Health state shared by the tunnel and the HTTP health server.
pub struct HealthState {
    live: bool,
    control_connected: bool,
    backend: Backend,
    tunnel_verified: bool,
}

impl View for HealthState {
    type V = HealthView;

    closed spec fn view(&self) -> HealthView {
        HealthView {
            live: self.live,
            control_connected: self.control_connected,
            backend: self.backend,
            tunnel_verified: self.tunnel_verified,
        }
    }
}

impl Default for HealthState {
    /// State of a process that is not running.
    fn default() -> (state: HealthState)
        ensures
            state@ == HealthView::started().without_liveness(),
    {
        HealthState {
            live: false,
            control_connected: false,
            backend: Backend::Unknown,
            tunnel_verified: false,
        }
    }
}

impl HealthState {
    /// Creates health state for a running process.
    pub fn new() -> (state: HealthState)
        ensures
            state@ == HealthView::started(),
    {
        HealthState { live: true, ..HealthState::default() }
    }

    /// Sets whether the control session is connected.
    pub fn set_control_connected(&mut self, connected: bool)
        ensures
            final(self)@ == old(self)@.with_control(connected),
    {
        self.control_connected = connected;
        if !connected {
            self.tunnel_verified = false;
        }
    }

    /// Sets whether the target backend is reachable.
    pub fn set_backend_reachable(&mut self, reachable: bool)
        ensures
            final(self)@ == old(self)@.with_backend(reachable),
    {
        self.backend = if reachable {
            Backend::Healthy
        } else {
            Backend::Unhealthy
        };
        if !reachable {
            self.tunnel_verified = false;
        }
    }

    /// Returns whether the latest backend check succeeded.
    pub fn backend_reachable(&self) -> (reachable: bool)
        ensures
            reachable == (self@.backend == Backend::Healthy),
    {
        self.backend == Backend::Healthy
    }

    /// Sets whether the complete tunnel path has been verified.
    pub fn set_tunnel_verified(&mut self, verified: bool)
        ensures
            final(self)@ == old(self)@.with_tunnel(verified),
    {
        self.tunnel_verified = verified;
    }

    /// Marks the process unhealthy enough to restart.
    pub fn fail_liveness(&mut self)
        ensures
            final(self)@ == old(self)@.without_liveness(),
    {
        self.live = false;
    }

    /// Returns whether the process should remain running.
    pub fn is_live(&self) -> (live: bool)
        ensures
            live == self@.live,
    {
        self.live
    }

    /// Returns target readiness.
    pub fn target_ready(&self) -> (ready: bool)
        ensures
            ready == self@.target_ready(),
    {
        self.control_connected && self.backend == Backend::Healthy
    }

    /// Returns proxy readiness.
    pub fn proxy_ready(&self) -> (ready: bool)
        ensures
            ready == self@.proxy_ready(),
    {
        self.target_ready() && self.tunnel_verified
    }

    /// Returns the state as a line of JSON.
    pub fn status(&self, role: &str) -> (line: String)
        ensures
            line@ == status_line(role@, self@),
    {
        let backend = match self.backend {
            Backend::Healthy => "healthy",
            Backend::Unhealthy => "unhealthy",
            Backend::Unknown => "unknown",
        };
        let mut line = "{\"role\":\"".to_owned();
        line.append(role);
        line.append("\",\"live\":");
        line.append(bool_text(self.live));
        line.append(",\"controlConnected\":");
        line.append(bool_text(self.control_connected));
        line.append(",\"backend\":\"");
        line.append(backend);
        line.append("\",\"tunnelVerified\":");
        line.append(bool_text(self.tunnel_verified));
        line.append("}\n");
        line
    }
}

/// The JSON notation of a truth value.
pub open spec fn json_bool(value: bool) -> Seq<char> {
    if value {
        "true"@
    } else {
        "false"@
    }
}

/// The JSON text that stands for what is known of the backend.
pub open spec fn json_backend(backend: Backend) -> Seq<char> {
    match backend {
        Backend::Healthy => "healthy"@,
        Backend::Unhealthy => "unhealthy"@,
        Backend::Unknown => "unknown"@,
    }
}

/// The body of a status response.
pub open spec fn status_line(role: Seq<char>, state: HealthView) -> Seq<char> {
    "{\"role\":\""@ + role + "\",\"live\":"@ + json_bool(state.live) + ",\"controlConnected\":"@
        + json_bool(state.control_connected) + ",\"backend\":\""@ + json_backend(state.backend)
        + "\",\"tunnelVerified\":"@ + json_bool(state.tunnel_verified) + "}\n"@
}

/// Returns the JSON notation of a truth value.
fn bool_text(value: bool) -> (text: &'static str)
    ensures
        text@ == json_bool(value),
{
    if value {
        "true"
    } else {
        "false"
    }
}

/// Whether an agent in the given role can carry traffic.
pub open spec fn ready(role: Seq<char>, state: HealthView) -> bool {
    if role == "proxy"@ {
        state.proxy_ready()
    } else {
        state.target_ready()
    }
}

/// The HTTP status and the body with which a path is answered.
pub open spec fn answer(path: Seq<char>, role: Seq<char>, state: HealthView) -> (
    Seq<char>,
    Seq<char>,
) {
    if path == "/live"@ {
        if state.live {
            ("200 OK"@, "ok\n"@)
        } else {
            ("503 Service Unavailable"@, "failed\n"@)
        }
    } else if path == "/ready"@ {
        if ready(role, state) {
            ("200 OK"@, "ready\n"@)
        } else {
            ("503 Service Unavailable"@, "not ready\n"@)
        }
    } else if path == "/status"@ {
        ("200 OK"@, status_line(role, state))
    } else {
        ("404 Not Found"@, "not found\n"@)
    }
}

/// A complete HTTP response. The content length counts the bytes of the body.
pub open spec fn http_response(status: Seq<char>, body: Seq<char>) -> Seq<char> {
    "HTTP/1.1 "@ + status + "\r\nContent-Type: text/plain\r\nContent-Length: "@ + crate::text::decimal(
        encode_utf8(body).len(),
    ) + "\r\nConnection: close\r\n\r\n"@ + body
}

/// The response to a request, whose path is its second word.
pub open spec fn response_to(request: Seq<char>, role: Seq<char>, state: HealthView) -> Seq<char> {
    let reply = answer(crate::text::request_target(request), role, state);
    http_response(reply.0, reply.1)
}

/// What `String::from_utf8_lossy` makes of some bytes.
pub uninterp spec fn lossy_text(bytes: Seq<u8>) -> Seq<char>;

/// Decodes bytes with `String::from_utf8_lossy`.
///
/// Trusted: the text depends on the bytes alone, and bytes that are valid UTF-8 are decoded
/// exactly. How invalid bytes are replaced is left to the named result.
#[verifier::external_body]
fn decode_lossy(bytes: &[u8]) -> (text: String)
    ensures
        text@ == lossy_text(bytes@),
        valid_utf8(bytes@) ==> text@ == decode_utf8(bytes@),
{
    String::from_utf8_lossy(bytes).into_owned()
}

/// Returns whether two texts are equal.
fn same_text(left: &str, right: &str) -> (same: bool)
    ensures
        same == (left@ == right@),
{
    left.to_owned() == right.to_owned()
}

/// Returns the response to the text of an HTTP request.
pub fn respond(request: &str, role: &str, state: &HealthState) -> (response: String)
    ensures
        response@ == response_to(request@, role@, state@),
{
    let path = target_of(request);
    let (status, body) = if same_text(&path, "/live") {
        if state.is_live() {
            ("200 OK", "ok\n".to_owned())
        } else {
            ("503 Service Unavailable", "failed\n".to_owned())
        }
    } else if same_text(&path, "/ready") {
        let is_ready = if same_text(role, "proxy") {
            state.proxy_ready()
        } else {
            state.target_ready()
        };
        if is_ready {
            ("200 OK", "ready\n".to_owned())
        } else {
            ("503 Service Unavailable", "not ready\n".to_owned())
        }
    } else if same_text(&path, "/status") {
        ("200 OK", state.status(role))
    } else {
        ("404 Not Found", "not found\n".to_owned())
    };
    let length: usize = body.as_str().as_bytes().len();
    let mut response = "HTTP/1.1 ".to_owned();
    response.append(status);
    response.append("\r\nContent-Type: text/plain\r\nContent-Length: ");
    response.append(&decimal_text(length));
    response.append("\r\nConnection: close\r\n\r\n");
    response.append(&body);
    response
}

/// Returns the response to the bytes of an HTTP request for liveness, readiness or status.
pub fn serve(request: &[u8], role: &str, state: &HealthState) -> (response: String)
    ensures
        response@ == response_to(lossy_text(request@), role@, state@),
        valid_utf8(request@) ==> response@ == response_to(
            decode_utf8(request@),
            role@,
            state@,
        ),
{
    let text = decode_lossy(request);
    respond(&text, role, state)
}

/// One of the changes that a health state undergoes.
pub enum HealthChange {
    Control(bool),
    Backend(bool),
    Tunnel(bool),
    LivenessFailed,
}

/// The state after one change.
pub open spec fn changed(state: HealthView, change: HealthChange) -> HealthView {
    match change {
        HealthChange::Control(connected) => state.with_control(connected),
        HealthChange::Backend(reachable) => state.with_backend(reachable),
        HealthChange::Tunnel(verified) => state.with_tunnel(verified),
        HealthChange::LivenessFailed => state.without_liveness(),
    }
}

/// The state after several changes, in order.
pub open spec fn changed_by(state: HealthView, changes: Seq<HealthChange>) -> HealthView
    decreases changes.len(),
{
    if changes.len() == 0 {
        state
    } else {
        changed(changed_by(state, changes.drop_last()), changes.last())
    }
}

/// Law: a process stays live until its liveness is failed explicitly, whatever becomes of the
/// control session, the backend and the tunnel; and once failed it does not come back.
pub proof fn law_liveness_is_latched(state: HealthView, changes: Seq<HealthChange>)
    ensures
        changed_by(state, changes).live == (state.live && !changes.contains(
            HealthChange::LivenessFailed,
        )),
    decreases changes.len(),
{
    if changes.len() > 0 {
        let earlier = changes.drop_last();
        law_liveness_is_latched(state, earlier);
        if changes.contains(HealthChange::LivenessFailed) && !earlier.contains(
            HealthChange::LivenessFailed,
        ) {
            let at = changes.index_of(HealthChange::LivenessFailed);
            assert(changes[at] == HealthChange::LivenessFailed);
            if at < earlier.len() {
                assert(earlier[at] == HealthChange::LivenessFailed);
            }
        }
        if earlier.contains(HealthChange::LivenessFailed) {
            let at = earlier.index_of(HealthChange::LivenessFailed);
            assert(changes[at] == HealthChange::LivenessFailed);
        }
        if changes.last() == HealthChange::LivenessFailed {
            assert(changes[changes.len() - 1] == HealthChange::LivenessFailed);
        }
    }
}

/// Law: without a control session neither role is ready, and neither becomes ready before the
/// session is back. The proxy also needs the tunnel to be verified anew.
pub proof fn law_control_loss(state: HealthView, changes: Seq<HealthChange>)
    ensures
        !changes.contains(HealthChange::Control(true)) ==> !changed_by(
            state.with_control(false),
            changes,
        ).target_ready(),
        !changes.contains(HealthChange::Control(true)) ==> !changed_by(
            state.with_control(false),
            changes,
        ).proxy_ready(),
        !changes.contains(HealthChange::Tunnel(true)) ==> !changed_by(
            state.with_control(false),
            changes,
        ).proxy_ready(),
{
    let lost = state.with_control(false);
    if !changes.contains(HealthChange::Control(true)) {
        lemma_control_stays_down(lost, changes);
    }
    if !changes.contains(HealthChange::Tunnel(true)) {
        lemma_tunnel_stays_unverified(lost, changes);
    }
}

/// Law: without its backend neither role is ready, and neither becomes ready before the backend
/// is back. The proxy also needs the tunnel to be verified anew.
pub proof fn law_backend_loss(state: HealthView, changes: Seq<HealthChange>)
    ensures
        !changes.contains(HealthChange::Backend(true)) ==> !changed_by(
            state.with_backend(false),
            changes,
        ).target_ready(),
        !changes.contains(HealthChange::Backend(true)) ==> !changed_by(
            state.with_backend(false),
            changes,
        ).proxy_ready(),
        !changes.contains(HealthChange::Tunnel(true)) ==> !changed_by(
            state.with_backend(false),
            changes,
        ).proxy_ready(),
{
    let lost = state.with_backend(false);
    if !changes.contains(HealthChange::Backend(true)) {
        lemma_backend_stays_down(lost, changes);
    }
    if !changes.contains(HealthChange::Tunnel(true)) {
        lemma_tunnel_stays_unverified(lost, changes);
    }
}

/// Law: a proxy is ready only where a target in its place would be, and exactly when the
/// session is up, the backend reachable and the tunnel verified. Reaching these in turn makes
/// it ready from any state.
pub proof fn law_readiness(state: HealthView)
    ensures
        state.proxy_ready() ==> state.target_ready(),
        state.proxy_ready() == (state.control_connected && state.backend == Backend::Healthy
            && state.tunnel_verified),
        state.with_control(true).with_backend(true).target_ready(),
        state.with_control(true).with_backend(true).with_tunnel(true).proxy_ready(),
        !HealthView::started().target_ready(),
        HealthView::started().live,
{
}

/// Law: what the control session, the backend and the tunnel do never changes the answer to a
/// liveness request.
pub proof fn law_live_endpoint(state: HealthView, role: Seq<char>, value: bool)
    ensures
        answer("/live"@, role, state.with_control(value)) == answer("/live"@, role, state),
        answer("/live"@, role, state.with_backend(value)) == answer("/live"@, role, state),
        answer("/live"@, role, state.with_tunnel(value)) == answer("/live"@, role, state),
{
}

/// Law: the liveness endpoint answers 200 exactly while the process is live, the readiness
/// endpoint exactly while the role is ready, the status endpoint always; any other path is not
/// found.
pub proof fn law_endpoints(state: HealthView, role: Seq<char>, path: Seq<char>)
    ensures
        (answer("/live"@, role, state).0 == "200 OK"@) == state.live,
        (answer("/ready"@, "proxy"@, state).0 == "200 OK"@) == state.proxy_ready(),
        (answer("/ready"@, "target"@, state).0 == "200 OK"@) == state.target_ready(),
        answer("/status"@, role, state) == ("200 OK"@, status_line(role, state)),
        path != "/live"@ && path != "/ready"@ && path != "/status"@ ==> answer(path, role, state)
            == ("404 Not Found"@, "not found\n"@),
{
    reveal_strlit("/live");
    reveal_strlit("/ready");
    reveal_strlit("/status");
    reveal_strlit("proxy");
    reveal_strlit("target");
    reveal_strlit("200 OK");
    reveal_strlit("503 Service Unavailable");
    assert("/live"@[1] == 'l');
    assert("/ready"@[1] == 'r');
    assert("/status"@[1] == 's');
    assert("proxy"@[0] == 'p');
    assert("target"@[0] == 't');
    assert("200 OK"@[0] == '2');
    assert("503 Service Unavailable"@[0] == '5');
}

proof fn lemma_drop_last_contains(changes: Seq<HealthChange>, change: HealthChange)
    requires
        changes.len() > 0,
        !changes.contains(change),
    ensures
        !changes.drop_last().contains(change),
        changes.last() != change,
{
    if changes.drop_last().contains(change) {
        let at = changes.drop_last().index_of(change);
        assert(changes[at] == change);
    }
    assert(changes[changes.len() - 1] == changes.last());
}

proof fn lemma_control_stays_down(state: HealthView, changes: Seq<HealthChange>)
    requires
        !state.control_connected,
        !changes.contains(HealthChange::Control(true)),
    ensures
        !changed_by(state, changes).control_connected,
    decreases changes.len(),
{
    if changes.len() > 0 {
        lemma_drop_last_contains(changes, HealthChange::Control(true));
        lemma_control_stays_down(state, changes.drop_last());
    }
}

proof fn lemma_backend_stays_down(state: HealthView, changes: Seq<HealthChange>)
    requires
        state.backend != Backend::Healthy,
        !changes.contains(HealthChange::Backend(true)),
    ensures
        changed_by(state, changes).backend != Backend::Healthy,
    decreases changes.len(),
{
    if changes.len() > 0 {
        lemma_drop_last_contains(changes, HealthChange::Backend(true));
        lemma_backend_stays_down(state, changes.drop_last());
    }
}

proof fn lemma_tunnel_stays_unverified(state: HealthView, changes: Seq<HealthChange>)
    requires
        !state.tunnel_verified,
        !changes.contains(HealthChange::Tunnel(true)),
    ensures
        !changed_by(state, changes).tunnel_verified,
    decreases changes.len(),
{
    if changes.len() > 0 {
        lemma_drop_last_contains(changes, HealthChange::Tunnel(true));
        lemma_tunnel_stays_unverified(state, changes.drop_last());
    }
}

/// Law: each change touches what it is about and nothing else, but that a lost session and a lost
/// backend also leave the tunnel unverified, while neither a session nor a backend that is there
/// verifies it.
pub proof fn law_changes_are_local(state: HealthView, value: bool)
    ensures
        ({
            let control = state.with_control(value);
            &&& control.control_connected == value
            &&& control.tunnel_verified == (state.tunnel_verified && value)
            &&& control.live == state.live
            &&& control.backend == state.backend
        }),
        ({
            let backend = state.with_backend(value);
            &&& (backend.backend == Backend::Healthy) == value
            &&& (backend.backend == Backend::Unhealthy) == !value
            &&& backend.tunnel_verified == (state.tunnel_verified && value)
            &&& backend.live == state.live
            &&& backend.control_connected == state.control_connected
        }),
        ({
            let tunnel = state.with_tunnel(value);
            &&& tunnel.tunnel_verified == value
            &&& tunnel.live == state.live
            &&& tunnel.control_connected == state.control_connected
            &&& tunnel.backend == state.backend
        }),
        ({
            let failed = state.without_liveness();
            &&& !failed.live
            &&& failed.control_connected == state.control_connected
            &&& failed.backend == state.backend
            &&& failed.tunnel_verified == state.tunnel_verified
        }),
{
}

/// Law: a process starts live, without a session, with a backend of which nothing is known and
/// with an unverified tunnel. A target is ready with a session and a reachable backend, and in no
/// other state.
pub proof fn law_first_state(state: HealthView)
    ensures
        ({
            let first = HealthView::started();
            &&& first.live
            &&& !first.control_connected
            &&& first.backend == Backend::Unknown
            &&& !first.tunnel_verified
        }),
        state.target_ready() == (state.control_connected && state.backend == Backend::Healthy),
        MAX_REQUEST == 1024,
{
}

/// Law: the answers to the three requests and to any other, for every role. Only the proxy's
/// readiness needs a verified tunnel.
pub proof fn law_answers(state: HealthView, role: Seq<char>, path: Seq<char>)
    ensures
        ({
            let reply = answer(path, role, state);
            let good = "200 OK"@;
            let bad = "503 Service Unavailable"@;
            let reachable = state.control_connected && state.backend == Backend::Healthy;
            let carries = reachable && (role == "proxy"@ ==> state.tunnel_verified);
            &&& path == "/live"@ && state.live ==> reply == (good, "ok\n"@)
            &&& path == "/live"@ && !state.live ==> reply == (bad, "failed\n"@)
            &&& path == "/ready"@ && carries ==> reply == (good, "ready\n"@)
            &&& path == "/ready"@ && !carries ==> reply == (bad, "not ready\n"@)
            &&& path == "/status"@ ==> reply.0 == good && reply.1 == status_line(role, state)
            &&& path != "/live"@ && path != "/ready"@ && path != "/status"@ ==> reply == (
                "404 Not Found"@,
                "not found\n"@,
            )
        }),
{
    reveal_strlit("/live");
    reveal_strlit("/ready");
    reveal_strlit("/status");
    assert("/live"@[1] == 'l');
    assert("/ready"@[1] == 'r');
    assert("/status"@[1] == 's');
}

/// Law: a status line names the role, and after it the four parts of the state in their JSON
/// notation.
pub proof fn law_status_line(role: Seq<char>, state: HealthView)
    ensures
        ({
            let known = match state.backend {
                Backend::Healthy => "healthy"@,
                Backend::Unhealthy => "unhealthy"@,
                Backend::Unknown => "unknown"@,
            };
            let live = if state.live {
                "true"@
            } else {
                "false"@
            };
            let connected = if state.control_connected {
                "true"@
            } else {
                "false"@
            };
            let verified = if state.tunnel_verified {
                "true"@
            } else {
                "false"@
            };
            status_line(role, state) == "{\"role\":\""@ + role + "\",\"live\":"@ + live
                + ",\"controlConnected\":"@ + connected + ",\"backend\":\""@ + known
                + "\",\"tunnelVerified\":"@ + verified + "}\n"@
        }),
{
}

/// Law: a response is made of a status line, three headers, an empty line and the body, and the
/// second header counts the bytes of the body.
pub proof fn law_response_is_framed(request: Seq<char>, role: Seq<char>, state: HealthView)
    ensures
        ({
            let (status, body) = answer(crate::text::request_target(request), role, state);
            let length = crate::text::decimal(encode_utf8(body).len());
            let head = "HTTP/1.1 "@ + status
                + "\r\nContent-Type: text/plain\r\nContent-Length: "@ + length
                + "\r\nConnection: close\r\n\r\n"@;
            &&& response_to(request, role, state) == head + body
            &&& crate::text::number(length) == encode_utf8(body).len()
        }),
{
    let (status, body) = answer(crate::text::request_target(request), role, state);
    crate::text::law_decimal_notation(encode_utf8(body).len());
}

} // verus!
