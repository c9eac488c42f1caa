//! The agent that a command line asks for.

use core::ops::RangeInclusive;
use vstd::prelude::*;

use crate::client::{open_control, Client, ClientError, Step};
use crate::server::Server;
use crate::shared::{Endpoint, IpAddr, ServerMessage, SocketAddr};

verus! {

/// Settings of a target.
#[derive(Debug, PartialEq, Eq)]
pub struct LocalOptions {
    /// The local port to expose.
    pub local_port: u16,
    /// The local host to expose.
    pub local_host: String,
    /// Host of the proxy.
    pub to: String,
    /// Port to select on the proxy; zero for any.
    pub port: u16,
    /// Optional secret for authentication.
    pub secret: Option<String>,
    /// TCP port used for control connections with the proxy.
    pub control_port: u16,
    /// Whether sessions are checked and recovered.
    pub reliable: bool,
    /// Address serving the health endpoints.
    pub health_addr: Option<SocketAddr>,
}

/// Settings of a proxy.
#[derive(Debug, PartialEq, Eq)]
pub struct ServerOptions {
    /// Minimum accepted TCP port number.
    pub min_port: u16,
    /// Maximum accepted TCP port number.
    pub max_port: u16,
    /// Optional secret for authentication.
    pub secret: Option<String>,
    /// IP address to bind to, targets must reach this.
    pub bind_addr: IpAddr,
    /// IP address where tunnels will listen on, defaults to `bind_addr`.
    pub bind_tunnels: Option<IpAddr>,
    /// TCP port used for control connections with targets.
    pub control_port: u16,
    /// Whether sessions are checked.
    pub reliable: bool,
    /// Address serving the health endpoints.
    pub health_addr: Option<SocketAddr>,
}

/// What the agent is to be.
#[derive(Debug, PartialEq, Eq)]
pub enum Command {
    /// A target that exposes a local port on a proxy.
    Local(LocalOptions),
    /// A proxy.
    Server(ServerOptions),
}

/// What to start for a command.
pub enum Agent {
    /// A target whose supervisor opens the first control connection.
    Supervised(Client),
    /// A target that exists once its first control connection has been opened.
    Dial(LocalOptions),
    /// A proxy.
    Proxy(Server),
}

/// Why a command cannot be carried out.
#[derive(Debug, Clone, Copy, PartialEq, Eq, Structural)]
pub enum CommandError {
    /// No port lies between the minimum and the maximum.
    EmptyPortRange,
}

impl CommandError {
    /// Returns the text of the error.
    pub fn message(&self) -> (text: &'static str)
        ensures
            text@ == "port range is empty"@,
    {
        "port range is empty"
    }
}

/// The view of an optional text.
pub open spec fn text_of(text: Option<String>) -> Option<Seq<char>> {
    match text {
        Some(chars) => Some(chars@),
        None => None,
    }
}

fn borrowed(text: &Option<String>) -> (result: Option<&str>)
    ensures
        crate::client::text_of(result) == text_of(*text),
{
    match text {
        Some(chars) => Some(chars.as_str()),
        None => None,
    }
}

/// Whether a client has the given settings and has not started.
pub open spec fn follows(
    client: crate::client::ClientView,
    options: LocalOptions,
    reliable: bool,
) -> bool {
    &&& crate::client::configured(
        crate::client::ClientView { health_addr: None, ..client },
        options.local_host@,
        options.local_port,
        options.to@,
        options.port,
        text_of(options.secret),
        options.control_port,
    )
    &&& client.health_addr == options.health_addr
    &&& client.reliable == reliable
    &&& client.wf()
}

impl LocalOptions {
    /// Returns the steps that open the first control connection of a standard target.
    pub fn opening(&self) -> (steps: Vec<Step>)
        ensures
            steps@ == crate::client::control_steps(
                Endpoint { host: self.to, port: self.control_port },
                self.secret is Some,
                self.port,
            ),
    {
        let proxy = Endpoint { host: self.to.clone(), port: self.control_port };
        open_control(proxy, self.secret.is_some(), self.port)
    }

    /// Creates a standard target from the proxy's first message.
    pub fn opened(&self, reply: Option<ServerMessage>) -> (result: Result<Client, ClientError>)
        ensures
            match crate::client::greeting(reply) {
                Ok(remote_port) => {
                    &&& result is Ok
                    &&& follows(result->Ok_0@, *self, false)
                    &&& result->Ok_0@.remote_port == remote_port
                    &&& result->Ok_0@.connected
                },
                Err(error) => result == Err::<Client, ClientError>(error),
            },
    {
        match Client::new(
            self.local_host.as_str(),
            self.local_port,
            self.to.as_str(),
            self.port,
            borrowed(&self.secret),
            self.control_port,
            reply,
        ) {
            Ok(mut client) => {
                if let Some(addr) = self.health_addr {
                    client.set_health_addr(addr);
                }
                Ok(client)
            },
            Err(error) => Err(error),
        }
    }
}

/// Whether a proxy has the given settings and has not started.
pub open spec fn serves(server: crate::server::ServerView, options: ServerOptions) -> bool {
    &&& server.min_port == options.min_port
    &&& server.max_port == options.max_port
    &&& text_of(server.secret) == text_of(options.secret)
    &&& server.bind_addr == options.bind_addr
    &&& server.bind_tunnels == (match options.bind_tunnels {
        Some(addr) => addr,
        None => options.bind_addr,
    })
    &&& server.control_port == options.control_port
    &&& server.reliable == options.reliable
    &&& server.health_addr == options.health_addr
    &&& server.health == crate::health::HealthView::started()
    &&& server.registry == crate::registry::RegistryView::empty()
    &&& !server.active
}

/// Returns what to start for a command. A reliable target is left to its supervisor from the
/// first connection on, so that no failure to connect ends it.
pub fn run_command(command: Command) -> (result: Result<Agent, CommandError>)
    ensures
        match command {
            Command::Local(options) => if options.reliable {
                &&& result matches Ok(Agent::Supervised(client))
                &&& follows(client@, options, true)
                &&& client@.remote_port == options.port
                &&& !client@.connected
            } else {
                result == Ok::<Agent, CommandError>(Agent::Dial(options))
            },
            Command::Server(options) => if options.min_port <= options.max_port {
                &&& result matches Ok(Agent::Proxy(server))
                &&& serves(server@, options)
                &&& server.wf()
            } else {
                result == Err::<Agent, CommandError>(CommandError::EmptyPortRange)
            },
        },
{
    match command {
        Command::Local(options) => {
            if !options.reliable {
                return Ok(Agent::Dial(options));
            }
            let mut client = Client::new_reliable(
                options.local_host.as_str(),
                options.local_port,
                options.to.as_str(),
                options.port,
                borrowed(&options.secret),
                options.control_port,
            );
            if let Some(addr) = options.health_addr {
                client.set_health_addr(addr);
            }
            Ok(Agent::Supervised(client))
        },
        Command::Server(options) => {
            if options.min_port > options.max_port {
                return Err(CommandError::EmptyPortRange);
            }
            let port_range = RangeInclusive::new(options.min_port, options.max_port);
            let mut server = Server::new(port_range, borrowed(&options.secret));
            server.set_bind_addr(options.bind_addr);
            server.set_bind_tunnels(
                match options.bind_tunnels {
                    Some(addr) => addr,
                    None => options.bind_addr,
                },
            );
            server.set_control_port(options.control_port);
            server.set_reliable(options.reliable);
            if let Some(addr) = options.health_addr {
                server.set_health_addr(addr);
            }
            Ok(Agent::Proxy(server))
        },
    }
}

/// Law: a proxy that is started keeps nothing of any session.
pub proof fn law_started_proxy_is_settled(
    server: crate::server::ServerView,
    options: ServerOptions,
)
    requires
        serves(server, options),
    ensures
        crate::server::settled(server),
{
}

/// Law: a target that is made from a command line has each of its settings.
pub proof fn law_target_follows_its_options(
    client: crate::client::ClientView,
    options: LocalOptions,
    reliable: bool,
)
    requires
        follows(client, options, reliable),
    ensures
        client.local_port == options.local_port,
        client.local_host@ == options.local_host@,
        client.to@ == options.to@,
        client.requested_port == options.port,
        client.secret is Some == options.secret is Some,
        options.secret is Some ==> client.secret->0@ == options.secret->0@,
        client.control_port == options.control_port,
        client.reliable == reliable,
        client.health_addr == options.health_addr,
        client.health.live,
        !client.health.control_connected,
        client.health.backend == crate::health::Backend::Unknown,
        client.failed_attempts == 0,
        !client.resumed,
        client.missed == 0,
        client.wf(),
{
}

/// Law: a proxy that is made from a command line has each of its settings. Where no address is
/// given for the tunnels, they listen at the address of the proxy.
pub proof fn law_proxy_follows_its_options(
    server: crate::server::ServerView,
    options: ServerOptions,
)
    requires
        serves(server, options),
    ensures
        server.min_port == options.min_port,
        server.max_port == options.max_port,
        server.secret is Some == options.secret is Some,
        options.secret is Some ==> server.secret->0@ == options.secret->0@,
        server.bind_addr == options.bind_addr,
        options.bind_tunnels matches Some(addr) ==> server.bind_tunnels == addr,
        options.bind_tunnels is None ==> server.bind_tunnels == options.bind_addr,
        server.control_port == options.control_port,
        server.reliable == options.reliable,
        server.health_addr == options.health_addr,
        server.health.live,
        !server.health.control_connected,
        !server.active,
        server.registry.conns == Map::<u128, u64>::empty(),
        server.registry.probes == Map::<u128, u64>::empty(),
{
}

} // verus!
