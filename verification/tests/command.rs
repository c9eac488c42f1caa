use netaminity_agent::command::{
    run_command, Agent, Command, CommandError, LocalOptions, ServerOptions,
};
use netaminity_agent::client::{ClientError, Step, SupervisorAction, SupervisorEvent};
use netaminity_agent::server::{ListenAction, ListenEvent};
use netaminity_agent::shared::{
    probe_address, ClientMessage, Endpoint, IpAddr, ServerMessage, SocketAddr,
};

fn addr(ip: IpAddr, port: u16) -> SocketAddr {
    SocketAddr { ip, port, flowinfo: 0, scope_id: 0 }
}

fn local(reliable: bool) -> LocalOptions {
    LocalOptions {
        local_port: 80,
        local_host: "localhost".to_string(),
        to: "proxy".to_string(),
        port: 5000,
        secret: Some("secret".to_string()),
        control_port: 7835,
        reliable,
        health_addr: Some(addr(IpAddr::V4(0), 8080)),
    }
}

fn server(min_port: u16, max_port: u16, bind_tunnels: Option<IpAddr>) -> ServerOptions {
    ServerOptions {
        min_port,
        max_port,
        secret: None,
        bind_addr: IpAddr::V4(9),
        bind_tunnels,
        control_port: 7000,
        reliable: true,
        health_addr: None,
    }
}

#[test]
fn reliable_target_is_supervised_from_the_start() {
    match run_command(Command::Local(local(true))) {
        Ok(Agent::Supervised(mut client)) => {
            assert!(client.is_reliable());
            assert_eq!(client.remote_port(), 5000);
            assert_eq!(client.health_addr(), Some(addr(IpAddr::V4(0), 8080)));
            assert_eq!(client.listen(SupervisorEvent::Started), SupervisorAction::Dial);
        }
        _ => panic!(),
    }
}

#[test]
fn standard_target_is_dialed_first() {
    match run_command(Command::Local(local(false))) {
        Ok(Agent::Dial(options)) => {
            assert_eq!(options, local(false));
            assert_eq!(
                options.opening(),
                vec![
                    Step::ConnectProxy(Endpoint { host: "proxy".to_string(), port: 7835 }),
                    Step::Authenticate,
                    Step::Send(ClientMessage::Hello(5000)),
                    Step::AwaitReply,
                ]
            );
            let mut client = options.opened(Some(ServerMessage::Hello(5000))).ok().unwrap();
            assert!(!client.is_reliable());
            assert_eq!(client.health_addr(), Some(addr(IpAddr::V4(0), 8080)));
            assert_eq!(client.listen(SupervisorEvent::Started), SupervisorAction::Run);
            assert_eq!(options.opened(None).err().unwrap(), ClientError::Eof);
        }
        _ => panic!(),
    }
}

#[test]
fn proxy_settings() {
    match run_command(Command::Server(server(1024, 65535, None))) {
        Ok(Agent::Proxy(mut server)) => {
            assert!(server.is_reliable());
            assert_eq!(
                server.listen(ListenEvent::Started),
                ListenAction::Bind(addr(IpAddr::V4(9), 7000))
            );
            assert_eq!(server.tunnel_addr(5), addr(IpAddr::V4(9), 5));
        }
        _ => panic!(),
    }
    match run_command(Command::Server(server(7, 7, Some(IpAddr::V6(2))))) {
        Ok(Agent::Proxy(server)) => assert_eq!(server.tunnel_addr(7), addr(IpAddr::V6(2), 7)),
        _ => panic!(),
    }
}

#[test]
fn empty_port_range_is_an_error() {
    match run_command(Command::Server(server(8, 7, None))) {
        Err(error) => {
            assert_eq!(error, CommandError::EmptyPortRange);
            assert_eq!(error.message(), "port range is empty");
        }
        Ok(_) => panic!(),
    }
}

#[test]
fn probe_addresses() {
    assert_eq!(
        probe_address(addr(IpAddr::V4(0), 5)),
        addr(IpAddr::V4(0x7f000001), 5)
    );
    assert_eq!(probe_address(addr(IpAddr::V6(0), 5)), addr(IpAddr::V6(1), 5));
    assert_eq!(probe_address(addr(IpAddr::V4(77), 5)), addr(IpAddr::V4(77), 5));
    let scoped = SocketAddr { ip: IpAddr::V6(3), port: 6, flowinfo: 1, scope_id: 2 };
    assert_eq!(probe_address(scoped), addr(IpAddr::V6(3), 6));
}
