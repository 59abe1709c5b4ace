use ftls::dns::{first_ipv4, IpAddress};
use ftls::handshake::{after_resolution, plan_socks5, Client, HandshakeError, ResolveOutcome, Socks5Plan};
use ftls::message::{DestinationType, Message, Transport};
use ftls::server::{handshake_reply, Server, ServerError};
use ftls::socks5::{target_addr_into_dest, TargetAddr};
use ftls::tun::{client_packet, client_tun_settings, ip_transport_hello, server_packet, server_tun_settings, RelayAction, TunRead};

#[test]
fn hello_makes_a_client() {
    let client = Client::try_from_handshake(
        Message::Hello { version: [0, 2, 13], transport: Transport::SOCKS },
        "stream",
    )
    .ok()
    .unwrap();
    assert_eq!(client.version(), "0.2.13");
    assert_eq!(client.transport(), Transport::SOCKS);
    let id = client.id();
    assert_eq!((id >> 76) & 0xf, 4);
    assert_eq!((id >> 62) & 0x3, 2);
    assert_eq!(client.into_stream(), "stream");
}

#[test]
fn clients_get_distinct_ids() {
    let hello = || Message::Hello { version: [0, 0, 1], transport: Transport::IP };
    let a = Client::try_from_handshake(hello(), ()).ok().unwrap();
    let b = Client::try_from_handshake(hello(), ()).ok().unwrap();
    assert_ne!(a.id(), b.id());
}

#[test]
fn handshake_must_start_with_hello() {
    match Client::try_from_handshake(Message::Start, ()) {
        Err(HandshakeError::ExpectedHello(m)) => assert_eq!(m, Message::Start),
        _ => panic!("expected a refusal"),
    }
}

#[test]
fn tun_hello_is_accepted_as_ip() {
    let hello = ip_transport_hello();
    assert_eq!(hello, Message::Hello { version: [0, 0, 1], transport: Transport::IP });
    let client = Client::try_from_handshake(hello, ()).ok().unwrap();
    assert_eq!(client.version(), "0.0.1");
    assert_eq!(client.transport(), Transport::IP);
}

#[test]
fn destination_plans() {
    match plan_socks5(Message::Destination(DestinationType::DOMAIN, "example.com".into(), 80)) {
        Ok(Socks5Plan::Resolve { domain, port }) => {
            assert_eq!(domain, "example.com");
            assert_eq!(port, 80);
        }
        _ => panic!("expected a lookup"),
    }
    match plan_socks5(Message::Destination(DestinationType::IP, "1.2.3.4".into(), 443)) {
        Ok(Socks5Plan::Connect { addr, port }) => {
            assert_eq!(addr, "1.2.3.4");
            assert_eq!(port, 443);
        }
        _ => panic!("expected a connection"),
    }
    assert!(matches!(
        plan_socks5(Message::Destination(DestinationType::IP, String::new(), 1)),
        Err(HandshakeError::EmptyAddress)
    ));
    match plan_socks5(Message::Error("x".into())) {
        Err(HandshakeError::ExpectedDestination(m)) => assert_eq!(m, Message::Error("x".into())),
        _ => panic!("expected a refusal"),
    }
}

#[test]
fn resolution_outcomes() {
    match after_resolution("example.com".into(), 8080, Some([93, 184, 216, 34])) {
        ResolveOutcome::Connect { addr, port } => {
            assert_eq!(addr, "93.184.216.34");
            assert_eq!(port, 8080);
        }
        _ => panic!("expected a connection"),
    }
    match after_resolution("nowhere.invalid".into(), 80, None) {
        ResolveOutcome::Refuse { reply, domain } => {
            assert_eq!(reply, Message::Error("no records found for: nowhere.invalid".into()));
            assert_eq!(domain, "nowhere.invalid");
            // The client reads the same reason back.
            match handshake_reply(reply) {
                Err(HandshakeError::Refused(r)) => {
                    assert_eq!(r, "no records found for: nowhere.invalid")
                }
                _ => panic!("expected a refusal"),
            }
        }
        _ => panic!("expected a refusal"),
    }
}

#[test]
fn handshake_replies() {
    assert!(handshake_reply(Message::Start).is_ok());
    match handshake_reply(Message::Error("busy".into())) {
        Err(HandshakeError::Refused(r)) => assert_eq!(r, "busy"),
        _ => panic!("expected a refusal"),
    }
    let hello = Message::Hello { version: [0, 0, 1], transport: Transport::IP };
    match handshake_reply(hello) {
        Err(HandshakeError::Unexpected(m)) => {
            assert_eq!(m, Message::Hello { version: [0, 0, 1], transport: Transport::IP })
        }
        _ => panic!("expected an unexpected reply"),
    }
}

#[test]
fn server_names() {
    let s = Server::new("example.com".to_string(), 443, 7u32).ok().unwrap();
    assert_eq!(s.domain(), "example.com");
    assert_eq!(s.port(), 443);
    assert_eq!(**s.client_config(), 7);
    assert_eq!(format!("{:?}", s.dns_name()), format!("{:?}", rustls_pki_types::ServerName::try_from("example.com").unwrap()));
    assert!(Server::new("127.0.0.1".to_string(), 1, ()).is_ok());
    assert_eq!(Server::new(String::new(), 443, ()).err(), Some(ServerError::InvalidDnsName));
    assert_eq!(Server::new("not a name!".to_string(), 443, ()).err(), Some(ServerError::InvalidDnsName));
}

#[test]
fn server_from_checked_name() {
    let name = rustls_pki_types::ServerName::try_from("example.org").unwrap().to_owned();
    let s = Server::from_checked_name("example.org".to_string(), 1, (), Ok(name)).ok().unwrap();
    assert_eq!(s.domain(), "example.org");
    let bad = rustls_pki_types::ServerName::try_from("bad name").map(|n| n.to_owned());
    assert!(bad.is_err());
    assert_eq!(
        Server::from_checked_name("bad name".to_string(), 1, (), bad).err(),
        Some(ServerError::InvalidDnsName)
    );
}

#[test]
fn socks5_targets_become_destinations() {
    assert_eq!(
        target_addr_into_dest(TargetAddr::Domain("a.b".into(), 5)),
        Message::Destination(DestinationType::DOMAIN, "a.b".into(), 5)
    );
    assert_eq!(
        target_addr_into_dest(TargetAddr::Ip("::1".into(), 6)),
        Message::Destination(DestinationType::IP, "::1".into(), 6)
    );
}

#[test]
fn first_ipv4_skips_ipv6() {
    let v6 = IpAddress::V6([0, 0, 0, 0, 0, 0, 0, 1]);
    assert_eq!(first_ipv4(&[v6, IpAddress::V4([1, 2, 3, 4]), IpAddress::V4([5, 6, 7, 8])]), Some([1, 2, 3, 4]));
    assert_eq!(first_ipv4(&[v6]), None);
    assert_eq!(first_ipv4(&[]), None);
}

#[test]
fn tun_settings_and_packets() {
    let c = client_tun_settings();
    assert_eq!((c.addr, c.netmask, c.mtu), ([10, 8, 0, 2], [255, 255, 255, 0], 1400));
    let s = server_tun_settings();
    assert_eq!((s.addr, s.netmask, s.mtu), ([10, 8, 0, 1], [255, 255, 255, 0], 1400));
    let buf = [1u8, 2, 3, 4];
    assert_eq!(client_packet(&buf, 2), vec![1, 2]);
    match server_packet(&buf, TunRead::Bytes(2)) {
        RelayAction::Send(p) => assert_eq!(p, vec![1, 2]),
        _ => panic!("expected a packet"),
    }
    assert!(matches!(server_packet(&buf, TunRead::Bytes(0)), RelayAction::Skip));
    assert!(matches!(server_packet(&buf, TunRead::Failed), RelayAction::Stop));
}
