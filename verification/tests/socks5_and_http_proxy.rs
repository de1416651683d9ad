use base64::Engine;
use base64::engine::general_purpose::STANDARD as BASE64;
use warpnest::pool::{PoolConfig, ProxyPool};
use warpnest::proxy::{
    HttpDecision, Socks5Next, Socks5Session, UdpSetup, decide_http_request, has_header_terminator,
    http_ok_response, parse_host_port, parse_http_target, parse_socks5_udp_packet,
};
use warpnest::proxy_auth::AuthConfig;
use warpnest::state_store::{InstanceLifecycleState, PoolMembershipPreference, StoredWarpInstance};

fn instance(id: &str, group: &str, exit_ip: &str) -> StoredWarpInstance {
    let mut instance = StoredWarpInstance::new_mock(
        group,
        Some(exit_ip),
        PoolMembershipPreference::Standby,
        InstanceLifecycleState::Registered,
        &format!("secret-{id}"),
    ).unwrap();
    instance.instance_id = id.to_string();
    instance
}

fn pool() -> ProxyPool {
    ProxyPool::from_instances(
        PoolConfig::new(2, 4),
        vec![
            instance("serving-a", "default", "198.51.100.1"),
            instance("serving-b", "api", "198.51.100.2"),
            instance("standby-a", "api", "198.51.100.1"),
        ],
    )
}

/// What a client saw of one SOCKS5 conversation.
struct Conversation {
    replies: Vec<u8>,
    connected_to: Option<(String, String, u16)>,
    udp_instance: Option<String>,
    last: Socks5Next,
}

/// Runs a SOCKS5 conversation over the client's bytes the way the proxy runtime
/// drives a session: reads what the session asks for, resolves, and connects.
fn converse(client: &[u8], auth: &AuthConfig, pool: &mut ProxyPool, udp: UdpSetup) -> Conversation {
    let (mut session, first) = Socks5Session::new();
    let mut replies = first.reply;
    let mut next = first.next;
    let mut offset = 0;
    let mut connected_to = None;
    let mut udp_instance = None;
    loop {
        let action = match next {
            Socks5Next::Read(n) => {
                if offset + n > client.len() {
                    break;
                }
                let bytes = &client[offset..offset + n];
                offset += n;
                session.receive(bytes, auth)
            }
            Socks5Next::Resolve => session.resolve(pool, auth),
            Socks5Next::ConnectTcp(ref target) => {
                connected_to =
                    Some((target.instance_id.clone(), target.host.clone(), target.port));
                session.tcp_connected(true, pool)
            }
            Socks5Next::OpenUdp(ref instance_id) => {
                udp_instance = Some(instance_id.clone());
                session.udp_opened(udp, pool)
            }
            _ => break,
        };
        replies.extend_from_slice(&action.reply);
        next = action.next;
    }
    Conversation { replies, connected_to, udp_instance, last: next }
}

fn auth_bytes(username: &str, password: &str) -> Vec<u8> {
    let mut bytes = vec![0x01, username.len() as u8];
    bytes.extend_from_slice(username.as_bytes());
    bytes.push(password.len() as u8);
    bytes.extend_from_slice(password.as_bytes());
    bytes
}

fn request_bytes(command: u8, host: &str, port: u16) -> Vec<u8> {
    let mut bytes = vec![0x05, command, 0x00, 0x03, host.len() as u8];
    bytes.extend_from_slice(host.as_bytes());
    bytes.extend_from_slice(&port.to_be_bytes());
    bytes
}

#[test]
fn socks5_connect_routes_through_the_selected_instance() {
    let mut pool = pool();
    let mut client = vec![0x05, 0x01, 0x02];
    client.extend(auth_bytes("id:standby-a", "secret"));
    client.extend(request_bytes(0x01, "example.test", 443));

    let seen = converse(&client, &AuthConfig::shared_secret("secret"), &mut pool, UdpSetup::SessionFailed);

    assert_eq!(&seen.replies[0..2], &[0x05, 0x02]);
    assert_eq!(&seen.replies[2..4], &[0x01, 0x00]);
    assert_eq!(seen.replies[5], 0x00);
    assert_eq!(seen.replies.len(), 14);
    assert_eq!(
        seen.connected_to,
        Some(("standby-a".to_string(), "example.test".to_string(), 443))
    );
    assert!(matches!(seen.last, Socks5Next::RelayTcp));
}

#[test]
fn socks5_authentication_failure_returns_proxy_failure() {
    let mut pool = pool();
    let mut client = vec![0x05, 0x01, 0x02];
    client.extend(auth_bytes("id:serving-a", "wrong"));
    client.extend(request_bytes(0x01, "example.test", 443));

    let seen = converse(&client, &AuthConfig::shared_secret("secret"), &mut pool, UdpSetup::SessionFailed);

    assert_eq!(&seen.replies[2..4], &[0x01, 0x00]);
    assert_ne!(seen.replies[5], 0x00);
    assert_eq!(seen.replies[5], 0x02);
    assert!(seen.connected_to.is_none());
}

#[test]
fn socks5_without_the_offered_method_is_refused() {
    let mut pool = pool();
    let client = vec![0x05, 0x01, 0x00];
    let seen = converse(&client, &AuthConfig::shared_secret("secret"), &mut pool, UdpSetup::SessionFailed);
    assert_eq!(seen.replies, vec![0x05, 0xff]);
}

#[test]
fn socks5_udp_association_opens_a_session_on_the_selected_instance() {
    let mut pool = pool();
    let mut client = vec![0x05, 0x01, 0x00];
    client.extend(request_bytes(0x03, "0.0.0.0", 0));

    let seen = converse(&client, &AuthConfig::disabled(), &mut pool, UdpSetup::Ready(0x1234));

    assert_eq!(&seen.replies[0..2], &[0x05, 0x00]);
    assert_eq!(&seen.replies[2..], &[5, 0, 0, 1, 127, 0, 0, 1, 0x12, 0x34]);
    assert_eq!(seen.udp_instance.as_deref(), Some("serving-a"));
    assert!(matches!(seen.last, Socks5Next::RelayUdp));
}

#[test]
fn socks5_udp_datagrams_carry_their_target_and_payload() {
    let mut datagram = vec![0, 0, 0, 0x01, 1, 1, 1, 1, 0, 53];
    datagram.extend_from_slice(b"dns-query");
    let packet = parse_socks5_udp_packet(&datagram).unwrap();
    assert_eq!(packet.host, "1.1.1.1");
    assert_eq!(packet.port, 53);
    assert_eq!(packet.payload, b"dns-query".to_vec());

    let mut named = vec![0, 0, 0, 0x03, 3];
    named.extend_from_slice(b"dns");
    named.extend_from_slice(&[0, 53, 7]);
    let packet = parse_socks5_udp_packet(&named).unwrap();
    assert_eq!(packet.host, "dns");
    assert_eq!(packet.payload, vec![7]);

    assert!(parse_socks5_udp_packet(&[0, 0, 1, 1, 1, 1, 1, 1, 0, 53]).is_none());
}

#[test]
fn http_connect_uses_same_selector_and_auth_contract() {
    let mut pool = pool();
    let auth = BASE64.encode("group:api:secret");
    let request = format!(
        "CONNECT api.example.test:443 HTTP/1.1\r\nHost: api.example.test:443\r\nProxy-Authorization: Basic {auth}\r\n\r\n"
    );

    match decide_http_request(&mut pool, &AuthConfig::shared_secret("secret"), &request) {
        HttpDecision::Forward { lease, target, tunnel } => {
            assert!(tunnel);
            assert_eq!(lease.instance_id(), "serving-b");
            assert_eq!(target.instance_id, "serving-b");
            assert_eq!(target.host, "api.example.test");
            assert_eq!(target.port, 443);
        }
        _ => panic!("expected the request to be forwarded"),
    }
}

#[test]
fn ordinary_http_proxy_preserves_hostname() {
    let mut pool = pool();
    let request = "GET http://plain.example.test/path HTTP/1.1\r\nHost: plain.example.test\r\n\r\n";

    match decide_http_request(&mut pool, &AuthConfig::disabled(), request) {
        HttpDecision::Forward { lease, target, tunnel } => {
            assert!(!tunnel);
            assert_eq!(lease.instance_id(), "serving-a");
            assert_eq!(target.host, "plain.example.test");
            assert_eq!(target.port, 80);
        }
        _ => panic!("expected the request to be forwarded"),
    }
    let response = http_ok_response("warpnest mock tcp instance=serving-a\n");
    assert!(response.starts_with("HTTP/1.1 200 OK\r\n"));
    assert!(response.ends_with("warpnest mock tcp instance=serving-a\n"));
}

#[test]
fn http_requests_without_credentials_or_target_are_refused() {
    let mut pool = pool();
    let request = "CONNECT api.example.test:443 HTTP/1.1\r\nHost: api.example.test:443\r\n\r\n";
    match decide_http_request(&mut pool, &AuthConfig::shared_secret("secret"), request) {
        HttpDecision::Reply(reply) => assert!(reply.starts_with("HTTP/1.1 407")),
        _ => panic!("expected a proxy authentication challenge"),
    }
    let bad_selector = format!(
        "CONNECT api.example.test:443 HTTP/1.1\r\nProxy-Authorization: Basic {}\r\n\r\n",
        BASE64.encode("id:missing:secret")
    );
    match decide_http_request(&mut pool, &AuthConfig::shared_secret("secret"), &bad_selector) {
        HttpDecision::Reply(reply) => assert!(reply.starts_with("HTTP/1.1 502")),
        _ => panic!("expected a bad gateway answer"),
    }
    assert!(matches!(
        decide_http_request(&mut pool, &AuthConfig::disabled(), "\r\n\r\n"),
        HttpDecision::MissingTarget
    ));
}

#[test]
fn http_targets_and_header_ends_are_found() {
    let target = parse_http_target("GET /x HTTP/1.1\r\nHost: example.test:8080\r\n\r\n").unwrap();
    assert_eq!((target.host.as_str(), target.port), ("example.test", 8080));
    let target = parse_host_port("[::1]:8443", 80).unwrap();
    assert_eq!((target.host.as_str(), target.port), ("[::1]", 8443));
    assert!(parse_host_port("example.test:http", 80).is_none());
    assert_eq!(parse_host_port("example.test", 80).unwrap().port, 80);
    assert!(has_header_terminator(b"GET / HTTP/1.1\r\n\r\n"));
    assert!(!has_header_terminator(b"GET / HTTP/1.1\r\n"));
}
