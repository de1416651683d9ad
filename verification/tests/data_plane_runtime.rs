use warpnest::data_plane::{
    BoringTunDataPlane, BoringTunRuntimeConfig, DataPlaneInstanceConfig, DataPlaneTarget, IpNetwork,
    RuntimeLifecycleState, RuntimePacketPump, RuntimePacketPumpError, RuntimePumpReport,
    RuntimeTransportEvent, UdpDatagram, mock_tcp_reply, mock_udp_reply,
};
use warpnest::direct_public_warp_registration::WarpKeyPair;
use warpnest::public_warp_adapter::PublicWarpAdapterConfig;
use warpnest::runtime_pump::{redact_sensitive_text, runtime_stack_accepts};

fn observed_config(interface_addresses: &str) -> PublicWarpAdapterConfig {
    let private = WarpKeyPair::from_private_key_bytes([7; 32]);
    let peer = WarpKeyPair::from_private_key_bytes([9; 32]);
    let json = format!(
        r#"{{"allowed_ips":["0.0.0.0/0","::/0"],"device_id":"device-1","dns_servers":["1.1.1.1"],"interface_addresses":{interface_addresses},"peer_endpoint":"engage.cloudflareclient.com:2408","peer_public_key":"{}","private_key":"{}"}}"#,
        peer.public_key_base64(),
        private.private_key_base64()
    );
    PublicWarpAdapterConfig::public_warp_wireguard_observed_v1(json).unwrap()
}

fn runtime_config() -> BoringTunRuntimeConfig {
    BoringTunRuntimeConfig::from_adapter_config(&observed_config(
        r#"["172.16.0.2/32","2606:4700:110:8f24::2/128"]"#,
    ))
    .unwrap()
}

#[test]
fn the_runtime_config_reads_the_observed_adapter_fields() {
    let config = runtime_config();
    assert_eq!(config.interface_addresses().len(), 2);
    assert_eq!(config.interface_addresses()[0].prefix_len(), 32);
    assert_eq!(config.peer_endpoint().host(), "engage.cloudflareclient.com");
    assert_eq!(config.peer_endpoint().port(), 2408);
    assert_eq!(config.device_id(), Some("device-1"));
    assert_eq!(config.dns_servers().len(), 1);
    assert!(runtime_stack_accepts(&config));
}

#[test]
fn a_multicast_interface_address_cannot_carry_the_runtime_stack() {
    let config = BoringTunRuntimeConfig::from_adapter_config(&observed_config(r#"["224.0.0.1/32"]"#))
        .unwrap();
    assert!(!runtime_stack_accepts(&config));
    let third = BoringTunRuntimeConfig::from_adapter_config(&observed_config(
        r#"["10.0.0.2/32","10.0.0.3/32","224.0.0.1/32"]"#,
    ))
    .unwrap();
    assert!(runtime_stack_accepts(&third));
}

#[test]
fn the_fake_pump_moves_packets_both_ways_unchanged() {
    let mut pump = RuntimePacketPump::test(runtime_config());
    assert_eq!(pump.lifecycle_state(), "stopped");
    pump.start().unwrap();
    assert_eq!(pump.lifecycle(), RuntimeLifecycleState::Running);
    pump.queue_outbound_ip_packet(vec![1, 2, 3]);
    pump.queue_outbound_ip_packet(vec![4]);
    pump.queue_inbound_wireguard_packet(vec![9, 9]);

    let report = pump.pump_once().unwrap();

    assert_eq!(report, RuntimePumpReport { outbound_packets: 2, inbound_packets: 1 });
    assert_eq!(
        pump.transport_events(),
        &[
            RuntimeTransportEvent::SentToPeer(vec![1, 2, 3]),
            RuntimeTransportEvent::SentToPeer(vec![4]),
            RuntimeTransportEvent::DeliveredToStack(vec![9, 9]),
        ]
    );
    assert_eq!(pump.delivered_stack_packets(), &[vec![9, 9]]);
    assert_eq!(pump.last_error(), None);
    assert_eq!(pump.pump_once().unwrap(), RuntimePumpReport { outbound_packets: 0, inbound_packets: 0 });
}

#[test]
fn pumping_a_stopped_runtime_fails_it() {
    let mut pump = RuntimePacketPump::test(runtime_config());
    let error = pump.pump_once().unwrap_err();
    assert_eq!(error, RuntimePacketPumpError::NotRunning);
    assert_eq!(pump.lifecycle(), RuntimeLifecycleState::Failed);
    assert_eq!(pump.last_error(), Some("WARP Connection runtime is not running"));
    pump.start().unwrap();
    assert_eq!(pump.last_error(), None);
    assert_eq!(pump.start().unwrap_err(), RuntimePacketPumpError::AlreadyRunning);
    assert_eq!(pump.lifecycle_state(), "failed");
    pump.stop().unwrap();
    assert_eq!(pump.lifecycle(), RuntimeLifecycleState::Stopped);
}

#[test]
fn a_failed_send_hides_key_material_and_fails_the_runtime() {
    let mut pump = RuntimePacketPump::test(runtime_config());
    pump.start().unwrap();
    pump.fail_next_transport_send("private_key=abc peer unreachable");
    pump.queue_outbound_ip_packet(vec![1]);

    let error = pump.pump_once().unwrap_err();

    assert_eq!(error, RuntimePacketPumpError::TransportFailed("[redacted] peer unreachable".to_string()));
    assert_eq!(pump.lifecycle(), RuntimeLifecycleState::Failed);
    assert_eq!(
        pump.last_error(),
        Some("WARP Connection runtime transport failed: [redacted] peer unreachable")
    );
    assert!(pump.transport_events().is_empty());
}

#[test]
fn a_pending_send_failure_waits_for_an_outbound_packet() {
    let mut pump = RuntimePacketPump::test(runtime_config());
    pump.start().unwrap();
    pump.fail_next_transport_send("down");
    pump.queue_inbound_wireguard_packet(vec![5]);
    assert_eq!(pump.pump_once().unwrap(), RuntimePumpReport { outbound_packets: 0, inbound_packets: 1 });
}

#[test]
fn transport_reasons_are_redacted_token_by_token() {
    assert_eq!(redact_sensitive_text("   "), "operation failed");
    assert_eq!(
        redact_sensitive_text("handshake  failed\tpeer_public_key=xyz  private_key=abc end"),
        "handshake failed [redacted] [redacted] end"
    );
    assert_eq!(redact_sensitive_text("plain reason"), "plain reason");
}

#[test]
fn the_boringtun_pump_starts_a_handshake_for_the_first_outbound_packet() {
    let mut pump = RuntimePacketPump::boringtun(runtime_config());
    pump.start().unwrap();
    pump.queue_outbound_ip_packet(vec![0x45, 0, 0, 20, 0, 0, 0, 0, 64, 17, 0, 0, 172, 16, 0, 2, 1, 1, 1, 1]);
    let report = pump.pump_once().unwrap();
    assert_eq!(report.outbound_packets, 1);
    assert_eq!(pump.transport_events().len(), 1);
    match &pump.transport_events()[0] {
        RuntimeTransportEvent::SentToPeer(datagram) => assert_eq!(datagram.len(), 148),
        other => panic!("expected a handshake to the peer, got {other:?}"),
    }
}

#[test]
fn the_data_plane_builds_pumps_only_for_prepared_instances() {
    let plane = BoringTunDataPlane::try_with_instances(vec![DataPlaneInstanceConfig {
        instance_id: "a".to_string(),
        adapter_config: observed_config(r#"["172.16.0.2/32"]"#),
    }])
    .unwrap();
    assert_eq!(plane.instance_count(), 1);
    assert!(plane.has_instance("a"));
    assert!(plane.runtime_stacks_accepted());
    let pump = plane.runtime_packet_pump("a").ok().unwrap();
    assert_eq!(pump.lifecycle(), RuntimeLifecycleState::Stopped);
    assert_eq!(plane.runtime_packet_pump("b").err().unwrap(), "unknown WARP Instance b");
    assert_eq!(plane.unavailable_reason("b"), "unknown WARP Instance b");
}

#[test]
fn the_lazy_data_plane_keeps_the_later_configuration_and_refuses_unsupported_adapters() {
    let plane = BoringTunDataPlane::with_instances(vec![
        DataPlaneInstanceConfig {
            instance_id: "a".to_string(),
            adapter_config: PublicWarpAdapterConfig::new("custom", 3, "{}").unwrap(),
        },
        DataPlaneInstanceConfig {
            instance_id: "b".to_string(),
            adapter_config: PublicWarpAdapterConfig::new("custom", 3, "{}").unwrap(),
        },
        DataPlaneInstanceConfig {
            instance_id: "a".to_string(),
            adapter_config: PublicWarpAdapterConfig::mock(),
        },
    ]);
    assert_eq!(plane.instance_count(), 2);
    assert!(plane.ensure_instance_is_serviceable("a").is_ok());
    assert_eq!(
        plane.ensure_instance_is_serviceable("b").err().unwrap(),
        "unsupported Public WARP Adapter custom v3"
    );
    assert_eq!(
        plane.unavailable_reason("a"),
        "real WireGuard-compatible User-Space Data Plane is not implemented for instance a"
    );
    assert_eq!(plane.unavailable_reason("b"), "unsupported Public WARP Adapter custom v3");
    assert_eq!(
        plane.runtime_config("a").err().unwrap(),
        "BoringTun runtime config is not prepared for Public WARP Adapter mock v1"
    );
    assert!(plane.runtime_packet_pump("b").is_err());
}

#[test]
fn the_first_unpreparable_configuration_fails_the_prepared_data_plane() {
    let result = BoringTunDataPlane::try_with_instances(vec![
        DataPlaneInstanceConfig {
            instance_id: "a".to_string(),
            adapter_config: observed_config(r#"["172.16.0.2/32"]"#),
        },
        DataPlaneInstanceConfig {
            instance_id: "b".to_string(),
            adapter_config: PublicWarpAdapterConfig::mock(),
        },
        DataPlaneInstanceConfig {
            instance_id: "c".to_string(),
            adapter_config: PublicWarpAdapterConfig::new("custom", 3, "{}").unwrap(),
        },
    ]);
    assert_eq!(
        result.err().unwrap().message(),
        "unsupported Public WARP Adapter mock v1"
    );
}

#[test]
fn networks_parse_with_their_family_limits() {
    let network = IpNetwork::parse("10.1.2.3/24").unwrap();
    assert_eq!(network.prefix_len(), 24);
    assert!(IpNetwork::parse("10.1.2.3/33").is_err());
    assert!(IpNetwork::parse("10.1.2.3").is_err());
    assert_eq!(IpNetwork::parse("::1/128").unwrap().prefix_len(), 128);
}

#[test]
fn the_mock_data_plane_describes_what_it_received() {
    let target = DataPlaneTarget {
        instance_id: "instance-a".to_string(),
        host: "example.test".to_string(),
        port: 443,
    };
    let body = mock_tcp_reply(&target, 0);
    assert!(body.contains("instance=instance-a"));
    assert!(body.contains("target=example.test:443"));
    assert_eq!(body, "warpnest mock tcp instance=instance-a target=example.test:443 bytes=0\n");
    let datagram = UdpDatagram {
        target_host: "dns.example.test".to_string(),
        target_port: 53,
        payload: b"dns".to_vec(),
    };
    assert_eq!(
        mock_udp_reply("instance-a", &datagram),
        "warpnest mock udp instance=instance-a target=dns.example.test:53 bytes=3\n"
    );
}

#[test]
fn an_empty_inbound_datagram_after_a_held_back_packet_does_not_break_the_boringtun_pump() {
    let mut pump = RuntimePacketPump::boringtun(runtime_config());
    pump.start().unwrap();
    let mut large = vec![0x45u8, 0, 0x0f, 0xa0];
    large.resize(4000, 0);
    pump.queue_outbound_ip_packet(large);
    pump.pump_once().unwrap();
    pump.queue_inbound_wireguard_packet(Vec::new());
    assert!(pump.pump_once().is_ok());
}
