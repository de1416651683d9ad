use warpnest::observed_warp_material::{
    ImportedObservedWarpMaterial, ObservedWarpMaterial, ObservedWarpMaterialError,
    normalize_observed_material,
};
use warpnest::public_warp_adapter::PUBLIC_WARP_WIREGUARD_OBSERVED_V1;
use warpnest::state_store::{InstanceLifecycleState, PoolMembershipPreference};
use warpnest::status::PoolStatus;

const OBSERVED_FIXTURE: &str = r#"{
  "wireguard": {
    "private_key": "fixture-private-key",
    "interface_addresses": ["172.16.0.2/32", "2606:4700:110:8f24::2/128"],
    "peer_public_key": "fixture-peer-public-key",
    "peer_endpoint": "engage.cloudflareclient.com:2408",
    "allowed_ips": ["0.0.0.0/0", "::/0"],
    "dns_servers": ["1.1.1.1", "2606:4700:4700::1111"],
    "device_id": "fixture-device-id"
  }
}"#;

fn shape_reason(error: ObservedWarpMaterialError) -> String {
    match error {
        ObservedWarpMaterialError::UnsupportedShape(reason) => reason,
        other => panic!("expected an unsupported shape, got {other:?}"),
    }
}

#[test]
fn imports_observed_public_warp_material_into_adapter_config() {
    let material = ObservedWarpMaterial::from_json(OBSERVED_FIXTURE).ok().unwrap();

    assert_eq!(material.raw_material(), OBSERVED_FIXTURE);
    assert_eq!(material.adapter_config().kind, PUBLIC_WARP_WIREGUARD_OBSERVED_V1);
    assert_eq!(material.adapter_config().version, 1);
    assert!(material.adapter_config().config_json().contains("peer_endpoint"));
    assert!(material.adapter_config().config_json().contains("dns_servers"));
}

#[test]
fn imported_observed_material_persists_as_warp_registration() {
    let material = ObservedWarpMaterial::from_json(OBSERVED_FIXTURE).ok().unwrap();

    let instance = material.instance_for_import("bootstrap", Some("observed fixture".to_string())).unwrap();
    let imported = ImportedObservedWarpMaterial::of(&instance);
    let restored = vec![instance];

    assert_eq!(restored.len(), 1);
    assert_eq!(restored[0].instance_id, imported.instance_id);
    assert_eq!(restored[0].group, "bootstrap");
    assert_eq!(imported.group, "bootstrap");
    assert_eq!(restored[0].label.as_deref(), Some("observed fixture"));
    assert_eq!(restored[0].raw_registration_material(), OBSERVED_FIXTURE);
    assert_eq!(restored[0].adapter_config.kind, PUBLIC_WARP_WIREGUARD_OBSERVED_V1);
    assert_eq!(restored[0].pool_membership_preference, PoolMembershipPreference::Standby);
    assert_eq!(restored[0].lifecycle_state, InstanceLifecycleState::Registered);
}

#[test]
fn observed_material_redacts_raw_and_normalized_secrets_from_debug_and_status() {
    let material = ObservedWarpMaterial::from_json(OBSERVED_FIXTURE).ok().unwrap();
    let instance = material.instance_for_import("default", None).unwrap();

    let rendered_status = format!("{:?}", PoolStatus::from_restored_instances(1, 1, vec![instance]));

    assert!(!rendered_status.contains("fixture-private-key"));
    assert!(!rendered_status.contains("fixture-peer-public-key"));
    assert!(!rendered_status.contains("adapter_config"));
}

#[test]
fn unsupported_observed_material_shape_is_not_a_transient_read_failure() {
    let error =
        ObservedWarpMaterial::from_json(r#"{"wireguard":{"private_key":""}}"#).err().unwrap();

    assert!(matches!(error, ObservedWarpMaterialError::UnsupportedShape(_)));
    assert!(error.message().contains("unsupported material shape"));
}

#[test]
fn the_normalized_config_keeps_keys_in_order_and_a_null_device_id() {
    let raw = r#"{"wireguard":{"private_key":"k","interface_addresses":["10.0.0.2/32"],"peer_public_key":"p","peer_endpoint":"h:1","allowed_ips":["0.0.0.0/0"],"dns_servers":["1.1.1.1"],"extra":5}}"#;
    let config = normalize_observed_material(raw).ok().unwrap();
    assert_eq!(
        config,
        r#"{"allowed_ips":["0.0.0.0/0"],"device_id":null,"dns_servers":["1.1.1.1"],"interface_addresses":["10.0.0.2/32"],"peer_endpoint":"h:1","peer_public_key":"p","private_key":"k"}"#
    );
}

#[test]
fn each_shape_problem_is_reported_with_its_reason() {
    assert!(shape_reason(ObservedWarpMaterial::from_json("{not json").err().unwrap())
        .starts_with("observed Public WARP material is not valid JSON: "));
    assert_eq!(
        shape_reason(ObservedWarpMaterial::from_json(r#"{"other":{}}"#).err().unwrap()),
        "observed Public WARP material must contain a wireguard object"
    );
    assert_eq!(
        shape_reason(ObservedWarpMaterial::from_json(r#"{"wireguard":{"private_key":""}}"#).err().unwrap()),
        "observed Public WARP wireguard material has an unsupported shape: missing field `interface_addresses`"
    );
    let blank_key = r#"{"wireguard":{"private_key":" ","interface_addresses":["a"],"peer_public_key":"p","peer_endpoint":"e","allowed_ips":["b"],"dns_servers":["c"]}}"#;
    assert_eq!(
        shape_reason(ObservedWarpMaterial::from_json(blank_key).err().unwrap()),
        "wireguard.private_key must not be empty"
    );
    let blank_dns = r#"{"wireguard":{"private_key":"k","interface_addresses":["a"],"peer_public_key":"p","peer_endpoint":"e","allowed_ips":["b"],"dns_servers":["c",""]}}"#;
    assert_eq!(
        shape_reason(ObservedWarpMaterial::from_json(blank_dns).err().unwrap()),
        "wireguard.dns_servers must contain at least one non-empty value"
    );
    let no_addresses = r#"{"wireguard":{"private_key":"k","interface_addresses":[],"peer_public_key":"p","peer_endpoint":"e","allowed_ips":["b"],"dns_servers":["c"]}}"#;
    assert_eq!(
        shape_reason(ObservedWarpMaterial::from_json(no_addresses).err().unwrap()),
        "wireguard.interface_addresses must contain at least one non-empty value"
    );
}

#[test]
fn read_and_store_failures_carry_their_messages() {
    let read = ObservedWarpMaterialError::read_failed("/missing.json", "No such file");
    assert_eq!(read.message(), "failed to read observed Public WARP material /missing.json: No such file");
    let store = ObservedWarpMaterialError::store_failed("disk full");
    assert_eq!(store.message(), "failed to persist observed Public WARP material: disk full");
}
