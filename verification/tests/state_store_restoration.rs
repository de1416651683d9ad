use warpnest::state_store::{
    InstanceLifecycleState, PoolMembershipPreference, RegistrationMaterial, StoredWarpInstance,
};
use warpnest::status::PoolStatus;

/// The columns a State Store row keeps for an instance, as text.
struct Row {
    instance_id: String,
    group: String,
    label: Option<String>,
    enabled: bool,
    last_observed_exit_ip: Option<String>,
    pool_membership_preference: String,
    lifecycle_state: String,
    registration_material: String,
    adapter_kind: String,
    adapter_version: u16,
    adapter_config_json: String,
    recent_error: Option<String>,
}

fn write_row(instance: &StoredWarpInstance) -> Row {
    Row {
        instance_id: instance.instance_id.clone(),
        group: instance.group.clone(),
        label: instance.label.clone(),
        enabled: instance.enabled,
        last_observed_exit_ip: instance.last_observed_exit_ip.clone(),
        pool_membership_preference: instance.pool_membership_preference.as_str().to_string(),
        lifecycle_state: instance.lifecycle_state.as_str().to_string(),
        registration_material: instance.raw_registration_material().to_string(),
        adapter_kind: instance.adapter_config.kind.clone(),
        adapter_version: instance.adapter_config.version,
        adapter_config_json: instance.adapter_config.config_json().to_string(),
        recent_error: instance.recent_error.clone(),
    }
}

fn read_row(row: Row) -> StoredWarpInstance {
    StoredWarpInstance::from_stored_fields(
        row.instance_id,
        row.group,
        row.label,
        row.enabled,
        row.last_observed_exit_ip,
        PoolMembershipPreference::from_str(&row.pool_membership_preference),
        InstanceLifecycleState::from_str(&row.lifecycle_state),
        RegistrationMaterial::new(&row.registration_material),
        warpnest::public_warp_adapter::PublicWarpAdapterConfig::from_storage(
            row.adapter_kind,
            row.adapter_version,
            row.adapter_config_json,
        )
        .unwrap(),
        row.recent_error,
    )
}

#[test]
fn state_store_persists_and_restores_warp_instances() {
    let instance = StoredWarpInstance::new_mock(
        "default",
        Some("198.51.100.10"),
        PoolMembershipPreference::Serving,
        InstanceLifecycleState::Registered,
        "registration-secret-material",
    ).unwrap();
    let instance_id = instance.instance_id.clone();

    let restored = vec![read_row(write_row(&instance))];

    assert_eq!(restored.len(), 1);
    assert_eq!(restored[0].instance_id, instance_id);
    assert_eq!(restored[0].group, "default");
    assert_eq!(restored[0].last_observed_exit_ip.as_deref(), Some("198.51.100.10"));
    assert_eq!(restored[0].pool_membership_preference, PoolMembershipPreference::Serving);
    assert_eq!(restored[0].lifecycle_state, InstanceLifecycleState::Registered);
    assert_eq!(restored[0].raw_registration_material(), "registration-secret-material");
    assert!(restored[0] == instance);
}

#[test]
fn pool_status_from_restored_instances_does_not_expose_registration_secrets() {
    let stored = StoredWarpInstance::new_mock(
        "default",
        Some("203.0.113.8"),
        PoolMembershipPreference::Standby,
        InstanceLifecycleState::Registered,
        "super-secret-registration-token",
    ).unwrap();

    let instances = vec![read_row(write_row(&stored))];
    let status = PoolStatus::from_restored_instances(2, 4, instances);
    let rendered = format!("{status:?}");

    assert!(rendered.contains("203.0.113.8"));
    assert!(!rendered.contains("super-secret-registration-token"));
    assert!(!rendered.contains("registration_material"));
}

#[test]
fn stored_texts_read_back_as_the_same_states() {
    for m in [
        PoolMembershipPreference::Serving,
        PoolMembershipPreference::Standby,
        PoolMembershipPreference::Failed,
        PoolMembershipPreference::Disabled,
    ] {
        assert_eq!(PoolMembershipPreference::from_str(m.as_str()), m);
    }
    for s in [
        InstanceLifecycleState::Registered,
        InstanceLifecycleState::Mock,
        InstanceLifecycleState::Disabled,
    ] {
        assert_eq!(InstanceLifecycleState::from_str(s.as_str()), s);
    }
    assert_eq!(PoolMembershipPreference::from_str("bogus"), PoolMembershipPreference::Failed);
    assert_eq!(InstanceLifecycleState::from_str("bogus"), InstanceLifecycleState::Disabled);
}

#[test]
fn a_stored_adapter_config_must_be_json() {
    assert!(warpnest::public_warp_adapter::PublicWarpAdapterConfig::from_storage(
        "mock".to_string(),
        1,
        "{not json".to_string(),
    )
    .is_err());
}
