use warpnest::config::Config;
use warpnest::pool::{PoolConfig, ProxyPool};
use warpnest::state_store::{InstanceLifecycleState, PoolMembershipPreference, StoredWarpInstance};
use warpnest::status::{PoolStatus, Readiness};

fn stored_instance(id: &str, exit_ip: &str) -> StoredWarpInstance {
    let mut instance = StoredWarpInstance::new_mock(
        "default",
        Some(exit_ip),
        PoolMembershipPreference::Standby,
        InstanceLifecycleState::Registered,
        &format!("secret-{id}"),
    ).unwrap();
    instance.instance_id = id.to_string();
    instance
}

#[test]
fn mock_status_reports_pool_shape_without_secrets() {
    let status = PoolStatus::mock(&Config::default());
    let rendered = format!("{status:?}");

    assert_eq!(status.readiness, Readiness::Degraded);
    assert_eq!(status.target_serving_size, 1);
    assert_eq!(status.registration_budget, 3);
    assert_eq!(status.instances.len(), 1);
    assert_eq!(status.instances[0].pool_membership, "standby");
    assert!(!rendered.contains("secret"));
}

#[test]
fn status_reclassifies_duplicate_exit_ips_from_state_store() {
    let restored = vec![stored_instance("one", "198.51.100.1"), stored_instance("two", "198.51.100.1")];
    let status = ProxyPool::from_instances(PoolConfig::new(2, 4), restored).status();

    assert_eq!(status.readiness, Readiness::Degraded);
    assert_eq!(status.actual_serving_size, 1);
    assert_eq!(status.instances[0].pool_membership, "serving");
    assert_eq!(status.instances[1].pool_membership, "standby");
}

#[test]
fn status_restores_instances_from_state_store() {
    let mut instance = stored_instance("a", "198.51.100.12");
    instance.pool_membership_preference = PoolMembershipPreference::Serving;
    let status = ProxyPool::from_instances(PoolConfig::new(1, 3), vec![instance]).status();
    let rendered = format!("{status:?}");

    assert_eq!(status.readiness, Readiness::Ready);
    assert!(rendered.contains("198.51.100.12"));
    assert!(!rendered.contains("secret-a"));
}

#[test]
fn restored_status_classifies_records_again() {
    let mut serving = stored_instance("a", "198.51.100.1");
    serving.pool_membership_preference = PoolMembershipPreference::Serving;
    let mut disabled = stored_instance("b", "198.51.100.2");
    disabled.enabled = false;
    disabled.pool_membership_preference = PoolMembershipPreference::Serving;

    let status = PoolStatus::from_restored_instances(2, 3, vec![serving, disabled]);

    assert_eq!(status.actual_serving_size, 1);
    assert_eq!(status.readiness, Readiness::Degraded);
    assert_eq!(status.instances[0].pool_membership, "serving");
    assert_eq!(status.instances[1].pool_membership, "failed");
    assert_eq!(status.instances[1].active_connections, 0);
}

#[test]
fn restored_status_reclassifies_duplicate_exit_ips() {
    let one = stored_instance("one", "198.51.100.1");
    let two = stored_instance("two", "198.51.100.1");

    let status = PoolStatus::from_restored_instances(2, 4, vec![one, two]);

    assert_eq!(status.readiness, Readiness::Degraded);
    assert_eq!(status.actual_serving_size, 1);
    assert_eq!(status.instances[0].pool_membership, "serving");
    assert_eq!(status.instances[1].pool_membership, "standby");
}

#[test]
fn a_blocked_status_with_a_plain_reason_shows_it() {
    let status = PoolStatus::blocked(1, 2, "policy rejected the request");
    assert_eq!(status.recent_error.as_deref(), Some("policy rejected the request"));
    assert!(status.instances.is_empty());
    assert_eq!(status.actual_serving_size, 0);
}
