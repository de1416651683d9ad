use warpnest::pool::{InstanceSelector, PoolConfig, ProxyPool, ScheduleError};
use warpnest::state_store::{InstanceLifecycleState, PoolMembershipPreference, StoredWarpInstance};
use warpnest::status::{PoolStatus, Readiness};

fn instance(id: &str, group: &str, exit_ip: Option<&str>) -> StoredWarpInstance {
    let mut instance = StoredWarpInstance::new_mock(
        group,
        exit_ip,
        PoolMembershipPreference::Standby,
        InstanceLifecycleState::Registered,
        &format!("secret-{id}"),
    ).unwrap();
    instance.instance_id = id.to_string();
    instance
}

fn membership<'a>(status: &'a PoolStatus, id: &str) -> Option<&'a str> {
    status
        .instances
        .iter()
        .find(|instance| instance.instance_id == id)
        .map(|instance| instance.pool_membership.as_str())
}

#[test]
fn classifies_distinct_exit_ips_into_serving_and_duplicates_into_standby() {
    let pool = ProxyPool::from_instances(
        PoolConfig::new(2, 4),
        vec![
            instance("a", "default", Some("198.51.100.1")),
            instance("b", "default", Some("198.51.100.2")),
            instance("c", "default", Some("198.51.100.1")),
        ],
    );

    let status = pool.status();

    assert_eq!(status.readiness, Readiness::Ready);
    assert_eq!(status.actual_serving_size, 2);
    assert_eq!(membership(&status, "a"), Some(PoolMembershipPreference::Serving.as_str()));
    assert_eq!(membership(&status, "b"), Some(PoolMembershipPreference::Serving.as_str()));
    assert_eq!(membership(&status, "c"), Some(PoolMembershipPreference::Standby.as_str()));
}

#[test]
fn reports_degraded_and_unavailable_pool_states() {
    let degraded = ProxyPool::from_instances(
        PoolConfig::new(2, 4),
        vec![instance("a", "default", Some("198.51.100.1"))],
    );
    assert_eq!(degraded.status().readiness, Readiness::Degraded);
    assert_eq!(degraded.status().actual_serving_size, 1);

    let mut unavailable =
        ProxyPool::from_instances(PoolConfig::new(2, 4), vec![instance("a", "default", None)]);
    assert_eq!(unavailable.status().readiness, Readiness::Unavailable);
    assert_eq!(unavailable.schedule_auto().unwrap_err(), ScheduleError::NoServingInstance);
}

#[test]
fn schedules_automatic_connections_by_least_active_connections() {
    let mut pool = ProxyPool::from_instances(
        PoolConfig::new(2, 4),
        vec![
            instance("a", "default", Some("198.51.100.1")),
            instance("b", "default", Some("198.51.100.2")),
        ],
    );

    let first = pool.schedule_auto().unwrap();
    assert_eq!(first.instance_id(), "a");
    let second = pool.schedule_auto().unwrap();
    assert_eq!(second.instance_id(), "b");
    pool.release(first);

    let third = pool.schedule_auto().unwrap();
    assert_eq!(third.instance_id(), "a");
}

#[test]
fn explicit_selection_can_use_standby_instances() {
    let mut pool = ProxyPool::from_instances(
        PoolConfig::new(1, 3),
        vec![
            instance("serving", "default", Some("198.51.100.1")),
            instance("standby", "default", Some("198.51.100.1")),
        ],
    );

    let selected = pool.select_instance(InstanceSelector::Id("standby".to_string())).unwrap();

    assert_eq!(selected.instance_id(), "standby");
}

#[test]
fn group_selector_uses_serving_instances_unless_standby_fallback_is_enabled() {
    let mut strict = ProxyPool::from_instances(
        PoolConfig::new(1, 3),
        vec![
            instance("a", "default", Some("198.51.100.1")),
            instance("b", "api", Some("198.51.100.1")),
        ],
    );
    assert_eq!(
        strict.select_instance(InstanceSelector::Group("api".to_string())).unwrap_err(),
        ScheduleError::NoServingInstanceInGroup
    );

    let mut fallback = ProxyPool::from_instances(
        PoolConfig::new(1, 3).with_standby_fallback(true),
        vec![
            instance("a", "default", Some("198.51.100.1")),
            instance("b", "api", Some("198.51.100.1")),
        ],
    );
    let selected = fallback.select_instance(InstanceSelector::Group("api".to_string())).unwrap();
    assert_eq!(selected.instance_id(), "b");
}

#[test]
fn exit_ip_selector_picks_the_instance_with_that_exit() {
    let mut pool = ProxyPool::from_instances(
        PoolConfig::new(2, 4),
        vec![
            instance("a", "default", Some("198.51.100.1")),
            instance("b", "default", Some("198.51.100.2")),
        ],
    );
    let selected =
        pool.select_instance(InstanceSelector::ExitIp("198.51.100.2".to_string())).unwrap();
    assert_eq!(selected.instance_id(), "b");
    assert_eq!(
        pool.select_instance(InstanceSelector::Id("missing".to_string())).unwrap_err(),
        ScheduleError::InstanceNotFound
    );
}

#[test]
fn releasing_a_lease_returns_the_connection_count() {
    let mut pool = ProxyPool::from_instances(
        PoolConfig::new(1, 3),
        vec![instance("a", "default", Some("198.51.100.1"))],
    );
    let lease = pool.schedule_auto().unwrap();
    let during = pool.status();
    assert_eq!(during.instances[0].active_connections, 1);
    pool.release(lease);
    assert_eq!(pool.status().instances[0].active_connections, 0);
}

#[test]
fn automatic_scheduling_breaks_ties_round_robin() {
    let mut pool = ProxyPool::from_instances(
        PoolConfig::new(2, 4),
        vec![
            instance("a", "default", Some("198.51.100.1")),
            instance("b", "default", Some("198.51.100.2")),
        ],
    );
    let first = pool.schedule_auto().unwrap();
    assert_eq!(first.instance_id(), "a");
    pool.release(first);
    let second = pool.schedule_auto().unwrap();
    assert_eq!(second.instance_id(), "b");
    pool.release(second);
    let third = pool.schedule_auto().unwrap();
    assert_eq!(third.instance_id(), "a");
}
