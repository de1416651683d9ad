//! Pool Status: the observable state of the Proxy Pool, free of registration
//! secrets and with sensitive-looking errors redacted.
use vstd::prelude::*;

use crate::config::Config;
use crate::security::{redact_sensitive, redacted_text};
use crate::state_store::{membership_text, PoolMembershipPreference, StoredWarpInstance};
use crate::text::{opt_view};
use crate::pool::{PoolConfig, PoolMember, ProxyPool, classify, count_serving, member_status, memberships_of};

verus! {

/// The overall readiness of the pool.
#[derive(Debug, Clone, Copy, PartialEq, Eq, Structural)]
pub enum Readiness {
    Ready,
    Degraded,
    Unavailable,
    Blocked,
}

/// What status output reports about the pool.
#[derive(Debug, Clone, PartialEq, Eq)]
pub struct PoolStatus {
    pub readiness: Readiness,
    pub target_serving_size: u16,
    pub actual_serving_size: u16,
    pub registration_budget: u16,
    pub recent_error: Option<String>,
    pub instances: Vec<InstanceStatus>,
}

/// What status output reports about one WARP Instance.
#[derive(Debug, Clone, PartialEq, Eq)]
pub struct InstanceStatus {
    pub instance_id: String,
    pub group: String,
    pub lifecycle_state: String,
    pub pool_membership: String,
    pub current_exit_ip: Option<String>,
    pub last_observed_exit_ip: Option<String>,
    pub active_connections: u32,
    pub recent_error: Option<String>,
}

/// Readiness for a number of distinct-exit serving instances: none is
/// Unavailable, fewer than the target is Degraded, otherwise Ready.
pub open spec fn readiness_for(actual: u16, target: u16) -> Readiness {
    if actual == 0 {
        Readiness::Unavailable
    } else if actual < target {
        Readiness::Degraded
    } else {
        Readiness::Ready
    }
}

/// Readiness for a number of serving instances.
pub fn readiness_of(actual: u16, target: u16) -> (r: Readiness)
    ensures
        r == readiness_for(actual, target),
{
    if actual == 0 {
        Readiness::Unavailable
    } else if actual < target {
        Readiness::Degraded
    } else {
        Readiness::Ready
    }
}

/// A restored record as a member of the pool built from the restored records:
/// its membership from classifying them by distinct Exit IPs, no connections.
pub open spec fn restored_member(insts: Seq<StoredWarpInstance>, target: u16, i: int) -> PoolMember {
    PoolMember {
        instance: insts[i],
        pool_membership: classify(insts, target).memberships[i],
        active_connections: 0,
    }
}

/// The text of the error the mock status reports.
pub open spec fn mock_error_text() -> Seq<char> {
    seq![
        'm', 'o', 'c', 'k', ' ', 'W', 'A', 'R', 'P', ' ', 'I', 'n', 's', 't', 'a', 'n', 'c', 'e',
        ' ', 'i', 's', ' ', 'n', 'o', 't', ' ', 'c', 'o', 'n', 'n', 'e', 'c', 't', 'e', 'd',
    ]
}

fn mock_error() -> (r: String)
    ensures
        r@ == mock_error_text(),
{
    let r = String::from_str("mock WARP Instance is not connected");
    proof {
        reveal_strlit("mock WARP Instance is not connected");
    }
    r
}


impl PoolStatus {
    /// The status shown by the mock mode: one standby mock instance, nothing
    /// serving.
    pub fn mock(config: &Config) -> (r: Self)
        ensures
            r.readiness == Readiness::Degraded,
            r.target_serving_size == config.target_serving_size,
            r.actual_serving_size == 0,
            r.registration_budget == config.registration_budget,
            opt_view(r.recent_error) == Some(mock_error_text()),
            r.instances.len() == 1,
            r.instances[0].pool_membership@ == membership_text(PoolMembershipPreference::Standby),
            r.instances[0].current_exit_ip is None,
            r.instances[0].last_observed_exit_ip is None,
            r.instances[0].active_connections == 0,
            opt_view(r.instances[0].recent_error) == Some(mock_error_text()),
    {
        let id = String::from_str("mock-instance-1");
        let group = String::from_str("default");
        let lifecycle = String::from_str("mock");
        let membership = String::from_str(PoolMembershipPreference::Standby.as_str());
        PoolStatus {
            readiness: Readiness::Degraded,
            target_serving_size: config.target_serving_size,
            actual_serving_size: 0,
            registration_budget: config.registration_budget,
            recent_error: Some(mock_error()),
            instances: vec![
                InstanceStatus {
                    instance_id: id,
                    group,
                    lifecycle_state: lifecycle,
                    pool_membership: membership,
                    current_exit_ip: None,
                    last_observed_exit_ip: None,
                    active_connections: 0,
                    recent_error: Some(mock_error()),
                },
            ],
        }
    }

    /// The status of records restored from the State Store: they are classified
    /// again by distinct Exit IPs, as the pool built from them is, so records
    /// that share an Exit IP serve once; no connections are live.
    pub fn from_restored_instances(
        target_serving_size: u16,
        registration_budget: u16,
        instances: Vec<StoredWarpInstance>,
    ) -> (r: Self)
        ensures
            r.actual_serving_size as nat == count_serving(
                classify(instances@, target_serving_size).memberships,
            ),
            r.readiness == readiness_for(r.actual_serving_size, target_serving_size),
            r.target_serving_size == target_serving_size,
            r.registration_budget == registration_budget,
            r.recent_error is None,
            r.instances.len() == instances.len(),
            forall|i: int|
                0 <= i < instances.len() ==> member_status(
                    #[trigger] r.instances[i],
                    restored_member(instances@, target_serving_size, i),
                ),
    {
        let ghost all = instances@;
        let pool = ProxyPool::from_instances(
            PoolConfig::new(target_serving_size, registration_budget),
            instances,
        );
        let r = pool.status();
        proof {
            assert forall|i: int| 0 <= i < all.len() implies member_status(
                #[trigger] r.instances[i],
                restored_member(all, target_serving_size, i),
            ) by {
                assert(memberships_of(pool.spec_members())[i] == pool.spec_members()[i].pool_membership);
                assert(pool.spec_members()[i] == restored_member(all, target_serving_size, i));
            }
        }
        r
    }

    /// The status of a pool whose WARP Lifecycle is blocked; the error summary is
    /// redacted when it looks sensitive.
    pub fn blocked(target_serving_size: u16, registration_budget: u16, recent_error: &str) -> (r:
        Self)
        ensures
            r.readiness == Readiness::Blocked,
            r.target_serving_size == target_serving_size,
            r.actual_serving_size == 0,
            r.registration_budget == registration_budget,
            opt_view(r.recent_error) == Some(redacted_text(recent_error@)),
            r.instances.len() == 0,
    {
        PoolStatus {
            readiness: Readiness::Blocked,
            target_serving_size,
            actual_serving_size: 0,
            registration_budget,
            recent_error: Some(redact_sensitive(recent_error)),
            instances: Vec::new(),
        }
    }
}

} // verus!
