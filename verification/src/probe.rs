//! Health Checks and Exit Probes: one probe cycle updates a WARP Instance from
//! a health observation and the Exit IPs its probe endpoints reported.
use vstd::prelude::*;

use crate::state_store::StoredWarpInstance;
use crate::text::{copy_string, opt_view, str_eq};

verus! {

/// What the Health Check of a WARP Instance found.
#[derive(Debug, Clone, PartialEq, Eq)]
pub enum HealthObservation {
    Healthy,
    Unhealthy(String),
}

/// What one Exit Probe endpoint reported.
#[derive(Debug, Clone, PartialEq, Eq)]
pub enum ProbeObservation {
    ObservedExitIp(String),
    EndpointFailed(String),
}

/// The result of one probe cycle.
#[derive(Debug, Clone, PartialEq, Eq)]
pub enum ProbeOutcome {
    Accepted(String),
    Uncertain,
    NoAcceptedObservation,
    HealthFailed(String),
}

/// What the distinct observed Exit IPs of one cycle amount to.
pub enum Consensus {
    NoObservation,
    Agreed(Seq<char>),
    Conflicting,
}

/// Whether an observation reports the Exit IP `ip`.
pub open spec fn observes(o: ProbeObservation, ip: Seq<char>) -> bool {
    o matches ProbeObservation::ObservedExitIp(s) && s@ == ip
}

/// The distinct Exit IPs the observations report.
pub open spec fn observed_ips(obs: Seq<ProbeObservation>) -> Set<Seq<char>> {
    Set::new(|ip: Seq<char>| exists|i: int| 0 <= i < obs.len() && observes(#[trigger] obs[i], ip))
}

/// No Exit IP observed, exactly one distinct Exit IP, or several.
pub open spec fn consensus_of(ips: Set<Seq<char>>) -> Consensus {
    if ips == Set::<Seq<char>>::empty() {
        Consensus::NoObservation
    } else if exists|ip: Seq<char>| ips == set![ip] {
        Consensus::Agreed(choose|ip: Seq<char>| ips == set![ip])
    } else {
        Consensus::Conflicting
    }
}

/// The reason an endpoint failure carries.
pub open spec fn failure_reason(o: ProbeObservation) -> Seq<char> {
    match o {
        ProbeObservation::EndpointFailed(r) => r@,
        ProbeObservation::ObservedExitIp(ip) => ip@,
    }
}

/// The recent error recorded when several Exit IPs were observed.
pub open spec fn uncertain_consensus_text() -> Seq<char> {
    seq![
        'u', 'n', 'c', 'e', 'r', 't', 'a', 'i', 'n', ' ', 'E', 'x', 'i', 't', ' ', 'P', 'r', 'o',
        'b', 'e', ' ', 'c', 'o', 'n', 's', 'e', 'n', 's', 'u', 's',
    ]
}

/// A probe cycle changes nothing of an instance but its health, its Last Observed
/// Exit IP and its recent error.
pub open spec fn same_identity(a: StoredWarpInstance, b: StoredWarpInstance) -> bool {
    &&& a.instance_id == b.instance_id
    &&& a.group == b.group
    &&& a.label == b.label
    &&& a.pool_membership_preference == b.pool_membership_preference
    &&& a.lifecycle_state == b.lifecycle_state
    &&& a.registration_material == b.registration_material
    &&& a.adapter_config == b.adapter_config
}

/// The effect of a healthy probe cycle on an instance and its outcome.
pub open spec fn healthy_cycle(
    before: StoredWarpInstance,
    after: StoredWarpInstance,
    obs: Seq<ProbeObservation>,
    r: ProbeOutcome,
) -> bool {
    &&& after.enabled
    &&& match consensus_of(observed_ips(obs)) {
        Consensus::NoObservation => {
            &&& r is NoAcceptedObservation
            &&& after.last_observed_exit_ip == before.last_observed_exit_ip
            &&& (obs.len() == 0 ==> after.recent_error is None)
            &&& (obs.len() > 0 ==> opt_view(after.recent_error) == Some(failure_reason(obs[0])))
        },
        Consensus::Agreed(ip) => {
            &&& r matches ProbeOutcome::Accepted(accepted) && accepted@ == ip
            &&& opt_view(after.last_observed_exit_ip) == Some(ip)
            &&& after.recent_error is None
        },
        Consensus::Conflicting => {
            &&& r is Uncertain
            &&& after.last_observed_exit_ip == before.last_observed_exit_ip
            &&& opt_view(after.recent_error) == Some(uncertain_consensus_text())
        },
    }
}

/// The recent error of a cycle without an observed Exit IP: the first reported
/// endpoint failure, if any.
fn first_failure(observations: &Vec<ProbeObservation>) -> (r: Option<String>)
    requires
        forall|i: int| 0 <= i < observations.len() ==> (#[trigger] observations@[i]) is EndpointFailed,
    ensures
        observations.len() == 0 ==> r is None,
        observations.len() > 0 ==> opt_view(r) == Some(failure_reason(observations@[0])),
{
    if observations.len() == 0 {
        return None;
    }
    match &observations[0] {
        ProbeObservation::EndpointFailed(reason) => Some(copy_string(reason)),
        ProbeObservation::ObservedExitIp(ip) => Some(copy_string(ip)),
    }
}

fn uncertain_consensus_message() -> (r: String)
    ensures
        r@ == uncertain_consensus_text(),
{
    let r = String::from_str("uncertain Exit Probe consensus");
    proof {
        reveal_strlit("uncertain Exit Probe consensus");
    }
    r
}

/// Applies one probe cycle to an instance. An unhealthy instance is disabled and
/// records the health failure; a healthy one is enabled and its Exit Probe
/// observations decide: one distinct observed Exit IP is accepted as its Last
/// Observed Exit IP, several leave it unchanged as uncertain, none leave it
/// unchanged and record the first endpoint failure. Endpoint failures never make
/// an instance unhealthy.
pub fn apply_probe_cycle(
    instance: &mut StoredWarpInstance,
    health: HealthObservation,
    observations: Vec<ProbeObservation>,
) -> (r: ProbeOutcome)
    ensures
        same_identity(*old(instance), *final(instance)),
        health matches HealthObservation::Unhealthy(reason) ==> {
            &&& !final(instance).enabled
            &&& final(instance).last_observed_exit_ip == old(instance).last_observed_exit_ip
            &&& opt_view(final(instance).recent_error) == Some(reason@)
            &&& r matches ProbeOutcome::HealthFailed(m) && m@ == reason@
        },
        health is Healthy ==> healthy_cycle(*old(instance), *final(instance), observations@, r),
{
    match health {
        HealthObservation::Unhealthy(reason) => {
            instance.enabled = false;
            instance.recent_error = Some(copy_string(&reason));
            return ProbeOutcome::HealthFailed(reason);
        },
        HealthObservation::Healthy => {
            instance.enabled = true;
        },
    }
    let ghost obs = observations@;
    let mut first: Option<String> = None;
    let mut conflict = false;
    let mut i: usize = 0;
    while i < observations.len()
        invariant
            i <= observations.len(),
            obs == observations@,
            first is None ==> forall|k: int| 0 <= k < i ==> (#[trigger] obs[k]) is EndpointFailed,
            first matches Some(f) ==> exists|k: int| 0 <= k < i && observes(#[trigger] obs[k], f@),
            !conflict ==> (first matches Some(f) ==> forall|k: int|
                0 <= k < i && (#[trigger] obs[k]) is ObservedExitIp ==> observes(obs[k], f@)),
            conflict ==> first is Some,
            conflict ==> (first matches Some(f) ==> exists|k: int|
                0 <= k < i && (#[trigger] obs[k]) is ObservedExitIp && !observes(obs[k], f@)),
        decreases observations.len() - i,
    {
        match &observations[i] {
            ProbeObservation::ObservedExitIp(ip) => {
                match &first {
                    None => {
                        first = Some(copy_string(ip));
                    },
                    Some(f) => {
                        if !str_eq(f.as_str(), ip.as_str()) {
                            conflict = true;
                        }
                    },
                }
            },
            ProbeObservation::EndpointFailed(_) => {},
        }
        i = i + 1;
    }
    let ghost ips = observed_ips(obs);
    match first {
        None => {
            assert(ips =~= Set::<Seq<char>>::empty()) by {
                assert forall|ip: Seq<char>| !ips.contains(ip) by {
                    assert forall|k: int| 0 <= k < obs.len() implies !observes(#[trigger] obs[k], ip) by {
                        assert(obs[k] is EndpointFailed);
                    }
                }
            }
            instance.recent_error = first_failure(&observations);
            ProbeOutcome::NoAcceptedObservation
        },
        Some(f) => {
            if conflict {
                let ghost k = choose|k: int|
                    0 <= k < obs.len() && (#[trigger] obs[k]) is ObservedExitIp && !observes(obs[k], f@);
                let ghost j = choose|j: int| 0 <= j < obs.len() && observes(#[trigger] obs[j], f@);
                let ghost g = obs[k]->ObservedExitIp_0@;
                assert(observes(obs[k], g));
                assert(ips.contains(f@));
                assert(ips.contains(g));
                assert(g != f@);
                assert(ips != Set::<Seq<char>>::empty());
                assert(!exists|ip: Seq<char>| ips == set![ip]) by {
                    if exists|ip: Seq<char>| ips == set![ip] {
                        let ip = choose|ip: Seq<char>| ips == set![ip];
                        assert(set![ip].contains(f@));
                        assert(set![ip].contains(g));
                    }
                }
                instance.recent_error = Some(uncertain_consensus_message());
                ProbeOutcome::Uncertain
            } else {
                assert(ips =~= set![f@]) by {
                    assert forall|ip: Seq<char>| ips.contains(ip) implies ip == f@ by {
                        let k = choose|k: int| 0 <= k < obs.len() && observes(#[trigger] obs[k], ip);
                        assert(obs[k] is ObservedExitIp);
                    }
                    let j = choose|j: int| 0 <= j < obs.len() && observes(#[trigger] obs[j], f@);
                    assert(ips.contains(f@));
                }
                assert(consensus_of(ips) == Consensus::Agreed(f@)) by {
                    assert(exists|ip: Seq<char>| ips == set![ip]);
                    let c = choose|ip: Seq<char>| ips == set![ip];
                    assert(set![c].contains(f@));
                }
                instance.last_observed_exit_ip = Some(copy_string(&f));
                instance.recent_error = None;
                ProbeOutcome::Accepted(f)
            }
        },
    }
}

} // verus!
