//! The Proxy Pool: classification of WARP Instances into the Serving, Standby and
//! failed pools, and Pool Scheduling of new proxy connections.
use vstd::prelude::*;

use crate::security::{redact_optional, redacted_opt};
use crate::state_store::{
    lifecycle_text, membership_text, PoolMembershipPreference, StoredWarpInstance,
};
use crate::status::{readiness_for, readiness_of, InstanceStatus, PoolStatus};
use crate::text::{copy_opt_string, opt_str_eq, opt_view, str_eq};

verus! {

/// The sizing and fallback settings of a pool.
#[derive(Debug, Clone, Copy, PartialEq, Eq, Structural)]
pub struct PoolConfig {
    pub target_serving_size: u16,
    pub registration_budget: u16,
    pub standby_fallback: bool,
}

/// A client's routing hint, read from the proxy username.
#[derive(Debug, Clone, PartialEq, Eq)]
pub enum InstanceSelector {
    Id(String),
    ExitIp(String),
    Group(String),
}

/// Why no WARP Instance could serve a connection.
#[derive(Debug, Clone, Copy, PartialEq, Eq, Structural)]
pub enum ScheduleError {
    NoServingInstance,
    NoServingInstanceInGroup,
    InstanceNotFound,
}

/// One WARP Instance in the pool, with its pool membership and its count of live
/// connections.
pub struct PoolMember {
    pub instance: StoredWarpInstance,
    pub pool_membership: PoolMembershipPreference,
    pub active_connections: u32,
}

/// The pool of WARP Instances a Proxy Endpoint schedules connections on.
pub struct ProxyPool {
    config: PoolConfig,
    members: Vec<PoolMember>,
    cursor: usize,
}

/// A proxy connection's binding to the WARP Instance it was scheduled on; handing
/// it back with [`ProxyPool::release`] ends the connection.
#[derive(Debug)]
pub struct ConnectionLease {
    slot: usize,
    instance_id: String,
}

/// Which members a scheduling decision may pick.
pub enum SpecFilter {
    Serving,
    ServingOrStandbyWithExit(Seq<char>),
    ServingInGroup(Seq<char>),
    StandbyInGroup(Seq<char>),
    ServingOrStandbyWithId(Seq<char>),
}

/// The state of classification after a prefix of the instances.
pub struct Classification {
    pub memberships: Seq<PoolMembershipPreference>,
    pub seen: Seq<Seq<char>>,
    pub serving: nat,
}

/// Classification of one more instance: a disabled or never-probed instance
/// fails; an instance whose exit is new enters the Serving Pool while it is below
/// the target; every other healthy instance waits in the Standby Pool.
pub open spec fn classify_step(prev: Classification, inst: StoredWarpInstance, target: u16) -> Classification {
    if !inst.enabled {
        Classification { memberships: prev.memberships.push(PoolMembershipPreference::Failed), ..prev }
    } else {
        match inst.last_observed_exit_ip {
            None => Classification {
                memberships: prev.memberships.push(PoolMembershipPreference::Failed),
                ..prev
            },
            Some(ip) => if prev.serving < target && !prev.seen.contains(ip@) {
                Classification {
                    memberships: prev.memberships.push(PoolMembershipPreference::Serving),
                    seen: prev.seen.push(ip@),
                    serving: prev.serving + 1,
                }
            } else {
                Classification {
                    memberships: prev.memberships.push(PoolMembershipPreference::Standby),
                    ..prev
                }
            },
        }
    }
}

/// Classification of a sequence of instances, in order.
pub open spec fn classify(insts: Seq<StoredWarpInstance>, target: u16) -> Classification
    decreases insts.len(),
{
    if insts.len() == 0 {
        Classification { memberships: seq![], seen: seq![], serving: 0 }
    } else {
        classify_step(classify(insts.drop_last(), target), insts.last(), target)
    }
}

/// Number of `Serving` entries.
pub open spec fn count_serving(s: Seq<PoolMembershipPreference>) -> nat
    decreases s.len(),
{
    if s.len() == 0 {
        0
    } else {
        count_serving(s.drop_last()) + if s.last() == PoolMembershipPreference::Serving {
            1nat
        } else {
            0nat
        }
    }
}

/// The memberships of the members, in order.
pub open spec fn memberships_of(members: Seq<PoolMember>) -> Seq<PoolMembershipPreference> {
    Seq::new(members.len(), |i: int| members[i].pool_membership)
}

/// The exit IP of an instance, when it has one.
pub open spec fn exit_of(inst: StoredWarpInstance) -> Option<Seq<char>> {
    opt_view(inst.last_observed_exit_ip)
}

/// Whether a member may be picked under a filter.
pub open spec fn admits(f: SpecFilter, m: PoolMember) -> bool {
    let usable = m.pool_membership == PoolMembershipPreference::Serving || m.pool_membership
        == PoolMembershipPreference::Standby;
    match f {
        SpecFilter::Serving => m.pool_membership == PoolMembershipPreference::Serving,
        SpecFilter::ServingOrStandbyWithExit(ip) => usable && exit_of(m.instance) == Some(ip),
        SpecFilter::ServingInGroup(g) => m.instance.group@ == g && m.pool_membership
            == PoolMembershipPreference::Serving,
        SpecFilter::StandbyInGroup(g) => m.instance.group@ == g && m.pool_membership
            == PoolMembershipPreference::Standby,
        SpecFilter::ServingOrStandbyWithId(id) => usable && m.instance.instance_id@ == id,
    }
}

/// Some member passes the filter.
pub open spec fn any_admitted(members: Seq<PoolMember>, f: SpecFilter) -> bool {
    exists|j: int| 0 <= j < members.len() && admits(f, #[trigger] members[j])
}

/// `i` comes before `j` in scheduling order: fewer active connections, then the
/// earlier position.
pub open spec fn schedules_before(members: Seq<PoolMember>, i: int, j: int) -> bool {
    members[i].active_connections < members[j].active_connections || (
    members[i].active_connections == members[j].active_connections && i <= j)
}

/// Round-robin order from a cursor: the positions from the cursor on come first,
/// then those before it, each part in position order.
pub open spec fn rotation_before(cursor: int, i: int, j: int) -> bool {
    (i >= cursor && j < cursor) || ((i >= cursor) == (j >= cursor) && i <= j)
}

/// `i` comes before `j` in automatic scheduling order: fewer active connections,
/// then round-robin order from the cursor.
pub open spec fn auto_before(members: Seq<PoolMember>, cursor: int, i: int, j: int) -> bool {
    members[i].active_connections < members[j].active_connections || (
    members[i].active_connections == members[j].active_connections && rotation_before(cursor, i, j))
}

/// `i` is the serving member automatic scheduling picks: the fewest active
/// connections, ties broken round-robin from the cursor.
pub open spec fn is_auto_best(members: Seq<PoolMember>, cursor: int, i: int) -> bool {
    &&& 0 <= i < members.len()
    &&& admits(SpecFilter::Serving, members[i])
    &&& forall|j: int|
        0 <= j < members.len() && admits(SpecFilter::Serving, #[trigger] members[j]) ==> auto_before(
            members,
            cursor,
            i,
            j,
        )
}

/// `i` is the member Pool Scheduling picks under a filter: it passes the filter
/// and comes first in scheduling order among those that do.
pub open spec fn is_best(members: Seq<PoolMember>, f: SpecFilter, i: int) -> bool {
    &&& 0 <= i < members.len()
    &&& admits(f, members[i])
    &&& forall|j: int|
        0 <= j < members.len() && admits(f, #[trigger] members[j]) ==> schedules_before(
            members,
            i,
            j,
        )
}

/// `i` is the first member that passes the filter.
pub open spec fn is_first(members: Seq<PoolMember>, f: SpecFilter, i: int) -> bool {
    &&& 0 <= i < members.len()
    &&& admits(f, members[i])
    &&& forall|j: int| 0 <= j < i ==> !admits(f, #[trigger] members[j])
}

/// `after` is `before` with one more live connection on `slot`.
pub open spec fn leased(before: Seq<PoolMember>, after: Seq<PoolMember>, slot: int) -> bool {
    &&& 0 <= slot < before.len()
    &&& after.len() == before.len()
    &&& forall|k: int| 0 <= k < before.len() && k != slot ==> #[trigger] after[k] == before[k]
    &&& after[slot].instance == before[slot].instance
    &&& after[slot].pool_membership == before[slot].pool_membership
    &&& after[slot].active_connections == before[slot].active_connections + 1
}

/// `after` is `before` with one live connection fewer on `slot` (never below zero);
/// a slot outside the pool changes nothing.
pub open spec fn released(before: Seq<PoolMember>, after: Seq<PoolMember>, slot: int) -> bool {
    &&& after.len() == before.len()
    &&& forall|k: int| 0 <= k < before.len() && k != slot ==> #[trigger] after[k] == before[k]
    &&& 0 <= slot < before.len() ==> {
        &&& after[slot].instance == before[slot].instance
        &&& after[slot].pool_membership == before[slot].pool_membership
        &&& after[slot].active_connections == if before[slot].active_connections > 0 {
            (before[slot].active_connections - 1) as u32
        } else {
            0u32
        }
    }
}

/// The status line of a pool member: the live exit is the last observed one and
/// the recent error is redacted.
pub open spec fn member_status(st: InstanceStatus, m: PoolMember) -> bool {
    &&& st.instance_id@ == m.instance.instance_id@
    &&& st.group@ == m.instance.group@
    &&& st.lifecycle_state@ == lifecycle_text(m.instance.lifecycle_state)
    &&& st.pool_membership@ == membership_text(m.pool_membership)
    &&& opt_view(st.current_exit_ip) == exit_of(m.instance)
    &&& opt_view(st.last_observed_exit_ip) == exit_of(m.instance)
    &&& st.active_connections == m.active_connections
    &&& opt_view(st.recent_error) == redacted_opt(opt_view(m.instance.recent_error))
}

/// Facts about a classification: it has one membership per instance, never more
/// serving instances than the target, only enabled and probed instances serve,
/// every serving exit is remembered, and no two serving instances share an exit.
pub open spec fn classification_facts(insts: Seq<StoredWarpInstance>, target: u16) -> bool {
    let c = classify(insts, target);
    &&& c.memberships.len() == insts.len()
    &&& c.serving == count_serving(c.memberships)
    &&& c.serving <= target
    &&& forall|i: int|
        0 <= i < insts.len() && c.memberships[i] == PoolMembershipPreference::Serving
            ==> #[trigger] insts[i].enabled && insts[i].last_observed_exit_ip is Some
            && c.seen.contains(exit_of(insts[i])->0)
    &&& forall|i: int|
        0 <= i < insts.len() ==> (c.memberships[i] == PoolMembershipPreference::Failed
            <==> (!(#[trigger] insts[i]).enabled || insts[i].last_observed_exit_ip is None))
    &&& forall|i: int|
        0 <= i < insts.len() ==> c.memberships[i] != PoolMembershipPreference::Disabled
    &&& forall|i: int, j: int|
        0 <= i < j < insts.len() && c.memberships[i] == PoolMembershipPreference::Serving
            && c.memberships[j] == PoolMembershipPreference::Serving ==> exit_of(
            #[trigger] insts[i],
        ) != exit_of(#[trigger] insts[j])
}

proof fn lemma_classification(insts: Seq<StoredWarpInstance>, target: u16)
    ensures
        classification_facts(insts, target),
    decreases insts.len(),
{
    if insts.len() > 0 {
        let prev_insts = insts.drop_last();
        lemma_classification(prev_insts, target);
        let p = classify(prev_insts, target);
        let c = classify(insts, target);
        let last = insts.last();
        let n = prev_insts.len() as int;
        assert(c.memberships.drop_last() == p.memberships);
        assert forall|i: int| 0 <= i < n implies #[trigger] insts[i] == prev_insts[i] by {}
        assert forall|i: int|
            0 <= i < insts.len() && c.memberships[i] == PoolMembershipPreference::Serving
                implies #[trigger] insts[i].enabled && insts[i].last_observed_exit_ip is Some
                && c.seen.contains(exit_of(insts[i])->0) by {
            if i < n {
                assert(p.memberships[i] == PoolMembershipPreference::Serving);
                assert(prev_insts[i] == insts[i]);
                let w = choose|k: int| 0 <= k < p.seen.len() && p.seen[k] == exit_of(insts[i])->0;
                assert(c.seen[w] == p.seen[w]);
            } else {
                assert(c.seen[c.seen.len() - 1] == exit_of(insts[i])->0);
            }
        }
        assert forall|i: int, j: int|
            0 <= i < j < insts.len() && c.memberships[i] == PoolMembershipPreference::Serving
                && c.memberships[j] == PoolMembershipPreference::Serving implies exit_of(
            #[trigger] insts[i],
        ) != exit_of(#[trigger] insts[j]) by {
            if j < n {
                assert(p.memberships[i] == PoolMembershipPreference::Serving);
                assert(p.memberships[j] == PoolMembershipPreference::Serving);
                assert(prev_insts[i] == insts[i]);
                assert(prev_insts[j] == insts[j]);
            } else {
                assert(p.memberships[i] == PoolMembershipPreference::Serving);
                assert(prev_insts[i] == insts[i]);
                assert(p.seen.contains(exit_of(insts[i])->0));
            }
        }
        assert forall|i: int|
            0 <= i < insts.len() implies (c.memberships[i] == PoolMembershipPreference::Failed
            <==> (!(#[trigger] insts[i]).enabled || insts[i].last_observed_exit_ip is None)) by {
            if i < n {
                assert(prev_insts[i] == insts[i]);
            }
        }
        assert forall|i: int|
            0 <= i < insts.len() implies c.memberships[i] != PoolMembershipPreference::Disabled by {
            if i < n {
                assert(p.memberships[i] != PoolMembershipPreference::Disabled);
            }
        }
    }
}

/// Serving Pool law: no two instances classified as serving share an Exit IP,
/// and the Serving Pool never exceeds the Target Serving Size.
pub proof fn law_serving_pool_has_distinct_exits(insts: Seq<StoredWarpInstance>, target: u16)
    ensures
        count_serving(classify(insts, target).memberships) <= target,
        forall|i: int, j: int|
            0 <= i < j < insts.len() && classify(insts, target).memberships[i]
                == PoolMembershipPreference::Serving && classify(insts, target).memberships[j]
                == PoolMembershipPreference::Serving ==> exit_of(#[trigger] insts[i]) != exit_of(
                #[trigger] insts[j],
            ),
{
    lemma_classification(insts, target);
}

/// The Exit IPs of the instances that are enabled and were probed.
pub open spec fn usable_exits(insts: Seq<StoredWarpInstance>) -> Set<Seq<char>>
    decreases insts.len(),
{
    if insts.len() == 0 {
        Set::empty()
    } else {
        let x = insts.last();
        if x.enabled && x.last_observed_exit_ip is Some {
            usable_exits(insts.drop_last()).insert(exit_of(x)->0)
        } else {
            usable_exits(insts.drop_last())
        }
    }
}

proof fn lemma_serving_count(insts: Seq<StoredWarpInstance>, target: u16)
    ensures
        usable_exits(insts).finite(),
        classify(insts, target).seen.no_duplicates(),
        classify(insts, target).seen.len() == classify(insts, target).serving,
        classify(insts, target).serving <= target,
        classify(insts, target).seen.to_set().subset_of(usable_exits(insts)),
        classify(insts, target).serving < target ==> classify(insts, target).seen.to_set()
            == usable_exits(insts),
        classify(insts, target).serving == if usable_exits(insts).len() < target {
            usable_exits(insts).len()
        } else {
            target as nat
        },
    decreases insts.len(),
{
    if insts.len() > 0 {
        let prev = insts.drop_last();
        lemma_serving_count(prev, target);
        let p = classify(prev, target);
        let u = usable_exits(prev);
        let x = insts.last();
        p.seen.unique_seq_to_set();
        if x.enabled && x.last_observed_exit_ip is Some {
            let ip = exit_of(x)->0;
            assert(x.last_observed_exit_ip->0@ == ip);
            if p.serving < target && !p.seen.contains(ip) {
                let seen = p.seen.push(ip);
                p.seen.lemma_push_to_set_commute(ip);
                assert(!u.contains(ip));
                assert(seen.no_duplicates()) by {
                    assert forall|i: int, j: int|
                        0 <= i < seen.len() && 0 <= j < seen.len() && i != j implies seen[i]
                        != seen[j] by {
                        if i == p.seen.len() as int {
                            assert(p.seen.contains(seen[j]));
                        } else if j == p.seen.len() as int {
                            assert(p.seen.contains(seen[i]));
                        }
                    }
                }
                assert(u.insert(ip).len() == u.len() + 1);
            } else if p.serving < target {
                assert(u.insert(ip) =~= u);
            } else {
                assert(u.insert(ip).len() >= u.len());
            }
        }
    }
}

/// Exit Diversity law: the Serving Pool holds as many instances as there are
/// distinct Exit IPs among the enabled, probed instances, up to the Target
/// Serving Size.
pub proof fn law_serving_size_is_capped_exit_count(insts: Seq<StoredWarpInstance>, target: u16)
    ensures
        count_serving(classify(insts, target).memberships) == if usable_exits(insts).len()
            < target {
            usable_exits(insts).len()
        } else {
            target as nat
        },
{
    lemma_serving_count(insts, target);
    lemma_classification(insts, target);
}

proof fn lemma_classify_prefix(insts: Seq<StoredWarpInstance>, target: u16, k: int)
    requires
        0 <= k <= insts.len(),
    ensures
        classify(insts, target).memberships.take(k) == classify(insts.take(k), target).memberships,
    decreases insts.len(),
{
    lemma_classification(insts, target);
    if k == insts.len() {
        assert(insts.take(k) =~= insts);
        assert(classify(insts, target).memberships.take(k) =~= classify(insts, target).memberships);
    } else {
        let prev = insts.drop_last();
        lemma_classify_prefix(prev, target, k);
        lemma_classification(prev, target);
        assert(prev.take(k) =~= insts.take(k));
        assert(classify(insts, target).memberships.take(k) =~= classify(prev, target).memberships.take(
            k,
        ));
    }
}

proof fn lemma_seen_are_serving_exits(insts: Seq<StoredWarpInstance>, target: u16, ip: Seq<char>)
    requires
        classify(insts, target).seen.contains(ip),
    ensures
        exists|j: int|
            0 <= j < insts.len() && classify(insts, target).memberships[j]
                == PoolMembershipPreference::Serving && exit_of(#[trigger] insts[j]) == Some(ip),
    decreases insts.len(),
{
    lemma_classification(insts, target);
    let prev = insts.drop_last();
    let p = classify(prev, target);
    let c = classify(insts, target);
    lemma_classification(prev, target);
    assert(c.memberships.drop_last() == p.memberships);
    if p.seen.contains(ip) {
        lemma_seen_are_serving_exits(prev, target, ip);
        let j = choose|j: int|
            0 <= j < prev.len() && p.memberships[j] == PoolMembershipPreference::Serving && exit_of(
                #[trigger] prev[j],
            ) == Some(ip);
        assert(insts[j] == prev[j]);
        assert(c.memberships[j] == p.memberships[j]);
    } else {
        let last = insts.len() - 1;
        assert(insts[last] == insts.last());
        assert(c.memberships[last] == PoolMembershipPreference::Serving);
    }
}

/// Exit Diversity law: an enabled, probed instance waits in the Standby Pool
/// exactly when an earlier instance already serves with its Exit IP, or the
/// instances before it already fill the Target Serving Size; otherwise it
/// serves. The first instance with an Exit IP wins.
pub proof fn law_standby_exactly_when_exit_taken_or_pool_full(
    insts: Seq<StoredWarpInstance>,
    target: u16,
    i: int,
)
    requires
        0 <= i < insts.len(),
        insts[i].enabled,
        insts[i].last_observed_exit_ip is Some,
    ensures
        classify(insts, target).memberships[i] == PoolMembershipPreference::Standby <==> ((exists|
            j: int,
        |
            0 <= j < i && classify(insts, target).memberships[j] == PoolMembershipPreference::Serving
                && exit_of(#[trigger] insts[j]) == exit_of(insts[i])) || count_serving(
            classify(insts, target).memberships.take(i),
        ) >= target),
        classify(insts, target).memberships[i] == PoolMembershipPreference::Standby
            || classify(insts, target).memberships[i] == PoolMembershipPreference::Serving,
{
    let ms = classify(insts, target).memberships;
    let pre = insts.take(i);
    let upto = insts.take(i + 1);
    let p = classify(pre, target);
    let x = insts[i];
    let ip = exit_of(x)->0;
    lemma_classification(insts, target);
    lemma_classify_prefix(insts, target, i);
    lemma_classify_prefix(insts, target, i + 1);
    lemma_classification(pre, target);
    assert(upto.drop_last() =~= pre);
    assert(upto.last() == x);
    assert(ms.take(i + 1)[i] == ms[i]);
    assert(ms[i] == classify(upto, target).memberships[i]);
    assert(x.last_observed_exit_ip->0@ == ip);
    if p.seen.contains(ip) {
        lemma_seen_are_serving_exits(pre, target, ip);
        let j = choose|j: int|
            0 <= j < pre.len() && p.memberships[j] == PoolMembershipPreference::Serving && exit_of(
                #[trigger] pre[j],
            ) == Some(ip);
        assert(pre[j] == insts[j]);
        assert(ms.take(i)[j] == ms[j]);
    }
    if exists|j: int|
        0 <= j < i && ms[j] == PoolMembershipPreference::Serving && exit_of(#[trigger] insts[j])
            == exit_of(x) {
        let j = choose|j: int|
            0 <= j < i && ms[j] == PoolMembershipPreference::Serving && exit_of(#[trigger] insts[j])
                == exit_of(x);
        assert(pre[j] == insts[j]);
        assert(ms.take(i)[j] == ms[j]);
        assert(p.memberships[j] == PoolMembershipPreference::Serving);
        assert(p.seen.contains(exit_of(pre[j])->0));
    }
}

/// Exit Probe and Health Check law: an instance enters the Serving or Standby
/// Pool only when it is healthy (enabled) and has an observed Exit IP.
pub proof fn law_only_healthy_probed_instances_are_usable(
    insts: Seq<StoredWarpInstance>,
    target: u16,
    i: int,
)
    requires
        0 <= i < insts.len(),
    ensures
        classify(insts, target).memberships[i] != PoolMembershipPreference::Failed
            <==> insts[i].enabled && insts[i].last_observed_exit_ip is Some,
{
    lemma_classification(insts, target);
}

/// Memberships of the members after a change of one member that kept its
/// membership.
proof fn lemma_memberships_kept(before: Seq<PoolMember>, after: Seq<PoolMember>, slot: int)
    requires
        after.len() == before.len(),
        forall|k: int| 0 <= k < before.len() && k != slot ==> #[trigger] after[k] == before[k],
        0 <= slot < before.len() ==> after[slot].pool_membership == before[slot].pool_membership,
    ensures
        memberships_of(after) == memberships_of(before),
{
    assert(memberships_of(after) =~= memberships_of(before));
}

impl PoolConfig {
    /// A pool configuration without Standby Fallback.
    pub fn new(target_serving_size: u16, registration_budget: u16) -> (r: Self)
        ensures
            r.target_serving_size == target_serving_size,
            r.registration_budget == registration_budget,
            !r.standby_fallback,
    {
        PoolConfig { target_serving_size, registration_budget, standby_fallback: false }
    }

    /// The same configuration with Standby Fallback set as given.
    pub fn with_standby_fallback(self, standby_fallback: bool) -> (r: Self)
        ensures
            r.target_serving_size == self.target_serving_size,
            r.registration_budget == self.registration_budget,
            r.standby_fallback == standby_fallback,
    {
        PoolConfig { standby_fallback, ..self }
    }
}

impl ConnectionLease {
    /// The position of the leased member in its pool.
    pub closed spec fn spec_slot(self) -> int {
        self.slot as int
    }

    /// The identity of the leased WARP Instance.
    pub closed spec fn spec_instance_id(self) -> Seq<char> {
        self.instance_id@
    }

    /// The identity of the WARP Instance the connection is bound to.
    pub fn instance_id(&self) -> (r: String)
        ensures
            r@ == self.spec_instance_id(),
    {
        self.instance_id.clone()
    }
}

/// Whether `seen` holds `ip`.
fn seen_contains(seen: &Vec<String>, ip: &String) -> (r: bool)
    ensures
        r == (exists|k: int| 0 <= k < seen.len() && (#[trigger] seen@[k])@ == ip@),
{
    let mut k: usize = 0;
    while k < seen.len()
        invariant
            k <= seen.len(),
            forall|j: int| 0 <= j < k ==> (#[trigger] seen@[j])@ != ip@,
        decreases seen.len() - k,
    {
        if str_eq(seen[k].as_str(), ip.as_str()) {
            return true;
        }
        k = k + 1;
    }
    false
}

/// Exec form of the filters.
enum Filter {
    Serving,
    ServingOrStandbyWithExit(String),
    ServingInGroup(String),
    StandbyInGroup(String),
}

spec fn filter_view(f: Filter) -> SpecFilter {
    match f {
        Filter::Serving => SpecFilter::Serving,
        Filter::ServingOrStandbyWithExit(ip) => SpecFilter::ServingOrStandbyWithExit(ip@),
        Filter::ServingInGroup(g) => SpecFilter::ServingInGroup(g@),
        Filter::StandbyInGroup(g) => SpecFilter::StandbyInGroup(g@),
    }
}

fn admits_exec(f: &Filter, m: &PoolMember) -> (r: bool)
    ensures
        r == admits(filter_view(*f), *m),
{
    let usable = m.pool_membership == PoolMembershipPreference::Serving || m.pool_membership
        == PoolMembershipPreference::Standby;
    match f {
        Filter::Serving => m.pool_membership == PoolMembershipPreference::Serving,
        Filter::ServingOrStandbyWithExit(ip) => usable && opt_str_eq(
            &m.instance.last_observed_exit_ip,
            ip.as_str(),
        ),
        Filter::ServingInGroup(g) => m.pool_membership == PoolMembershipPreference::Serving
            && str_eq(m.instance.group.as_str(), g.as_str()),
        Filter::StandbyInGroup(g) => m.pool_membership == PoolMembershipPreference::Standby
            && str_eq(m.instance.group.as_str(), g.as_str()),
    }
}

impl ProxyPool {
    /// The pool's configuration.
    pub closed spec fn spec_config(self) -> PoolConfig {
        self.config
    }

    /// The pool's members, in their original order.
    pub closed spec fn spec_members(self) -> Seq<PoolMember> {
        self.members@
    }

    /// Where round-robin tie-breaking of automatic scheduling starts: just after
    /// the member scheduled last.
    pub closed spec fn spec_cursor(self) -> int {
        self.cursor as int
    }

    /// Every member can take one more connection.
    pub open spec fn has_headroom(self) -> bool {
        forall|i: int|
            0 <= i < self.spec_members().len() ==> (#[trigger] self.spec_members()[i]).active_connections
                < u32::MAX
    }

    #[verifier::type_invariant]
    spec fn pool_inv(self) -> bool {
        count_serving(memberships_of(self.members@)) <= self.config.target_serving_size
    }

    /// Builds the pool from restored instances: a disabled or never-probed instance
    /// fails, the first instances with distinct Exit IPs serve up to the Target
    /// Serving Size, and the other healthy instances stand by.
    pub fn from_instances(config: PoolConfig, instances: Vec<StoredWarpInstance>) -> (r: Self)
        ensures
            r.spec_cursor() == 0,
            r.spec_config() == config,
            r.spec_members().len() == instances.len(),
            memberships_of(r.spec_members()) == classify(
                instances@,
                config.target_serving_size,
            ).memberships,
            forall|i: int|
                0 <= i < instances.len() ==> (#[trigger] r.spec_members()[i]).instance
                    == instances@[i] && r.spec_members()[i].active_connections == 0,
    {
        let ghost all = instances@;
        let ghost target = config.target_serving_size;
        let n = instances.len();
        let mut members: Vec<PoolMember> = Vec::new();
        let mut seen: Vec<String> = Vec::new();
        let mut serving: u16 = 0;
        proof {
            lemma_classification(all, target);
        }
        for instance in it: instances.into_iter()
            invariant
                it.seq() == all,
                all.len() == n,
                target == config.target_serving_size,
                members.len() == it.index(),
                memberships_of(members@) == classify(all.take(it.index() as int), target).memberships,
                seen.len() == classify(all.take(it.index() as int), target).seen.len(),
                forall|k: int|
                    0 <= k < seen.len() ==> (#[trigger] seen@[k])@ == classify(
                        all.take(it.index() as int),
                        target,
                    ).seen[k],
                serving as nat == classify(all.take(it.index() as int), target).serving,
                forall|i: int|
                    0 <= i < it.index() ==> (#[trigger] members@[i]).instance == all[i]
                        && members@[i].active_connections == 0,
        {
            let ghost k = it.index() as int;
            let ghost prefix = all.take(k);
            let ghost p = classify(prefix, target);
            proof {
                assert(all.take(k + 1).drop_last() == prefix);
                assert(all.take(k + 1).last() == instance);
                lemma_classification(prefix, target);
            }
            let membership = if !instance.enabled {
                PoolMembershipPreference::Failed
            } else {
                match &instance.last_observed_exit_ip {
                    Some(exit_ip) => {
                        if serving < config.target_serving_size && !seen_contains(&seen, exit_ip) {
                            proof {
                                assert forall|j: int| 0 <= j < p.seen.len() implies p.seen[j]
                                    != exit_ip@ by {
                                    assert(seen@[j]@ == p.seen[j]);
                                }
                            }
                            seen.push(exit_ip.clone());
                            serving = serving + 1;
                            PoolMembershipPreference::Serving
                        } else {
                            proof {
                                if serving < config.target_serving_size {
                                    let w = choose|j: int|
                                        0 <= j < seen.len() && (#[trigger] seen@[j])@ == exit_ip@;
                                    assert(p.seen[w] == exit_ip@);
                                }
                            }
                            PoolMembershipPreference::Standby
                        }
                    },
                    None => PoolMembershipPreference::Failed,
                }
            };
            let ghost before = members@;
            members.push(
                PoolMember { instance, pool_membership: membership, active_connections: 0 },
            );
            proof {
                let c = classify(all.take(k + 1), target);
                assert(memberships_of(members@) =~= c.memberships);
                assert(seen@.len() == c.seen.len());
                assert forall|j: int| 0 <= j < seen.len() implies (#[trigger] seen@[j])@
                    == c.seen[j] by {}
            }
        }
        proof {
            assert(all.take(n as int) == all);
            lemma_classification(all, target);
        }
        ProxyPool { config, members, cursor: 0 }
    }

    /// The pool's status: readiness from the number of serving instances and one
    /// status line per member.
    pub fn status(&self) -> (r: PoolStatus)
        ensures
            r.actual_serving_size as nat == count_serving(memberships_of(self.spec_members())),
            r.readiness == readiness_for(
                r.actual_serving_size,
                self.spec_config().target_serving_size,
            ),
            r.target_serving_size == self.spec_config().target_serving_size,
            r.registration_budget == self.spec_config().registration_budget,
            r.recent_error is None,
            r.instances.len() == self.spec_members().len(),
            forall|i: int|
                0 <= i < r.instances.len() ==> member_status(
                    #[trigger] r.instances[i],
                    self.spec_members()[i],
                ),
    {
        proof {
            use_type_invariant(self);
        }
        let mut count: u16 = 0;
        let mut lines: Vec<InstanceStatus> = Vec::new();
        let mut i: usize = 0;
        while i < self.members.len()
            invariant
                i <= self.members.len(),
                count_serving(memberships_of(self.members@)) <= self.config.target_serving_size,
                count as nat == count_serving(memberships_of(self.members@).take(i as int)),
                lines.len() == i,
                forall|k: int|
                    0 <= k < i ==> member_status(#[trigger] lines@[k], self.members@[k]),
            decreases self.members.len() - i,
        {
            let m = &self.members[i];
            proof {
                let ms = memberships_of(self.members@);
                assert(ms.take(i + 1).drop_last() == ms.take(i as int));
                lemma_count_prefix_bounded(ms, i + 1);
            }
            if m.pool_membership == PoolMembershipPreference::Serving {
                count = count + 1;
            }
            let line = InstanceStatus {
                instance_id: m.instance.instance_id.clone(),
                group: m.instance.group.clone(),
                lifecycle_state: String::from_str(m.instance.lifecycle_state.as_str()),
                pool_membership: String::from_str(m.pool_membership.as_str()),
                current_exit_ip: copy_opt_string(&m.instance.last_observed_exit_ip),
                last_observed_exit_ip: copy_opt_string(&m.instance.last_observed_exit_ip),
                active_connections: m.active_connections,
                recent_error: redact_optional(&m.instance.recent_error),
            };
            lines.push(line);
            i = i + 1;
        }
        proof {
            assert(memberships_of(self.members@).take(self.members.len() as int) == memberships_of(
                self.members@,
            ));
        }
        PoolStatus {
            readiness: readiness_of(count, self.config.target_serving_size),
            target_serving_size: self.config.target_serving_size,
            actual_serving_size: count,
            registration_budget: self.config.registration_budget,
            recent_error: None,
            instances: lines,
        }
    }

    /// Whether every member can take one more connection.
    pub fn has_connection_headroom(&self) -> (r: bool)
        ensures
            r == self.has_headroom(),
    {
        let mut i: usize = 0;
        while i < self.members.len()
            invariant
                i <= self.members.len(),
                forall|k: int| 0 <= k < i ==> (#[trigger] self.members@[k]).active_connections < u32::MAX,
            decreases self.members.len() - i,
        {
            if self.members[i].active_connections == u32::MAX {
                return false;
            }
            i = i + 1;
        }
        true
    }

    /// The member Pool Scheduling picks under a filter.
    fn best_candidate(&self, f: &Filter) -> (r: Option<usize>)
        ensures
            match r {
                Some(i) => is_best(self.members@, filter_view(*f), i as int),
                None => !any_admitted(self.members@, filter_view(*f)),
            },
    {
        let ghost sf = filter_view(*f);
        let mut best: Option<usize> = None;
        let mut i: usize = 0;
        while i < self.members.len()
            invariant
                i <= self.members.len(),
                sf == filter_view(*f),
                match best {
                    Some(b) => b < i && admits(sf, self.members@[b as int]) && forall|j: int|
                        0 <= j < i && admits(sf, #[trigger] self.members@[j]) ==> schedules_before(
                            self.members@,
                            b as int,
                            j,
                        ),
                    None => forall|j: int| 0 <= j < i ==> !admits(sf, #[trigger] self.members@[j]),
                },
            decreases self.members.len() - i,
        {
            if admits_exec(f, &self.members[i]) {
                match best {
                    Some(b) => {
                        if self.members[i].active_connections < self.members[b].active_connections {
                            best = Some(i);
                        }
                    },
                    None => {
                        best = Some(i);
                    },
                }
            }
            i = i + 1;
        }
        best
    }

    /// The first usable member with the given identity.
    fn find_by_id(&self, id: &String) -> (r: Option<usize>)
        ensures
            match r {
                Some(i) => is_first(self.members@, SpecFilter::ServingOrStandbyWithId(id@), i as int),
                None => !any_admitted(self.members@, SpecFilter::ServingOrStandbyWithId(id@)),
            },
    {
        let ghost sf = SpecFilter::ServingOrStandbyWithId(id@);
        let mut i: usize = 0;
        while i < self.members.len()
            invariant
                i <= self.members.len(),
                sf == SpecFilter::ServingOrStandbyWithId(id@),
                forall|j: int| 0 <= j < i ==> !admits(sf, #[trigger] self.members@[j]),
            decreases self.members.len() - i,
        {
            let m = &self.members[i];
            if (m.pool_membership == PoolMembershipPreference::Serving || m.pool_membership
                == PoolMembershipPreference::Standby) && str_eq(
                m.instance.instance_id.as_str(),
                id.as_str(),
            ) {
                return Some(i);
            }
            i = i + 1;
        }
        None
    }

    /// Binds one more connection to a member.
    fn lease(&mut self, slot: usize) -> (r: ConnectionLease)
        requires
            slot < old(self).spec_members().len(),
            old(self).spec_members()[slot as int].active_connections < u32::MAX,
        ensures
            final(self).spec_cursor() == old(self).spec_cursor(),
            leased(old(self).spec_members(), final(self).spec_members(), slot as int),
            final(self).spec_config() == old(self).spec_config(),
            r.spec_slot() == slot,
            r.spec_instance_id() == old(self).spec_members()[slot as int].instance.instance_id@,
    {
        proof {
            use_type_invariant(&*self);
        }
        let ghost before = self.members@;
        let mut members: Vec<PoolMember> = Vec::new();
        std::mem::swap(&mut members, &mut self.members);
        let instance_id = members[slot].instance.instance_id.clone();
        let next = members[slot].active_connections + 1;
        members[slot].active_connections = next;
        proof {
            lemma_memberships_kept(before, members@, slot as int);
        }
        self.members = members;
        ConnectionLease { slot, instance_id }
    }

    /// The serving member automatic scheduling picks.
    fn best_auto_candidate(&self) -> (r: Option<usize>)
        ensures
            match r {
                Some(i) => is_auto_best(self.members@, self.cursor as int, i as int),
                None => !any_admitted(self.members@, SpecFilter::Serving),
            },
    {
        let f = Filter::Serving;
        let ghost c = self.cursor as int;
        let mut best: Option<usize> = None;
        let mut i: usize = 0;
        while i < self.members.len()
            invariant
                i <= self.members.len(),
                c == self.cursor as int,
                filter_view(f) == SpecFilter::Serving,
                match best {
                    Some(b) => b < i && admits(SpecFilter::Serving, self.members@[b as int])
                        && forall|j: int|
                        0 <= j < i && admits(SpecFilter::Serving, #[trigger] self.members@[j])
                            ==> auto_before(self.members@, c, b as int, j),
                    None => forall|j: int|
                        0 <= j < i ==> !admits(SpecFilter::Serving, #[trigger] self.members@[j]),
                },
            decreases self.members.len() - i,
        {
            if admits_exec(&f, &self.members[i]) {
                match best {
                    Some(b) => {
                        let fewer = self.members[i].active_connections
                            < self.members[b].active_connections;
                        let tie = self.members[i].active_connections
                            == self.members[b].active_connections;
                        let earlier_in_rotation = i >= self.cursor && b < self.cursor;
                        if fewer || (tie && earlier_in_rotation) {
                            best = Some(i);
                        }
                    },
                    None => {
                        best = Some(i);
                    },
                }
            }
            i = i + 1;
        }
        best
    }

    /// Automatic scheduling: the serving instance with the fewest active
    /// connections; ties are broken round-robin, starting just after the member
    /// scheduled last.
    pub fn schedule_auto(&mut self) -> (r: Result<ConnectionLease, ScheduleError>)
        requires
            old(self).has_headroom(),
        ensures
            final(self).spec_config() == old(self).spec_config(),
            auto_matches(old(self).spec_members(), old(self).spec_cursor(), slot_result(r)),
            r matches Ok(lease) ==> final(self).spec_cursor() == lease.spec_slot() + 1,
            r is Err ==> final(self).spec_cursor() == old(self).spec_cursor(),
            r matches Ok(lease) ==> leased(
                old(self).spec_members(),
                final(self).spec_members(),
                lease.spec_slot(),
            ) && lease.spec_instance_id()
                == old(self).spec_members()[lease.spec_slot()].instance.instance_id@,
            r is Err ==> final(self).spec_members() == old(self).spec_members(),
    {
        match self.best_auto_candidate() {
            Some(slot) => {
                let n = self.members.len();
                assert(slot < n);
                let next = slot + 1;
                let lease = self.lease(slot);
                proof {
                    use_type_invariant(&*self);
                }
                self.cursor = next;
                Ok(lease)
            },
            None => Err(ScheduleError::NoServingInstance),
        }
    }

    /// Explicit selection: `id:` picks the first serving or standby instance with
    /// that identity; `exit:` picks, among serving and standby instances with that
    /// Exit IP, the one with the fewest connections; `group:` picks among the
    /// group's serving instances, and among its standby instances only when
    /// Standby Fallback is on. A failed selector never falls back to automatic
    /// scheduling.
    pub fn select_instance(&mut self, selector: InstanceSelector) -> (r: Result<
        ConnectionLease,
        ScheduleError,
    >)
        requires
            old(self).has_headroom(),
        ensures
            final(self).spec_cursor() == old(self).spec_cursor(),
            final(self).spec_config() == old(self).spec_config(),
            r matches Ok(lease) ==> leased(
                old(self).spec_members(),
                final(self).spec_members(),
                lease.spec_slot(),
            ) && lease.spec_instance_id()
                == old(self).spec_members()[lease.spec_slot()].instance.instance_id@,
            r is Err ==> final(self).spec_members() == old(self).spec_members(),
            selection_matches(
                old(self).spec_members(),
                old(self).spec_config(),
                selector_view(selector),
                slot_result(r),
            ),
    {
        match selector {
            InstanceSelector::Id(id) => {
                match self.find_by_id(&id) {
                    Some(slot) => Ok(self.lease(slot)),
                    None => Err(ScheduleError::InstanceNotFound),
                }
            },
            InstanceSelector::ExitIp(exit_ip) => {
                let filter = Filter::ServingOrStandbyWithExit(exit_ip);
                match self.best_candidate(&filter) {
                    Some(slot) => Ok(self.lease(slot)),
                    None => Err(ScheduleError::InstanceNotFound),
                }
            },
            InstanceSelector::Group(group) => {
                let serving = Filter::ServingInGroup(group.clone());
                match self.best_candidate(&serving) {
                    Some(slot) => Ok(self.lease(slot)),
                    None => {
                        if self.config.standby_fallback {
                            let standby = Filter::StandbyInGroup(group);
                            match self.best_candidate(&standby) {
                                Some(slot) => Ok(self.lease(slot)),
                                None => Err(ScheduleError::NoServingInstanceInGroup),
                            }
                        } else {
                            Err(ScheduleError::NoServingInstanceInGroup)
                        }
                    },
                }
            },
        }
    }

    /// Ends a connection: its member has one live connection fewer.
    pub fn release(&mut self, lease: ConnectionLease)
        ensures
            final(self).spec_cursor() == old(self).spec_cursor(),
            final(self).spec_config() == old(self).spec_config(),
            released(old(self).spec_members(), final(self).spec_members(), lease.spec_slot()),
    {
        proof {
            use_type_invariant(&*self);
        }
        let ghost before = self.members@;
        if lease.slot < self.members.len() {
            let mut members: Vec<PoolMember> = Vec::new();
            std::mem::swap(&mut members, &mut self.members);
            let current = members[lease.slot].active_connections;
            let next = if current > 0 {
                current - 1
            } else {
                0
            };
            members[lease.slot].active_connections = next;
            proof {
                lemma_memberships_kept(before, members@, lease.slot as int);
            }
            self.members = members;
        }
    }
}

/// Prefix counts never exceed the whole count.
proof fn lemma_count_prefix_bounded(s: Seq<PoolMembershipPreference>, i: int)
    requires
        0 <= i <= s.len(),
    ensures
        count_serving(s.take(i)) <= count_serving(s),
    decreases s.len() - i,
{
    if i < s.len() {
        lemma_count_prefix_bounded(s, i + 1);
        assert(s.take(i + 1).drop_last() == s.take(i));
    } else {
        assert(s.take(i) == s);
    }
}

/// An explicit selector as values.
pub enum SpecSelector {
    Id(Seq<char>),
    ExitIp(Seq<char>),
    Group(Seq<char>),
}

/// The value of a selector.
pub open spec fn selector_view(selector: InstanceSelector) -> SpecSelector {
    match selector {
        InstanceSelector::Id(id) => SpecSelector::Id(id@),
        InstanceSelector::ExitIp(ip) => SpecSelector::ExitIp(ip@),
        InstanceSelector::Group(g) => SpecSelector::Group(g@),
    }
}

/// The slot a scheduling result leased, or its error.
pub open spec fn slot_result(r: Result<ConnectionLease, ScheduleError>) -> Result<int, ScheduleError> {
    match r {
        Ok(lease) => Ok(lease.spec_slot()),
        Err(e) => Err(e),
    }
}

/// What an explicit selection decides, selector by selector.
pub open spec fn selection_matches(
    members: Seq<PoolMember>,
    config: PoolConfig,
    selector: SpecSelector,
    r: Result<int, ScheduleError>,
) -> bool {
    match selector {
        SpecSelector::Id(id) => match r {
            Ok(slot) => is_first(members, SpecFilter::ServingOrStandbyWithId(id), slot),
            Err(e) => e == ScheduleError::InstanceNotFound && !any_admitted(
                members,
                SpecFilter::ServingOrStandbyWithId(id),
            ),
        },
        SpecSelector::ExitIp(ip) => match r {
            Ok(slot) => is_best(members, SpecFilter::ServingOrStandbyWithExit(ip), slot),
            Err(e) => e == ScheduleError::InstanceNotFound && !any_admitted(
                members,
                SpecFilter::ServingOrStandbyWithExit(ip),
            ),
        },
        SpecSelector::Group(g) => match r {
            Ok(slot) => is_best(members, SpecFilter::ServingInGroup(g), slot) || (!any_admitted(
                members,
                SpecFilter::ServingInGroup(g),
            ) && config.standby_fallback && is_best(members, SpecFilter::StandbyInGroup(g), slot)),
            Err(e) => e == ScheduleError::NoServingInstanceInGroup && !any_admitted(
                members,
                SpecFilter::ServingInGroup(g),
            ) && (!config.standby_fallback || !any_admitted(
                members,
                SpecFilter::StandbyInGroup(g),
            )),
        },
    }
}

/// What automatic scheduling decides.
pub open spec fn auto_matches(members: Seq<PoolMember>, cursor: int, r: Result<int, ScheduleError>) -> bool {
    match r {
        Ok(slot) => is_auto_best(members, cursor, slot),
        Err(e) => e == ScheduleError::NoServingInstance && !any_admitted(
            members,
            SpecFilter::Serving,
        ),
    }
}

/// Connection Binding law: releasing the lease of a connection just scheduled
/// gives every member back its previous connection count.
pub proof fn law_release_undoes_lease(
    before: Seq<PoolMember>,
    during: Seq<PoolMember>,
    after: Seq<PoolMember>,
    slot: int,
)
    requires
        leased(before, during, slot),
        released(during, after, slot),
    ensures
        after =~= before,
{
    assert forall|k: int| 0 <= k < before.len() implies #[trigger] after[k] == before[k] by {
        if k == slot {
            assert(after[k].active_connections == before[k].active_connections);
        }
    }
}

/// Pool Scheduling law: an automatic schedule only ever picks a serving instance,
/// and no serving instance has fewer active connections than the one picked.
pub proof fn law_auto_schedule_prefers_least_loaded(
    members: Seq<PoolMember>,
    cursor: int,
    slot: int,
    other: int,
)
    requires
        is_auto_best(members, cursor, slot),
        0 <= other < members.len(),
        members[other].pool_membership == PoolMembershipPreference::Serving,
    ensures
        members[slot].pool_membership == PoolMembershipPreference::Serving,
        members[slot].active_connections <= members[other].active_connections,
{
    assert(admits(SpecFilter::Serving, members[other]));
}

/// Instance Selector law: a group selector picks a serving instance of that
/// group; it reaches a standby instance of the group only when standby fallback
/// is enabled and the group has no serving instance. Any selector only picks an
/// instance in the Serving or Standby Pool.
pub proof fn law_group_selection_falls_back_only_when_allowed(
    members: Seq<PoolMember>,
    config: PoolConfig,
    selector: SpecSelector,
    slot: int,
)
    requires
        selection_matches(members, config, selector, Ok(slot)),
    ensures
        0 <= slot < members.len(),
        members[slot].pool_membership == PoolMembershipPreference::Serving
            || members[slot].pool_membership == PoolMembershipPreference::Standby,
        selector matches SpecSelector::Group(g) ==> {
            &&& members[slot].instance.group@ == g
            &&& members[slot].pool_membership == PoolMembershipPreference::Standby ==> {
                &&& config.standby_fallback
                &&& !any_admitted(members, SpecFilter::ServingInGroup(g))
            }
        },
{
}

/// Pool Scheduling law: round-robin breaks ties. After an automatic schedule
/// picked `slot`, the next automatic schedule, on members with the same
/// memberships and connection counts, does not pick `slot` again while another
/// serving member has as few connections.
pub proof fn law_ties_rotate(
    members: Seq<PoolMember>,
    cursor: int,
    slot: int,
    next: Seq<PoolMember>,
    other: int,
    picked: int,
)
    requires
        is_auto_best(members, cursor, slot),
        next.len() == members.len(),
        forall|k: int|
            0 <= k < members.len() ==> (#[trigger] next[k]).pool_membership
                == members[k].pool_membership && next[k].active_connections
                == members[k].active_connections,
        0 <= other < members.len(),
        other != slot,
        members[other].pool_membership == PoolMembershipPreference::Serving,
        members[other].active_connections == members[slot].active_connections,
        is_auto_best(next, slot + 1, picked),
    ensures
        picked != slot,
{
    assert(admits(SpecFilter::Serving, next[other]));
    assert(next[other].active_connections == members[other].active_connections);
    assert(next[slot].active_connections == members[slot].active_connections);
}

/// Instance Selector law: an `exit:` selector reaches every instance in the
/// Serving or the Standby Pool whose Exit IP it names. It succeeds exactly when
/// such an instance exists, picks one of them with the fewest active
/// connections, and otherwise fails with `InstanceNotFound`.
pub proof fn law_exit_selector_reaches_serving_and_standby(
    members: Seq<PoolMember>,
    config: PoolConfig,
    ip: Seq<char>,
    r: Result<int, ScheduleError>,
)
    requires
        selection_matches(members, config, SpecSelector::ExitIp(ip), r),
    ensures
        r is Ok <==> exists|j: int|
            0 <= j < members.len() && ((#[trigger] members[j]).pool_membership
                == PoolMembershipPreference::Serving || members[j].pool_membership
                == PoolMembershipPreference::Standby) && exit_of(members[j].instance) == Some(ip),
        r matches Ok(s) ==> {
            &&& 0 <= s < members.len()
            &&& members[s].pool_membership == PoolMembershipPreference::Serving
                || members[s].pool_membership == PoolMembershipPreference::Standby
            &&& exit_of(members[s].instance) == Some(ip)
            &&& forall|j: int|
                0 <= j < members.len() && ((#[trigger] members[j]).pool_membership
                    == PoolMembershipPreference::Serving || members[j].pool_membership
                    == PoolMembershipPreference::Standby) && exit_of(members[j].instance) == Some(ip)
                    ==> members[s].active_connections <= members[j].active_connections
        },
        r matches Err(e) ==> e == ScheduleError::InstanceNotFound,
{
    let f = SpecFilter::ServingOrStandbyWithExit(ip);
    if r is Ok {
        let s = r->Ok_0;
        assert forall|j: int|
            0 <= j < members.len() && ((#[trigger] members[j]).pool_membership
                == PoolMembershipPreference::Serving || members[j].pool_membership
                == PoolMembershipPreference::Standby) && exit_of(members[j].instance) == Some(ip)
                implies members[s].active_connections <= members[j].active_connections by {
            assert(admits(f, members[j]));
        }
        assert(admits(f, members[s]));
    } else {
        assert forall|j: int|
            0 <= j < members.len() && ((#[trigger] members[j]).pool_membership
                == PoolMembershipPreference::Serving || members[j].pool_membership
                == PoolMembershipPreference::Standby) implies exit_of(members[j].instance) != Some(
            ip,
        ) by {
            assert(!admits(f, members[j]));
        }
    }
}

} // verus!
