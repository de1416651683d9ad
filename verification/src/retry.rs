//! Retry Discipline: bounded exponential backoff with jitter, per-Operation-Kind
//! retry state, blocking on permanent policy failures, and per-kind
//! concurrency limits.
use vstd::prelude::*;
use vstd::arithmetic::power2::{lemma_pow2_strictly_increases, lemma_pow2_unfold, pow2};

use crate::text::{copy_string, opt_view};

verus! {

/// Nanoseconds in one second.
pub const NANOS_PER_SEC: u128 = 1_000_000_000;

/// The longest duration: `u64::MAX` seconds and 999 999 999 nanoseconds.
pub const MAX_NANOS: u128 = 18_446_744_073_709_551_615_999_999_999;

/// A span of time with nanosecond precision, ordered by its length.
#[derive(Debug, Clone, Copy, PartialEq, Eq, PartialOrd, Ord, Hash)]
pub struct Duration {
    nanos: u128,
}

impl View for Duration {
    type V = nat;

    /// The length in nanoseconds.
    closed spec fn view(&self) -> nat {
        self.nanos as nat
    }
}

impl Duration {
    #[verifier::type_invariant]
    spec fn bounded(self) -> bool {
        self.nanos <= MAX_NANOS
    }

    /// A duration of `nanos` nanoseconds.
    pub fn from_nanos(nanos: u64) -> (d: Self)
        ensures
            d@ == nanos,
    {
        Duration { nanos: nanos as u128 }
    }

    /// A duration of `millis` milliseconds.
    pub fn from_millis(millis: u64) -> (d: Self)
        ensures
            d@ == millis * 1_000_000,
    {
        assert((millis as u128) * 1_000_000 <= MAX_NANOS) by (nonlinear_arith)
            requires
                millis <= u64::MAX,
        ;
        Duration { nanos: (millis as u128) * 1_000_000 }
    }

    /// A duration of `secs` seconds.
    pub fn from_secs(secs: u64) -> (d: Self)
        ensures
            d@ == secs * NANOS_PER_SEC,
    {
        assert((secs as u128) * NANOS_PER_SEC <= MAX_NANOS) by (nonlinear_arith)
            requires
                secs <= u64::MAX,
        ;
        Duration { nanos: (secs as u128) * NANOS_PER_SEC }
    }

    /// The length in nanoseconds; never more than the longest duration.
    pub fn as_nanos(&self) -> (r: u128)
        ensures
            r == self@,
            r <= MAX_NANOS,
    {
        proof {
            use_type_invariant(self);
        }
        self.nanos
    }

    /// The whole seconds of the duration.
    pub fn as_secs(&self) -> (r: u64)
        ensures
            r == self@ / (NANOS_PER_SEC as nat),
    {
        let n = self.as_nanos();
        assert(n / NANOS_PER_SEC <= u64::MAX) by (nonlinear_arith)
            requires
                n <= MAX_NANOS,
        ;
        (n / NANOS_PER_SEC) as u64
    }

    /// The nanoseconds past the whole seconds.
    pub fn subsec_nanos(&self) -> (r: u32)
        ensures
            r == self@ % (NANOS_PER_SEC as nat),
    {
        let n = self.as_nanos();
        (n % NANOS_PER_SEC) as u32
    }
}

/// The families of operations that keep separate retry state and limits.
#[derive(Debug, Clone, Copy, PartialEq, Eq, Hash, Structural)]
pub enum OperationKind {
    Registration,
    Connection,
    ExitProbe,
    HealthCheck,
}

/// A failed operation: transient failures are retried with backoff; policy
/// rejections and unsupported responses block the kind until it succeeds.
#[derive(Debug, Clone, PartialEq, Eq)]
pub enum RetryError {
    Transient(String),
    Blocked(String),
    Unsupported(String),
}

/// What an operation kind may do next.
#[derive(Debug, Clone, PartialEq, Eq)]
pub enum OperationOutcome {
    Ready,
    RetryAfter(Duration),
    Blocked(String),
}

/// An outcome as values.
pub enum SpecOutcome {
    Ready,
    RetryAfter(nat),
    Blocked(Seq<char>),
}

/// Backoff and concurrency settings.
#[derive(Debug, Clone, PartialEq, Eq)]
pub struct RetryPolicy {
    pub base_delay: Duration,
    pub max_delay: Duration,
    pub jitter: Duration,
    pub max_registration_concurrency: usize,
    pub max_connection_concurrency: usize,
    pub max_probe_concurrency: usize,
}

/// The retry state of one operation kind, as values.
pub struct KindView {
    pub attempts: nat,
    pub blocked: Option<Seq<char>>,
    pub in_flight: nat,
    pub limit: nat,
}

struct KindState {
    attempts: u32,
    blocked: Option<String>,
    in_flight: usize,
    limit: usize,
}

/// Retry state and concurrency limits for every operation kind.
pub struct RetryDiscipline {
    policy: RetryPolicy,
    registration: KindState,
    connection: KindState,
    exit_probe: KindState,
    health_check: KindState,
}

/// The right to run one operation of a kind, handed back by `release`.
#[derive(Debug)]
pub struct ConcurrencyPermit {
    kind: OperationKind,
}

/// Why a permit was refused.
#[derive(Debug, Clone, Copy, PartialEq, Eq, Structural)]
pub enum ConcurrencyError {
    LimitReached,
}

/// An outcome as values.
pub open spec fn outcome_view(o: OperationOutcome) -> SpecOutcome {
    match o {
        OperationOutcome::Ready => SpecOutcome::Ready,
        OperationOutcome::RetryAfter(d) => SpecOutcome::RetryAfter(d@),
        OperationOutcome::Blocked(reason) => SpecOutcome::Blocked(reason@),
    }
}

/// `2^attempts`, saturated at `u32::MAX`.
pub open spec fn capped_pow2(attempts: nat) -> nat {
    if pow2(attempts) < u32::MAX {
        pow2(attempts)
    } else {
        u32::MAX as nat
    }
}

/// A length in nanoseconds, saturated at the longest duration.
pub open spec fn saturated(n: nat) -> nat {
    if n > MAX_NANOS {
        MAX_NANOS as nat
    } else {
        n
    }
}

/// The backoff after `attempts` earlier transient failures: the base delay times
/// `2^attempts`, capped at the maximum delay, plus the jitter, all saturating.
pub open spec fn retry_delay_nanos(p: RetryPolicy, attempts: nat) -> nat {
    let grown = saturated(p.base_delay@ * capped_pow2(attempts));
    let capped = if grown < p.max_delay@ {
        grown
    } else {
        p.max_delay@
    };
    saturated(capped + p.jitter@)
}

/// The concurrency limit of a kind; both probe kinds use the probe limit.
pub open spec fn limit_for(p: RetryPolicy, kind: OperationKind) -> nat {
    match kind {
        OperationKind::Registration => p.max_registration_concurrency as nat,
        OperationKind::Connection => p.max_connection_concurrency as nat,
        OperationKind::ExitProbe => p.max_probe_concurrency as nat,
        OperationKind::HealthCheck => p.max_probe_concurrency as nat,
    }
}

/// What a kind may do next: blocked with its reason, ready after no failure,
/// otherwise retry after the backoff for its attempts.
pub open spec fn next_retry_spec(p: RetryPolicy, st: KindView) -> SpecOutcome {
    match st.blocked {
        Some(reason) => SpecOutcome::Blocked(reason),
        None => if st.attempts == 0 {
            SpecOutcome::Ready
        } else {
            SpecOutcome::RetryAfter(retry_delay_nanos(p, st.attempts))
        },
    }
}

/// Everything but one kind's state is unchanged.
pub open spec fn others_unchanged(
    before: RetryDiscipline,
    after: RetryDiscipline,
    op: OperationKind,
) -> bool {
    &&& after.spec_policy() == before.spec_policy()
    &&& forall|k: OperationKind| k != op ==> #[trigger] after.kind_view(k) == before.kind_view(k)
}

/// The effect of recording a failure of `op`.
pub open spec fn failure_effect(
    before: RetryDiscipline,
    after: RetryDiscipline,
    op: OperationKind,
    error: RetryError,
    r: OperationOutcome,
) -> bool {
    let st = before.kind_view(op);
    let now = after.kind_view(op);
    &&& others_unchanged(before, after, op)
    &&& now.in_flight == st.in_flight && now.limit == st.limit
    &&& match error {
        RetryError::Transient(_) => match st.blocked {
            Some(reason) => now == st && outcome_view(r) == SpecOutcome::Blocked(reason),
            None => {
                &&& now.blocked is None
                &&& now.attempts == st.attempts + 1
                &&& outcome_view(r) == SpecOutcome::RetryAfter(
                    retry_delay_nanos(before.spec_policy(), st.attempts),
                )
            },
        },
        RetryError::Blocked(reason) => {
            &&& now.blocked == Some(reason@)
            &&& now.attempts == st.attempts
            &&& outcome_view(r) == SpecOutcome::Blocked(reason@)
        },
        RetryError::Unsupported(reason) => {
            &&& now.blocked == Some(reason@)
            &&& now.attempts == st.attempts
            &&& outcome_view(r) == SpecOutcome::Blocked(reason@)
        },
    }
}

/// The effect of recording a success of `op`: its retry state is cleared.
pub open spec fn success_effect(before: RetryDiscipline, after: RetryDiscipline, op: OperationKind) -> bool {
    let st = before.kind_view(op);
    let now = after.kind_view(op);
    &&& others_unchanged(before, after, op)
    &&& now.attempts == 0 && now.blocked is None
    &&& now.in_flight == st.in_flight && now.limit == st.limit
}

/// The effect of asking for a permit of `op`.
pub open spec fn acquire_effect(
    before: RetryDiscipline,
    after: RetryDiscipline,
    op: OperationKind,
    r: Result<ConcurrencyPermit, ConcurrencyError>,
) -> bool {
    let st = before.kind_view(op);
    let now = after.kind_view(op);
    &&& others_unchanged(before, after, op)
    &&& now.attempts == st.attempts && now.blocked == st.blocked && now.limit == st.limit
    &&& if st.in_flight < st.limit {
        &&& r matches Ok(permit) && permit.spec_kind() == op
        &&& now.in_flight == st.in_flight + 1
    } else {
        r == Err::<ConcurrencyPermit, ConcurrencyError>(ConcurrencyError::LimitReached)
            && now.in_flight == st.in_flight
    }
}

/// The effect of handing back a permit of `op`.
pub open spec fn release_effect(before: RetryDiscipline, after: RetryDiscipline, op: OperationKind) -> bool {
    let st = before.kind_view(op);
    let now = after.kind_view(op);
    &&& others_unchanged(before, after, op)
    &&& now.attempts == st.attempts && now.blocked == st.blocked && now.limit == st.limit
    &&& now.in_flight == if st.in_flight > 0 {
        (st.in_flight - 1) as nat
    } else {
        0
    }
}

impl KindState {
    fn fresh(limit: usize) -> (r: Self)
        ensures
            r.attempts == 0,
            r.blocked is None,
            r.in_flight == 0,
            r.limit == limit,
    {
        KindState { attempts: 0, blocked: None, in_flight: 0, limit }
    }
}

impl ConcurrencyPermit {
    /// The kind the permit belongs to.
    pub closed spec fn spec_kind(self) -> OperationKind {
        self.kind
    }

    /// The kind the permit belongs to.
    pub fn kind(&self) -> (r: OperationKind)
        ensures
            r == self.spec_kind(),
    {
        self.kind
    }
}

impl OperationOutcome {
    /// The backoff, when the outcome is to retry later.
    pub fn retry_after(&self) -> (r: Option<Duration>)
        ensures
            match *self {
                OperationOutcome::RetryAfter(d) => r == Some(d),
                _ => r is None,
            },
    {
        match self {
            OperationOutcome::RetryAfter(delay) => Some(*delay),
            OperationOutcome::Ready => None,
            OperationOutcome::Blocked(_) => None,
        }
    }
}

impl RetryPolicy {
    /// The default policy: 100 ms base delay, 30 s maximum delay, 25 ms jitter,
    /// one registration, eight connections and four probes of each kind at once.
    pub fn default_policy() -> (r: Self)
        ensures
            r.base_delay@ == 100_000_000,
            r.max_delay@ == 30_000_000_000,
            r.jitter@ == 25_000_000,
            r.max_registration_concurrency == 1,
            r.max_connection_concurrency == 8,
            r.max_probe_concurrency == 4,
    {
        RetryPolicy {
            base_delay: Duration::from_millis(100),
            max_delay: Duration::from_secs(30),
            jitter: Duration::from_millis(25),
            max_registration_concurrency: 1,
            max_connection_concurrency: 8,
            max_probe_concurrency: 4,
        }
    }
}

impl Default for RetryPolicy {
    fn default() -> (r: Self)
        ensures
            r.base_delay@ == 100_000_000,
            r.max_delay@ == 30_000_000_000,
            r.jitter@ == 25_000_000,
            r.max_registration_concurrency == 1,
            r.max_connection_concurrency == 8,
            r.max_probe_concurrency == 4,
    {
        RetryPolicy::default_policy()
    }
}

/// `2^attempts`, saturated at `u32::MAX`.
fn saturating_pow2(attempts: u32) -> (r: u32)
    ensures
        r == capped_pow2(attempts as nat),
{
    let mut m: u32 = 1;
    let mut i: u32 = 0;
    proof {
        assert(pow2(0) == 1) by {
            vstd::arithmetic::power2::lemma2_to64();
        }
    }
    while i < attempts && m < u32::MAX
        invariant
            i <= attempts,
            m == capped_pow2(i as nat),
        decreases attempts - i,
    {
        proof {
            lemma_pow2_unfold((i + 1) as nat);
        }
        if m > u32::MAX / 2 {
            m = u32::MAX;
        } else {
            m = m * 2;
        }
        i = i + 1;
    }
    proof {
        if i < attempts {
            lemma_pow2_strictly_increases(i as nat, attempts as nat);
        }
    }
    m
}

/// The backoff after `attempts` earlier transient failures.
fn retry_delay(policy: &RetryPolicy, attempts: u32) -> (d: Duration)
    ensures
        d@ == retry_delay_nanos(*policy, attempts as nat),
{
    let m = saturating_pow2(attempts);
    let base = policy.base_delay.as_nanos();
    assert(base * (m as u128) <= MAX_NANOS * (u32::MAX as u128)) by (nonlinear_arith)
        requires
            base <= MAX_NANOS,
            m <= u32::MAX,
    ;
    let product = base * (m as u128);
    let grown = if product > MAX_NANOS {
        MAX_NANOS
    } else {
        product
    };
    let max = policy.max_delay.as_nanos();
    let capped = if grown < max {
        grown
    } else {
        max
    };
    let sum = capped + policy.jitter.as_nanos();
    let total = if sum > MAX_NANOS {
        MAX_NANOS
    } else {
        sum
    };
    Duration { nanos: total }
}

impl RetryDiscipline {
    spec fn state_of(self, kind: OperationKind) -> KindState {
        match kind {
            OperationKind::Registration => self.registration,
            OperationKind::Connection => self.connection,
            OperationKind::ExitProbe => self.exit_probe,
            OperationKind::HealthCheck => self.health_check,
        }
    }

    /// The retry state of one kind.
    pub closed spec fn kind_view(self, kind: OperationKind) -> KindView {
        let s = self.state_of(kind);
        KindView {
            attempts: s.attempts as nat,
            blocked: opt_view(s.blocked),
            in_flight: s.in_flight as nat,
            limit: s.limit as nat,
        }
    }

    /// The policy the discipline applies.
    pub closed spec fn spec_policy(self) -> RetryPolicy {
        self.policy
    }

    /// No kind has more permits out than its limit.
    pub open spec fn within_limits(self) -> bool {
        forall|k: OperationKind| #[trigger] self.kind_view(k).in_flight <= self.kind_view(k).limit
    }

    /// Each kind's concurrency limit is the maximum its policy sets.
    pub open spec fn limits_follow_policy(self) -> bool {
        forall|k: OperationKind| #[trigger] self.kind_view(k).limit == limit_for(self.spec_policy(), k)
    }

    /// A discipline with no failures, no blocks and no permits out.
    pub fn new(policy: RetryPolicy) -> (r: Self)
        ensures
            r.spec_policy() == policy,
            r.within_limits(),
            r.limits_follow_policy(),
            forall|k: OperationKind|
                (#[trigger] r.kind_view(k)) == (KindView {
                    attempts: 0,
                    blocked: None,
                    in_flight: 0,
                    limit: limit_for(policy, k),
                }),
    {
        let registration = KindState::fresh(policy.max_registration_concurrency);
        let connection = KindState::fresh(policy.max_connection_concurrency);
        let exit_probe = KindState::fresh(policy.max_probe_concurrency);
        let health_check = KindState::fresh(policy.max_probe_concurrency);
        let r = RetryDiscipline { policy, registration, connection, exit_probe, health_check };
        assert forall|k: OperationKind|
            (#[trigger] r.kind_view(k)) == (KindView {
                attempts: 0,
                blocked: None,
                in_flight: 0,
                limit: limit_for(policy, k),
            }) by {
            match k {
                OperationKind::Registration => {},
                OperationKind::Connection => {},
                OperationKind::ExitProbe => {},
                OperationKind::HealthCheck => {},
            }
        }
        r
    }

    fn state(&self, kind: OperationKind) -> (r: &KindState)
        ensures
            *r == self.state_of(kind),
    {
        match kind {
            OperationKind::Registration => &self.registration,
            OperationKind::Connection => &self.connection,
            OperationKind::ExitProbe => &self.exit_probe,
            OperationKind::HealthCheck => &self.health_check,
        }
    }

    fn state_mut(&mut self, kind: OperationKind) -> (r: &mut KindState)
        ensures
            *r == old(self).state_of(kind),
            final(self).policy == old(self).policy,
            final(self).state_of(kind) == *final(r),
            forall|k: OperationKind| k != kind ==> #[trigger] final(self).state_of(k) == old(self).state_of(k),
    {
        match kind {
            OperationKind::Registration => &mut self.registration,
            OperationKind::Connection => &mut self.connection,
            OperationKind::ExitProbe => &mut self.exit_probe,
            OperationKind::HealthCheck => &mut self.health_check,
        }
    }

    /// Records a failed operation. A transient failure of an unblocked kind
    /// counts one more attempt and answers with the backoff for the attempts
    /// before it; a blocked kind stays blocked. A policy rejection or an
    /// unsupported response blocks the kind with its reason.
    pub fn record_failure(&mut self, operation: OperationKind, error: RetryError) -> (r:
        OperationOutcome)
        requires
            error is Transient && old(self).kind_view(operation).blocked is None ==> old(
                self,
            ).kind_view(operation).attempts < u32::MAX,
        ensures
            failure_effect(*old(self), *final(self), operation, error, r),
            old(self).within_limits() ==> final(self).within_limits(),
            old(self).limits_follow_policy() ==> final(self).limits_follow_policy(),
    {
        let ghost before = *self;
        let r = match error {
            RetryError::Blocked(reason) => {
                let st = self.state_mut(operation);
                st.blocked = Some(copy_string(&reason));
                OperationOutcome::Blocked(reason)
            },
            RetryError::Unsupported(reason) => {
                let st = self.state_mut(operation);
                st.blocked = Some(copy_string(&reason));
                OperationOutcome::Blocked(reason)
            },
            RetryError::Transient(_) => {
                let blocked = match &self.state(operation).blocked {
                    Some(reason) => Some(copy_string(reason)),
                    None => None,
                };
                match blocked {
                    Some(reason) => OperationOutcome::Blocked(reason),
                    None => {
                        let attempts = self.state(operation).attempts;
                        let delay = retry_delay(&self.policy, attempts);
                        let st = self.state_mut(operation);
                        st.attempts = attempts + 1;
                        OperationOutcome::RetryAfter(delay)
                    },
                }
            },
        };
        proof {
            assert forall|k: OperationKind| k != operation implies #[trigger] self.kind_view(k)
                == before.kind_view(k) by {
                assert(self.state_of(k) == before.state_of(k));
            }
        }
        r
    }

    /// Records a successful operation: its kind's attempts and block are cleared.
    pub fn record_success(&mut self, operation: OperationKind)
        ensures
            success_effect(*old(self), *final(self), operation),
            old(self).within_limits() ==> final(self).within_limits(),
            old(self).limits_follow_policy() ==> final(self).limits_follow_policy(),
    {
        let ghost before = *self;
        let st = self.state_mut(operation);
        st.attempts = 0;
        st.blocked = None;
        proof {
            assert forall|k: OperationKind| k != operation implies #[trigger] self.kind_view(k)
                == before.kind_view(k) by {
                assert(self.state_of(k) == before.state_of(k));
            }
            assert(self.kind_view(operation).limit == before.kind_view(operation).limit);
            if before.limits_follow_policy() {
                assert forall|k: OperationKind| #[trigger] self.kind_view(k).limit == limit_for(
                    self.spec_policy(),
                    k,
                ) by {
                    assert(before.kind_view(k).limit == limit_for(before.spec_policy(), k));
                }
            }
            if before.within_limits() {
                assert forall|k: OperationKind| #[trigger] self.kind_view(k).in_flight
                    <= self.kind_view(k).limit by {
                    assert(before.kind_view(k).in_flight <= before.kind_view(k).limit);
                }
            }
        }
    }

    /// What a kind may do next.
    pub fn next_retry(&self, operation: OperationKind) -> (r: OperationOutcome)
        ensures
            outcome_view(r) == next_retry_spec(self.spec_policy(), self.kind_view(operation)),
    {
        let st = self.state(operation);
        match &st.blocked {
            Some(reason) => OperationOutcome::Blocked(copy_string(reason)),
            None => if st.attempts == 0 {
                OperationOutcome::Ready
            } else {
                OperationOutcome::RetryAfter(retry_delay(&self.policy, st.attempts))
            },
        }
    }

    /// Whether a kind is blocked.
    pub fn is_blocked(&self, operation: OperationKind) -> (r: bool)
        ensures
            r == self.kind_view(operation).blocked is Some,
    {
        self.state(operation).blocked.is_some()
    }

    /// Asks for a permit of a kind; refused once its limit of permits is out.
    pub fn try_acquire(&mut self, operation: OperationKind) -> (r: Result<
        ConcurrencyPermit,
        ConcurrencyError,
    >)
        ensures
            acquire_effect(*old(self), *final(self), operation, r),
            old(self).within_limits() ==> final(self).within_limits(),
            old(self).limits_follow_policy() ==> final(self).limits_follow_policy(),
    {
        let ghost before = *self;
        let st = self.state_mut(operation);
        let r = if st.in_flight < st.limit {
            st.in_flight = st.in_flight + 1;
            Ok(ConcurrencyPermit { kind: operation })
        } else {
            Err(ConcurrencyError::LimitReached)
        };
        proof {
            assert forall|k: OperationKind| k != operation implies #[trigger] self.kind_view(k)
                == before.kind_view(k) by {
                assert(self.state_of(k) == before.state_of(k));
            }
            if before.limits_follow_policy() {
                assert forall|k: OperationKind| #[trigger] self.kind_view(k).limit == limit_for(
                    self.spec_policy(),
                    k,
                ) by {
                    assert(before.kind_view(k).limit == limit_for(before.spec_policy(), k));
                }
            }
        }
        r
    }

    /// Hands a permit back to its kind.
    pub fn release(&mut self, permit: ConcurrencyPermit)
        ensures
            release_effect(*old(self), *final(self), permit.spec_kind()),
            old(self).within_limits() ==> final(self).within_limits(),
            old(self).limits_follow_policy() ==> final(self).limits_follow_policy(),
    {
        let ghost before = *self;
        let operation = permit.kind;
        let st = self.state_mut(operation);
        if st.in_flight > 0 {
            st.in_flight = st.in_flight - 1;
        }
        proof {
            assert forall|k: OperationKind| k != operation implies #[trigger] self.kind_view(k)
                == before.kind_view(k) by {
                assert(self.state_of(k) == before.state_of(k));
            }
            if before.within_limits() {
                assert forall|k: OperationKind| #[trigger] self.kind_view(k).in_flight
                    <= self.kind_view(k).limit by {
                    assert(before.kind_view(k).in_flight <= before.kind_view(k).limit);
                }
            }
        }
    }

    /// The policy the discipline applies.
    pub fn policy(&self) -> (r: &RetryPolicy)
        ensures
            *r == self.spec_policy(),
    {
        &self.policy
    }
}

impl Default for RetryDiscipline {
    fn default() -> (r: Self)
        ensures
            r.spec_policy().base_delay@ == 100_000_000,
            r.spec_policy().max_delay@ == 30_000_000_000,
            r.spec_policy().jitter@ == 25_000_000,
            r.within_limits(),
            r.limits_follow_policy(),
            forall|k: OperationKind|
                (#[trigger] r.kind_view(k)) == (KindView {
                    attempts: 0,
                    blocked: None,
                    in_flight: 0,
                    limit: limit_for(r.spec_policy(), k),
                }),
            limit_for(r.spec_policy(), OperationKind::Registration) == 1,
            limit_for(r.spec_policy(), OperationKind::Connection) == 8,
            limit_for(r.spec_policy(), OperationKind::ExitProbe) == 4,
            limit_for(r.spec_policy(), OperationKind::HealthCheck) == 4,
    {
        RetryDiscipline::new(RetryPolicy::default_policy())
    }
}

/// A blocked operation kind stays blocked: whatever failure is recorded next,
/// it answers `Blocked` and keeps a block reason.
pub proof fn law_blocked_kind_stays_blocked(
    before: RetryDiscipline,
    after: RetryDiscipline,
    op: OperationKind,
    error: RetryError,
    r: OperationOutcome,
)
    requires
        failure_effect(before, after, op, error, r),
        before.kind_view(op).blocked is Some,
    ensures
        after.kind_view(op).blocked is Some,
        outcome_view(r) is Blocked,
        next_retry_spec(after.spec_policy(), after.kind_view(op)) is Blocked,
        error is Transient ==> {
            &&& outcome_view(r) == SpecOutcome::Blocked(before.kind_view(op).blocked->0)
            &&& after.kind_view(op) == before.kind_view(op)
        },
{
}

/// Backoff law: a transient failure of a kind that is not blocked waits the
/// delay for the attempts made so far, the delay `next_retry` reported before
/// (where it reported `Ready`, the delay of attempt zero), and counts one more
/// attempt, so the next report is the delay of the following attempt.
pub proof fn law_transient_failure_backs_off(
    before: RetryDiscipline,
    after: RetryDiscipline,
    op: OperationKind,
    error: RetryError,
    r: OperationOutcome,
)
    requires
        failure_effect(before, after, op, error, r),
        error is Transient,
        before.kind_view(op).blocked is None,
    ensures
        outcome_view(r) == SpecOutcome::RetryAfter(
            retry_delay_nanos(before.spec_policy(), before.kind_view(op).attempts),
        ),
        next_retry_spec(before.spec_policy(), before.kind_view(op)) == if before.kind_view(
            op,
        ).attempts == 0 {
            SpecOutcome::Ready
        } else {
            outcome_view(r)
        },
        after.kind_view(op).attempts == before.kind_view(op).attempts + 1,
        after.kind_view(op).blocked is None,
        next_retry_spec(after.spec_policy(), after.kind_view(op)) == SpecOutcome::RetryAfter(
            retry_delay_nanos(after.spec_policy(), before.kind_view(op).attempts + 1),
        ),
{
}

/// Operation kinds keep independent retry state: a failure of one kind changes
/// no other kind.
pub proof fn law_kinds_are_independent(
    before: RetryDiscipline,
    after: RetryDiscipline,
    op: OperationKind,
    other: OperationKind,
    error: RetryError,
    r: OperationOutcome,
)
    requires
        failure_effect(before, after, op, error, r),
        other != op,
    ensures
        after.kind_view(other) == before.kind_view(other),
{
}

/// A success clears the retry state of its kind: the kind is ready again.
pub proof fn law_success_clears_retry_state(
    before: RetryDiscipline,
    after: RetryDiscipline,
    op: OperationKind,
)
    requires
        success_effect(before, after, op),
    ensures
        next_retry_spec(after.spec_policy(), after.kind_view(op)) == SpecOutcome::Ready,
{
}

proof fn lemma_capped_pow2_monotone(a: nat)
    ensures
        capped_pow2(a) <= capped_pow2(a + 1),
{
    lemma_pow2_strictly_increases(a, a + 1);
}

/// Backoff never shrinks as attempts grow, and never exceeds the maximum delay
/// plus the jitter.
pub proof fn law_backoff_is_monotone_and_bounded(p: RetryPolicy, attempts: nat)
    ensures
        retry_delay_nanos(p, attempts) <= retry_delay_nanos(p, attempts + 1),
        retry_delay_nanos(p, attempts) <= saturated(p.max_delay@ + p.jitter@),
{
    lemma_capped_pow2_monotone(attempts);
    let b = p.base_delay@;
    let c1 = capped_pow2(attempts);
    let c2 = capped_pow2(attempts + 1);
    assert(b * c1 <= b * c2) by (nonlinear_arith)
        requires
            c1 <= c2,
    ;
}

/// Handing back a permit right after it was granted restores every kind's state.
pub proof fn law_release_undoes_acquire(
    d0: RetryDiscipline,
    d1: RetryDiscipline,
    d2: RetryDiscipline,
    op: OperationKind,
    permit: ConcurrencyPermit,
)
    requires
        acquire_effect(d0, d1, op, Ok::<ConcurrencyPermit, ConcurrencyError>(permit)),
        release_effect(d1, d2, permit.spec_kind()),
    ensures
        d2.spec_policy() == d0.spec_policy(),
        forall|k: OperationKind| #[trigger] d2.kind_view(k) == d0.kind_view(k),
{
    assert forall|k: OperationKind| #[trigger] d2.kind_view(k) == d0.kind_view(k) by {
        if k != op {
            assert(d1.kind_view(k) == d0.kind_view(k));
        }
    }
}

/// Concurrency law: in a discipline whose limits follow its policy, as every
/// discipline built by `new` and changed only by its methods does, a permit for a
/// kind is granted exactly while fewer than the policy's maximum for that kind
/// are out, and a refusal changes nothing.
pub proof fn law_permits_capped_by_policy(
    before: RetryDiscipline,
    after: RetryDiscipline,
    op: OperationKind,
    r: Result<ConcurrencyPermit, ConcurrencyError>,
)
    requires
        before.limits_follow_policy(),
        acquire_effect(before, after, op, r),
    ensures
        r is Ok <==> before.kind_view(op).in_flight < limit_for(before.spec_policy(), op),
        r is Err ==> forall|k: OperationKind| #[trigger] after.kind_view(k) == before.kind_view(k),
        forall|k: OperationKind| k != op ==> #[trigger] after.kind_view(k) == before.kind_view(k),
        before.within_limits() ==> after.kind_view(op).in_flight <= limit_for(after.spec_policy(), op),
        after.limits_follow_policy(),
{
    assert(before.kind_view(op).limit == limit_for(before.spec_policy(), op));
    assert forall|k: OperationKind| #[trigger] after.kind_view(k).limit == limit_for(
        after.spec_policy(),
        k,
    ) by {
        assert(before.kind_view(k).limit == limit_for(before.spec_policy(), k));
    }
}

/// Concurrency law: handing a permit back frees one slot of its kind, and
/// changes no other kind.
pub proof fn law_release_frees_one_slot(
    before: RetryDiscipline,
    after: RetryDiscipline,
    op: OperationKind,
)
    requires
        release_effect(before, after, op),
        before.kind_view(op).in_flight > 0,
    ensures
        after.kind_view(op).in_flight + 1 == before.kind_view(op).in_flight,
        forall|k: OperationKind| k != op ==> #[trigger] after.kind_view(k) == before.kind_view(k),
{
}

/// Retry Discipline law: once a policy or authorization failure blocked a kind,
/// every later transient failure of that kind answers with the stored reason and
/// changes nothing, until a success clears it.
pub proof fn law_blocked_until_success(
    ds: Seq<RetryDiscipline>,
    op: OperationKind,
    errors: Seq<RetryError>,
    outcomes: Seq<OperationOutcome>,
    reason: Seq<char>,
    i: int,
)
    requires
        ds.len() == errors.len() + 1,
        outcomes.len() == errors.len(),
        forall|k: int|
            0 <= k < errors.len() ==> failure_effect(
                #[trigger] ds[k],
                ds[k + 1],
                op,
                errors[k],
                outcomes[k],
            ),
        ds[0].kind_view(op).blocked == Some(reason),
        forall|k: int| 0 <= k < errors.len() ==> (#[trigger] errors[k]) is Transient,
        0 <= i < errors.len(),
    ensures
        outcome_view(outcomes[i]) == SpecOutcome::Blocked(reason),
        ds[i + 1].kind_view(op) == ds[0].kind_view(op),
        next_retry_spec(ds[i + 1].spec_policy(), ds[i + 1].kind_view(op)) == SpecOutcome::Blocked(
            reason,
        ),
    decreases i,
{
    assert(failure_effect(ds[i], ds[i + 1], op, errors[i], outcomes[i]));
    if i > 0 {
        law_blocked_until_success(ds, op, errors, outcomes, reason, i - 1);
    }
}

} // verus!
