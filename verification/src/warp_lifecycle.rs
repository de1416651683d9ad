//! The Registration Lifecycle: creating Public WARP Registrations within the
//! Registration Budget, under the Retry Discipline.
use vstd::prelude::*;

use crate::public_warp_adapter::{PublicWarpAdapterConfig, mock_kind};
use crate::retry::{KindView, OperationKind, RetryDiscipline, RetryError, SpecOutcome, next_retry_spec, others_unchanged, success_effect};
use crate::state_store::{InstanceLifecycleState, PoolMembershipPreference, StoredWarpInstance, identity_failure};
use crate::text::{copy_string, opt_view};

verus! {

/// What a new Public WARP Registration is created for.
#[derive(Debug, Clone, PartialEq, Eq)]
pub struct PublicRegistrationRequest {
    pub group: String,
    pub label: Option<String>,
}

/// A WARP Registration the public service granted: its raw material and the
/// normalized adapter configuration.
#[derive(Clone, PartialEq, Eq)]
pub struct PublicRegistration {
    pub registration_material: String,
    pub adapter_config: PublicWarpAdapterConfig,
}

/// The identity and group of a persisted new WARP Instance.
#[derive(Debug, Clone, PartialEq, Eq)]
pub struct CreatedRegistration {
    pub instance_id: String,
    pub group: String,
}

/// Why no WARP Registration was created.
#[derive(Debug, Clone, PartialEq, Eq)]
pub enum RegistrationError {
    BudgetExceeded,
    Blocked(String),
    Unsupported(String),
    Transient(String),
    Store(String),
}

/// Something that can ask the public WARP service for a registration.
pub trait RegistrationClient {
    /// Whether `answer` is an answer the client, as it stands, may give to
    /// `request`.
    spec fn answers(
        &self,
        request: PublicRegistrationRequest,
        answer: Result<PublicRegistration, RegistrationError>,
    ) -> bool;

    /// Asks for a registration; the answer is one the client may give.
    fn create_public_registration(&mut self, request: &PublicRegistrationRequest) -> (r: Result<
        PublicRegistration,
        RegistrationError,
    >)
        ensures
            old(self).answers(*request, r),
    ;
}

/// Creates WARP Registrations within a budget, keeping the registration retry
/// state.
pub struct RegistrationService<C> {
    client: C,
    registration_budget: u16,
    retry: RetryDiscipline,
}

/// A client that always answers with the same outcome.
pub struct MockRegistrationClient {
    outcome: Result<PublicRegistration, RegistrationError>,
}

/// A registration error as values.
pub enum SpecRegistrationError {
    BudgetExceeded,
    Blocked(Seq<char>),
    Unsupported(Seq<char>),
    Transient(Seq<char>),
    Store(Seq<char>),
}

/// A registration error as values.
pub open spec fn error_view(e: RegistrationError) -> SpecRegistrationError {
    match e {
        RegistrationError::BudgetExceeded => SpecRegistrationError::BudgetExceeded,
        RegistrationError::Blocked(s) => SpecRegistrationError::Blocked(s@),
        RegistrationError::Unsupported(s) => SpecRegistrationError::Unsupported(s@),
        RegistrationError::Transient(s) => SpecRegistrationError::Transient(s@),
        RegistrationError::Store(s) => SpecRegistrationError::Store(s@),
    }
}

/// The registration retry state after a failure was recorded: blocked with the
/// reason, or one more attempt when the failure was transient and the kind was
/// not blocked.
pub open spec fn registration_failure_recorded(
    before: RetryDiscipline,
    after: RetryDiscipline,
    blocks: bool,
    reason: Seq<char>,
) -> bool {
    let st = before.kind_view(OperationKind::Registration);
    let now = after.kind_view(OperationKind::Registration);
    &&& others_unchanged(before, after, OperationKind::Registration)
    &&& now.in_flight == st.in_flight && now.limit == st.limit
    &&& if blocks {
        now.blocked == Some(reason) && now.attempts == st.attempts
    } else if st.blocked is Some {
        now == st
    } else {
        now.blocked is None && now.attempts == st.attempts + 1
    }
}

/// The WARP Instance persisted for a granted registration: a new enabled Standby
/// instance in the Registered state, carrying the request's group and label and
/// the registration's material and adapter configuration.
pub open spec fn registered_instance(
    inst: StoredWarpInstance,
    request: PublicRegistrationRequest,
    registration: PublicRegistration,
) -> bool {
    &&& inst.instance_id@.len() == 36
    &&& inst.group@ == request.group@
    &&& opt_view(inst.label) == opt_view(request.label)
    &&& inst.enabled
    &&& inst.last_observed_exit_ip is None
    &&& inst.pool_membership_preference == PoolMembershipPreference::Standby
    &&& inst.lifecycle_state == InstanceLifecycleState::Registered
    &&& inst.material_view() == registration.registration_material@
    &&& inst.adapter_config == registration.adapter_config
    &&& inst.recent_error is None
}

/// What the service does with the public service's answer: a granted
/// registration clears the retry state and yields the instance to persist; a
/// rejection or an unsupported answer blocks registration; a transient failure
/// is recorded for backoff; other errors pass through unrecorded.
pub open spec fn registration_effect(
    before: RetryDiscipline,
    after: RetryDiscipline,
    request: PublicRegistrationRequest,
    answer: Result<PublicRegistration, RegistrationError>,
    r: Result<StoredWarpInstance, RegistrationError>,
) -> bool {
    match answer {
        Ok(registration) => {
            &&& success_effect(before, after, OperationKind::Registration)
            &&& match r {
                Ok(inst) => registered_instance(inst, request, registration),
                Err(e) => e matches RegistrationError::Store(m) && identity_failure(m@),
            }
        },
        Err(e) => {
            &&& r matches Err(re) && error_view(re) == error_view(e)
            &&& match e {
                RegistrationError::Blocked(reason) => registration_failure_recorded(
                    before,
                    after,
                    true,
                    reason@,
                ),
                RegistrationError::Unsupported(reason) => registration_failure_recorded(
                    before,
                    after,
                    true,
                    reason@,
                ),
                RegistrationError::Transient(reason) => registration_failure_recorded(
                    before,
                    after,
                    false,
                    reason@,
                ),
                _ => after == before,
            }
        },
    }
}

/// Room for one more transient registration failure in the retry state.
pub open spec fn can_record_transient(retry: RetryDiscipline) -> bool {
    retry.kind_view(OperationKind::Registration).blocked is None ==> retry.kind_view(
        OperationKind::Registration,
    ).attempts < u32::MAX
}

impl RegistrationError {
    /// A copy of the error.
    pub fn duplicate(&self) -> (r: Self)
        ensures
            error_view(r) == error_view(*self),
    {
        match self {
            RegistrationError::BudgetExceeded => RegistrationError::BudgetExceeded,
            RegistrationError::Blocked(s) => RegistrationError::Blocked(copy_string(s)),
            RegistrationError::Unsupported(s) => RegistrationError::Unsupported(copy_string(s)),
            RegistrationError::Transient(s) => RegistrationError::Transient(copy_string(s)),
            RegistrationError::Store(s) => RegistrationError::Store(copy_string(s)),
        }
    }
}

impl PublicRegistrationRequest {
    /// A request for the `default` group without a label.
    pub fn default_request() -> (r: Self)
        ensures
            r.group@ == seq!['d', 'e', 'f', 'a', 'u', 'l', 't'],
            r.label is None,
    {
        let group = String::from_str("default");
        proof {
            reveal_strlit("default");
        }
        PublicRegistrationRequest { group, label: None }
    }
}

impl Default for PublicRegistrationRequest {
    fn default() -> (r: Self)
        ensures
            r.group@ == seq!['d', 'e', 'f', 'a', 'u', 'l', 't'],
            r.label is None,
    {
        PublicRegistrationRequest::default_request()
    }
}

impl PublicRegistration {
    /// A copy of the registration.
    pub fn duplicate(&self) -> (r: Self)
        ensures
            r.registration_material@ == self.registration_material@,
            r.adapter_config.kind@ == self.adapter_config.kind@,
            r.adapter_config.version == self.adapter_config.version,
            r.adapter_config.config_view() == self.adapter_config.config_view(),
    {
        PublicRegistration {
            registration_material: copy_string(&self.registration_material),
            adapter_config: self.adapter_config.duplicate(),
        }
    }
}

/// Applies the public service's answer to the registration retry state and
/// builds the WARP Instance to persist when a registration was granted.
pub fn apply_registration_answer(
    retry: &mut RetryDiscipline,
    request: PublicRegistrationRequest,
    answer: Result<PublicRegistration, RegistrationError>,
) -> (r: Result<StoredWarpInstance, RegistrationError>)
    requires
        can_record_transient(*old(retry)),
    ensures
        registration_effect(*old(retry), *final(retry), request, answer, r),
{
    match answer {
        Ok(registration) => {
            retry.record_success(OperationKind::Registration);
            match StoredWarpInstance::new_with_adapter(
                request.group.as_str(),
                None,
                PoolMembershipPreference::Standby,
                InstanceLifecycleState::Registered,
                registration.registration_material.as_str(),
                registration.adapter_config,
            ) {
                Ok(mut instance) => {
                    instance.label = request.label;
                    Ok(instance)
                },
                Err(m) => Err(RegistrationError::Store(m)),
            }
        },
        Err(RegistrationError::Blocked(reason)) => {
            retry.record_failure(
                OperationKind::Registration,
                RetryError::Blocked(copy_string(&reason)),
            );
            Err(RegistrationError::Blocked(reason))
        },
        Err(RegistrationError::Unsupported(reason)) => {
            retry.record_failure(
                OperationKind::Registration,
                RetryError::Unsupported(copy_string(&reason)),
            );
            Err(RegistrationError::Unsupported(reason))
        },
        Err(RegistrationError::Transient(reason)) => {
            retry.record_failure(
                OperationKind::Registration,
                RetryError::Transient(copy_string(&reason)),
            );
            Err(RegistrationError::Transient(reason))
        },
        Err(error) => Err(error),
    }
}

impl<C> RegistrationService<C> {
    /// The budget the service enforces.
    pub closed spec fn spec_budget(self) -> u16 {
        self.registration_budget
    }

    /// The registration retry state.
    pub closed spec fn spec_retry(self) -> RetryDiscipline {
        self.retry
    }

    /// The client the service asks.
    pub closed spec fn spec_client(self) -> C {
        self.client
    }

    /// The registration retry state.
    pub fn retry_state(&self) -> (r: &RetryDiscipline)
        ensures
            *r == self.spec_retry(),
    {
        &self.retry
    }
}

impl<C: RegistrationClient> RegistrationService<C> {
    /// A service with the default retry policy and no failures recorded.
    pub fn new(client: C, registration_budget: u16) -> (r: Self)
        ensures
            r.spec_client() == client,
            r.spec_budget() == registration_budget,
            r.spec_retry().kind_view(OperationKind::Registration) == (KindView {
                attempts: 0,
                blocked: None,
                in_flight: 0,
                limit: 1,
            }),
    {
        RegistrationService { client, registration_budget, retry: RetryDiscipline::default() }
    }

    /// Creates a Public WARP Registration when the `existing_instances` already in
    /// the State Store leave room in the Registration Budget; the budget is a hard
    /// limit, checked before the public service is asked. Returns the WARP
    /// Instance to persist.
    pub fn create_public_registration(
        &mut self,
        existing_instances: usize,
        request: PublicRegistrationRequest,
    ) -> (r: Result<StoredWarpInstance, RegistrationError>)
        requires
            can_record_transient(old(self).spec_retry()),
        ensures
            final(self).spec_budget() == old(self).spec_budget(),
            existing_instances >= old(self).spec_budget() ==> {
                &&& r matches Err(e) && e == RegistrationError::BudgetExceeded
                &&& final(self).spec_retry() == old(self).spec_retry()
                &&& final(self).spec_client() == old(self).spec_client()
            },
            existing_instances < old(self).spec_budget() ==> exists|
                answer: Result<PublicRegistration, RegistrationError>,
            |
                #[trigger] old(self).spec_client().answers(request, answer) && registration_effect(
                    old(self).spec_retry(),
                    final(self).spec_retry(),
                    request,
                    answer,
                    r,
                ),
            r is Ok ==> existing_instances < old(self).spec_budget(),
    {
        if existing_instances >= self.registration_budget as usize {
            return Err(RegistrationError::BudgetExceeded);
        }
        let answer = self.client.create_public_registration(&request);
        let ghost a = answer;
        let r = apply_registration_answer(&mut self.retry, request, answer);
        assert(old(self).spec_client().answers(request, a));
        assert(registration_effect(old(self).spec_retry(), self.spec_retry(), request, a, r));
        r
    }
}

impl MockRegistrationClient {
    /// A client whose registrations always succeed with this material and the
    /// mock adapter.
    pub fn succeeds(registration_material: &str) -> (r: Self)
        ensures
            r.spec_outcome() matches Ok(reg) && reg.registration_material@
                == registration_material@ && reg.adapter_config.kind@ == mock_kind()
                && reg.adapter_config.version == 1 && reg.adapter_config.config_view() == seq![
                '{',
                '}',
            ],
    {
        MockRegistrationClient {
            outcome: Ok(
                PublicRegistration {
                    registration_material: String::from_str(registration_material),
                    adapter_config: PublicWarpAdapterConfig::mock(),
                },
            ),
        }
    }

    /// A client the public service always rejects.
    pub fn blocked(reason: &str) -> (r: Self)
        ensures
            r.spec_outcome() matches Err(e) && error_view(e) == SpecRegistrationError::Blocked(
                reason@,
            ),
    {
        MockRegistrationClient { outcome: Err(RegistrationError::Blocked(String::from_str(reason))) }
    }

    /// A client that always fails transiently.
    pub fn transient(reason: &str) -> (r: Self)
        ensures
            r.spec_outcome() matches Err(e) && error_view(e) == SpecRegistrationError::Transient(
                reason@,
            ),
    {
        MockRegistrationClient {
            outcome: Err(RegistrationError::Transient(String::from_str(reason))),
        }
    }

    /// A client that always gets an answer it cannot use.
    pub fn unsupported(reason: &str) -> (r: Self)
        ensures
            r.spec_outcome() matches Err(e) && error_view(e) == SpecRegistrationError::Unsupported(
                reason@,
            ),
    {
        MockRegistrationClient {
            outcome: Err(RegistrationError::Unsupported(String::from_str(reason))),
        }
    }

    /// The outcome the client answers with.
    pub closed spec fn spec_outcome(self) -> Result<PublicRegistration, RegistrationError> {
        self.outcome
    }
}

impl Clone for MockRegistrationClient {
    fn clone(&self) -> (r: Self)
        ensures
            match (r.spec_outcome(), self.spec_outcome()) {
                (Ok(a), Ok(b)) => a.registration_material@ == b.registration_material@,
                (Err(a), Err(b)) => error_view(a) == error_view(b),
                _ => false,
            },
    {
        let outcome = match &self.outcome {
            Ok(registration) => Ok(registration.duplicate()),
            Err(error) => Err(error.duplicate()),
        };
        MockRegistrationClient { outcome }
    }
}

/// Whether two outcomes hold the same values: the same registration material
/// and adapter configuration, or the same error.
pub open spec fn same_outcome(
    a: Result<PublicRegistration, RegistrationError>,
    b: Result<PublicRegistration, RegistrationError>,
) -> bool {
    match (a, b) {
        (Ok(x), Ok(y)) => x.registration_material@ == y.registration_material@
            && x.adapter_config.kind@ == y.adapter_config.kind@ && x.adapter_config.version
            == y.adapter_config.version && x.adapter_config.config_view()
            == y.adapter_config.config_view(),
        (Err(x), Err(y)) => error_view(x) == error_view(y),
        _ => false,
    }
}

impl RegistrationClient for MockRegistrationClient {
    /// The mock answers every request with its one outcome.
    open spec fn answers(
        &self,
        request: PublicRegistrationRequest,
        answer: Result<PublicRegistration, RegistrationError>,
    ) -> bool {
        same_outcome(answer, self.spec_outcome())
    }

    fn create_public_registration(&mut self, _request: &PublicRegistrationRequest) -> (r: Result<
        PublicRegistration,
        RegistrationError,
    >)
        ensures
            final(self).spec_outcome() == old(self).spec_outcome(),
    {
        match &self.outcome {
            Ok(registration) => Ok(registration.duplicate()),
            Err(error) => Err(error.duplicate()),
        }
    }
}

/// Registration Budget law, for an answer the public service gave within the
/// budget: a granted registration becomes a new enabled Standby instance in the
/// Registered state, with the request's group and label, no Exit IP, and a
/// cleared retry state (unless no identity could be drawn, a Store error); a
/// transient failure of a registration that was not blocked leaves it waiting
/// for a retry; a refusal blocks automatic retries with its reason.
pub proof fn law_registration_answer_applied(
    before: RetryDiscipline,
    after: RetryDiscipline,
    request: PublicRegistrationRequest,
    answer: Result<PublicRegistration, RegistrationError>,
    r: Result<StoredWarpInstance, RegistrationError>,
)
    requires
        registration_effect(before, after, request, answer, r),
    ensures
        r matches Ok(c) ==> {
            &&& answer matches Ok(registration) && registered_instance(c, request, registration)
            &&& c.group@ == request.group@
            &&& opt_view(c.label) == opt_view(request.label)
            &&& c.lifecycle_state == InstanceLifecycleState::Registered
            &&& c.pool_membership_preference == PoolMembershipPreference::Standby
            &&& c.last_observed_exit_ip is None
            &&& next_retry_spec(after.spec_policy(), after.kind_view(OperationKind::Registration))
                == SpecOutcome::Ready
        },
        r matches Err(RegistrationError::Transient(_)) && before.kind_view(
            OperationKind::Registration,
        ).blocked is None ==> next_retry_spec(
            after.spec_policy(),
            after.kind_view(OperationKind::Registration),
        ) is RetryAfter,
        r matches Err(RegistrationError::Blocked(m)) ==> next_retry_spec(
            after.spec_policy(),
            after.kind_view(OperationKind::Registration),
        ) == SpecOutcome::Blocked(m@),
        r matches Err(RegistrationError::Unsupported(m)) ==> next_retry_spec(
            after.spec_policy(),
            after.kind_view(OperationKind::Registration),
        ) == SpecOutcome::Blocked(m@),
{
}

} // verus!
