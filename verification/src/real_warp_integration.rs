//! The opt-in full real WARP path harness: behind both integration gates it
//! registers WARP Instances up to the Target Serving Size into an isolated State
//! Store, prepares their BoringTun runtime configurations, and reports sanitized
//! evidence together with the runtime gap that still blocks a full proof.
//!
//! The harness runs as a sequence of steps; its caller does the file and State
//! Store work between them.
use vstd::prelude::*;

use crate::config::{Config, localhost_bind};
use crate::data_plane::{AdapterErrorView, BoringTunDataPlane, DataPlaneInstanceConfig, RuntimeConfigView, adapter_error_view, adapter_view_text, config_outcome, lemma_prepared_instances_by_values, prepared_instances, same_config};
use crate::public_warp_adapter::adapter_error_text;
use crate::direct_public_warp_registration::PublicWarpIntegrationGate;
use crate::public_warp_registration_harness::gate_open;

use crate::security::{redact_sensitive, redacted_text};
use crate::state_store::{StoredWarpInstance, identity_failure};
use crate::text::copy_string;
use crate::warp_lifecycle::{PublicRegistration, PublicRegistrationRequest, RegistrationClient, RegistrationError, RegistrationService, SpecRegistrationError, can_record_transient, error_view, registered_instance, registration_effect};

verus! {

/// Where the harness writes its isolated configuration and State Store.
#[derive(Debug, Clone, PartialEq, Eq)]
pub struct RealWarpFullPathHarnessPaths {
    pub config_path: String,
    pub state_store_path: String,
}

/// How a full-path run ended.
#[derive(Debug, Clone, Copy, PartialEq, Eq, Structural)]
pub enum RealWarpFullPathStatus {
    Skipped,
    Succeeded,
    Failed,
}

/// What kind of failure ended a run.
#[derive(Debug, Clone, Copy, PartialEq, Eq, Structural)]
pub enum RealWarpFullPathFailureClass {
    Registration,
    Store,
    RuntimeUnsupported,
}

/// Non-sensitive evidence of how far the run got.
#[derive(Debug, Clone, PartialEq, Eq)]
pub struct RealWarpFullPathEvidence {
    pub persisted_instance_count: usize,
    pub prepared_runtime_count: usize,
    pub isolated_state_store: bool,
}

/// A classified failure with a sanitized message.
#[derive(Debug, Clone, PartialEq, Eq)]
pub struct RealWarpFullPathFailure {
    pub class: RealWarpFullPathFailureClass,
    pub message: String,
}

/// The report of one full-path run.
#[derive(Debug, Clone, PartialEq, Eq)]
pub struct RealWarpFullPathReport {
    pub status: RealWarpFullPathStatus,
    pub config_path: String,
    pub state_store_path: String,
    pub registration_budget: u16,
    pub skip_reason: Option<String>,
    pub evidence: Option<RealWarpFullPathEvidence>,
    pub failure: Option<RealWarpFullPathFailure>,
}

/// The harness before a run.
pub struct RealWarpFullPathHarness<C> {
    client: C,
    paths: RealWarpFullPathHarnessPaths,
    registration_budget: u16,
    target_serving_size: u16,
}

/// A run waiting for its isolated configuration and State Store.
pub struct FullPathPreparing<C> {
    client: C,
    paths: RealWarpFullPathHarnessPaths,
    registration_budget: u16,
    target_serving_size: u16,
}

/// A run registering instances until the State Store holds the Target Serving
/// Size; waiting for the count of stored instances.
pub struct FullPathRegistering<C> {
    service: RegistrationService<C>,
    paths: RealWarpFullPathHarnessPaths,
    registration_budget: u16,
    target_serving_size: u16,
}

/// A run waiting for the stored instances to be listed.
pub struct FullPathInspecting {
    paths: RealWarpFullPathHarnessPaths,
    registration_budget: u16,
}

/// What a run asks once it is started.
pub enum FullPathStart<C> {
    /// The run is over.
    Finished(RealWarpFullPathReport),
    /// Write `isolated_config()` to the config path and open the State Store at
    /// its path, then call `prepared`.
    PrepareStateStore(FullPathPreparing<C>),
}

/// What a run asks after a step of registration.
pub enum FullPathStep<C> {
    /// The run is over.
    Finished(RealWarpFullPathReport),
    /// Count the stored instances, then call `counted`.
    CountInstances(FullPathRegistering<C>),
}

/// What a run asks once the stored instances were counted.
pub enum FullPathRegistration<C> {
    /// The run is over.
    Finished(RealWarpFullPathReport),
    /// Persist this new instance, then call `persisted`.
    Persist(StoredWarpInstance, FullPathRegistering<C>),
    /// List the stored instances, then call `inspected`.
    Inspect(FullPathInspecting),
}

/// The failure message of the runtime gap.
pub open spec fn runtime_gap_text() -> Seq<char> {
    "full real WARP TCP/UDP/DNS proof is not yet implemented: the current runtime can prepare persisted Public WARP adapter configs, but the project still lacks a live smoltcp TCP/UDP socket runtime backed by BoringTun UDP transport"@
}

/// The report fields every run carries.
pub open spec fn full_path_header(
    r: RealWarpFullPathReport,
    paths: RealWarpFullPathHarnessPaths,
    budget: u16,
) -> bool {
    &&& r.config_path@ == paths.config_path@
    &&& r.state_store_path@ == paths.state_store_path@
    &&& r.registration_budget == budget
}

/// A failed report with one classified failure and nothing else.
pub open spec fn full_path_failed_with(
    r: RealWarpFullPathReport,
    class: RealWarpFullPathFailureClass,
    message: Seq<char>,
) -> bool {
    &&& r.status == RealWarpFullPathStatus::Failed
    &&& r.skip_reason is None
    &&& r.evidence is None
    &&& r.failure matches Some(f) && f.class == class && f.message@ == message
}

/// The sanitized message of a registration error.
pub open spec fn registration_failure_text(e: SpecRegistrationError) -> Seq<char> {
    match e {
        SpecRegistrationError::BudgetExceeded => redacted_text("registration budget exceeded"@),
        SpecRegistrationError::Blocked(reason) => redacted_text(reason),
        SpecRegistrationError::Unsupported(reason) => redacted_text(reason),
        SpecRegistrationError::Transient(reason) => redacted_text(reason),
        SpecRegistrationError::Store(reason) => redacted_text(reason),
    }
}

/// The registration the full-path run asks for: the `integration` group with
/// the run's label.
pub open spec fn full_path_request(request: PublicRegistrationRequest) -> bool {
    &&& request.group@ == "integration"@
    &&& request.label matches Some(l) && l@ == "opt-in full real WARP path proof"@
}

/// What a registration step of the full-path run does with the client's
/// answer: a granted registration becomes the instance to persist before the
/// run counts again, unless no instance identity could be drawn; a refusal, or
/// that, ends the run as a sanitized Registration failure.
pub open spec fn full_path_registration_step<C>(
    r: FullPathRegistration<C>,
    request: PublicRegistrationRequest,
    answer: Result<PublicRegistration, RegistrationError>,
    paths: RealWarpFullPathHarnessPaths,
    budget: u16,
    target: u16,
) -> bool {
    match answer {
        Ok(registration) => match r {
            FullPathRegistration::Persist(instance, next) => {
                &&& registered_instance(instance, request, registration)
                &&& next.spec_paths() == paths
                &&& next.spec_budget() == budget
                &&& next.spec_target() == target
            },
            FullPathRegistration::Finished(report) => {
                &&& full_path_header(report, paths, budget)
                &&& exists|m: Seq<char>|
                    #[trigger] identity_failure(m) && full_path_failed_with(
                        report,
                        RealWarpFullPathFailureClass::Registration,
                        redacted_text(m),
                    )
            },
            FullPathRegistration::Inspect(_) => false,
        },
        Err(e) => r matches FullPathRegistration::Finished(report) && {
            &&& full_path_header(report, paths, budget)
            &&& full_path_failed_with(
                report,
                RealWarpFullPathFailureClass::Registration,
                registration_failure_text(error_view(e)),
            )
        },
    }
}

/// The configuration the data plane is given for a stored instance.
pub open spec fn stored_config(x: StoredWarpInstance) -> DataPlaneInstanceConfig {
    DataPlaneInstanceConfig { instance_id: x.instance_id, adapter_config: x.adapter_config }
}

/// The configurations the data plane is given for stored instances.
pub open spec fn stored_configs(xs: Seq<StoredWarpInstance>) -> Seq<DataPlaneInstanceConfig> {
    xs.map_values(|x: StoredWarpInstance| stored_config(x))
}

/// Whether every stored instance has a runtime configuration the BoringTun
/// runtime can prepare.
pub open spec fn all_prepared(xs: Seq<StoredWarpInstance>) -> bool {
    forall|i: int| 0 <= i < xs.len() ==> config_outcome(stored_config(#[trigger] xs[i])) is Ok
}

/// Whether the stored instance at `i` is the first whose runtime configuration
/// cannot be prepared.
pub open spec fn first_unprepared(xs: Seq<StoredWarpInstance>, i: int) -> bool {
    &&& 0 <= i < xs.len()
    &&& config_outcome(stored_config(xs[i])) is Err
    &&& forall|k: int| 0 <= k < i ==> config_outcome(stored_config(#[trigger] xs[k])) is Ok
}

fn full_path_report(
    status: RealWarpFullPathStatus,
    paths: &RealWarpFullPathHarnessPaths,
    registration_budget: u16,
    skip_reason: Option<String>,
    evidence: Option<RealWarpFullPathEvidence>,
    failure: Option<RealWarpFullPathFailure>,
) -> (r: RealWarpFullPathReport)
    ensures
        full_path_header(r, *paths, registration_budget),
        r.status == status,
        r.skip_reason == skip_reason,
        r.evidence == evidence,
        r.failure == failure,
{
    RealWarpFullPathReport {
        status,
        config_path: copy_string(&paths.config_path),
        state_store_path: copy_string(&paths.state_store_path),
        registration_budget,
        skip_reason,
        evidence,
        failure,
    }
}

/// A failure of a class with its message sanitized.
fn failure(class: RealWarpFullPathFailureClass, message: &str) -> (r: RealWarpFullPathFailure)
    ensures
        r.class == class,
        r.message@ == redacted_text(message@),
{
    RealWarpFullPathFailure { class, message: redact_sensitive(message) }
}

/// The registration failure of a registration error, its message sanitized.
fn registration_failure(error: RegistrationError) -> (r: RealWarpFullPathFailure)
    ensures
        r.class == RealWarpFullPathFailureClass::Registration,
        r.message@ == registration_failure_text(error_view(error)),
{
    let message = match error {
        RegistrationError::BudgetExceeded => String::from_str("registration budget exceeded"),
        RegistrationError::Blocked(reason) => reason,
        RegistrationError::Unsupported(reason) => reason,
        RegistrationError::Transient(reason) => reason,
        RegistrationError::Store(reason) => reason,
    };
    failure(RealWarpFullPathFailureClass::Registration, message.as_str())
}

fn failed_report(
    paths: &RealWarpFullPathHarnessPaths,
    registration_budget: u16,
    failure: RealWarpFullPathFailure,
) -> (r: RealWarpFullPathReport)
    ensures
        full_path_header(r, *paths, registration_budget),
        full_path_failed_with(r, failure.class, failure.message@),
{
    full_path_report(RealWarpFullPathStatus::Failed, paths, registration_budget, None, None, Some(failure))
}

impl<C> RealWarpFullPathHarness<C> {
    /// The client the run registers with.
    pub closed spec fn spec_client(self) -> C {
        self.client
    }

    /// The paths of the run.
    pub closed spec fn spec_paths(self) -> RealWarpFullPathHarnessPaths {
        self.paths
    }

    /// The Registration Budget of the run.
    pub closed spec fn spec_budget(self) -> u16 {
        self.registration_budget
    }

    /// The Target Serving Size of the run.
    pub closed spec fn spec_target(self) -> u16 {
        self.target_serving_size
    }

    /// A harness with a Registration Budget and a Target Serving Size of two.
    pub fn new(client: C, paths: RealWarpFullPathHarnessPaths) -> (r: Self)
        ensures
            r.spec_client() == client,
            r.spec_paths() == paths,
            r.spec_budget() == 2,
            r.spec_target() == 2,
    {
        RealWarpFullPathHarness { client, paths, registration_budget: 2, target_serving_size: 2 }
    }

    /// The same harness with another Registration Budget.
    pub fn with_budget(self, registration_budget: u16) -> (r: Self)
        ensures
            r.spec_client() == self.spec_client(),
            r.spec_paths() == self.spec_paths(),
            r.spec_budget() == registration_budget,
            r.spec_target() == self.spec_target(),
    {
        RealWarpFullPathHarness {
            client: self.client,
            paths: self.paths,
            registration_budget,
            target_serving_size: self.target_serving_size,
        }
    }

    /// The same harness with another Target Serving Size.
    pub fn with_target_serving_size(self, target_serving_size: u16) -> (r: Self)
        ensures
            r.spec_client() == self.spec_client(),
            r.spec_paths() == self.spec_paths(),
            r.spec_budget() == self.spec_budget(),
            r.spec_target() == target_serving_size,
    {
        RealWarpFullPathHarness {
            client: self.client,
            paths: self.paths,
            registration_budget: self.registration_budget,
            target_serving_size,
        }
    }

    /// Starts a run: without both integration opt-ins it is skipped with the
    /// opt-ins' reason and touches nothing; otherwise the isolated configuration and State
    /// Store are needed.
    pub fn run(self, gate: PublicWarpIntegrationGate) -> (r: FullPathStart<C>)
        ensures
            !gate_open(gate) ==> (r matches FullPathStart::Finished(report) && {
                &&& full_path_header(report, self.spec_paths(), self.spec_budget())
                &&& report.status == RealWarpFullPathStatus::Skipped
                &&& report.skip_reason matches Some(s) && s@
                    == "set WARPNEST_RUN_WARP_INTEGRATION=1 and WARPNEST_ACCEPT_PUBLIC_WARP_COMPAT_RISK=1"@
                &&& report.evidence is None && report.failure is None
            }),
            gate_open(gate) ==> (r matches FullPathStart::PrepareStateStore(p) && p.spec_paths()
                == self.spec_paths() && p.spec_budget() == self.spec_budget() && p.spec_target()
                == self.spec_target() && p.spec_client() == self.spec_client()),
    {
        if !gate.is_enabled() {
            let reason = match gate.skip_reason() {
                Some(reason) => String::from_str(reason),
                None => String::from_str("integration gate disabled"),
            };
            return FullPathStart::Finished(
                full_path_report(
                    RealWarpFullPathStatus::Skipped,
                    &self.paths,
                    self.registration_budget,
                    Some(reason),
                    None,
                    None,
                ),
            );
        }
        FullPathStart::PrepareStateStore(
            FullPathPreparing {
                client: self.client,
                paths: self.paths,
                registration_budget: self.registration_budget,
                target_serving_size: self.target_serving_size,
            },
        )
    }
}

impl<C> FullPathPreparing<C> {
    /// The client the run registers with.
    pub closed spec fn spec_client(self) -> C {
        self.client
    }

    /// The paths of the run.
    pub closed spec fn spec_paths(self) -> RealWarpFullPathHarnessPaths {
        self.paths
    }

    /// The Registration Budget of the run.
    pub closed spec fn spec_budget(self) -> u16 {
        self.registration_budget
    }

    /// The Target Serving Size of the run.
    pub closed spec fn spec_target(self) -> u16 {
        self.target_serving_size
    }

    /// The paths of the run.
    pub fn paths(&self) -> (r: &RealWarpFullPathHarnessPaths)
        ensures
            *r == self.spec_paths(),
    {
        &self.paths
    }

    /// The isolated configuration to write: the default configuration with the
    /// run's State Store path, Registration Budget and Target Serving Size.
    pub fn isolated_config(&self) -> (r: Config)
        ensures
            r.state_store_path@ == self.spec_paths().state_store_path@,
            r.registration_budget == self.spec_budget(),
            r.target_serving_size == self.spec_target(),
            r.listeners.management_bind == localhost_bind(0),
            r.listeners.socks5_bind == localhost_bind(1080),
            r.listeners.http_bind == localhost_bind(8080),
            r.auth.shared_secret@.len() == 0,
    {
        let defaults = Config::default_config();
        Config {
            target_serving_size: self.target_serving_size,
            registration_budget: self.registration_budget,
            state_store_path: copy_string(&self.paths.state_store_path),
            listeners: defaults.listeners,
            auth: defaults.auth,
        }
    }
}

impl<C: RegistrationClient> FullPathPreparing<C> {
    /// Continues once the isolated configuration was written and the State Store
    /// opened, or reports why not as a Store failure, sanitized.
    pub fn prepared(self, outcome: Result<(), String>) -> (r: FullPathStep<C>)
        ensures
            outcome matches Err(message) ==> (r matches FullPathStep::Finished(report)
                && full_path_header(report, self.spec_paths(), self.spec_budget())
                && full_path_failed_with(
                report,
                RealWarpFullPathFailureClass::Store,
                redacted_text(message@),
            )),
            outcome is Ok ==> (r matches FullPathStep::CountInstances(next) && next.spec_paths()
                == self.spec_paths() && next.spec_budget() == self.spec_budget()
                && next.spec_target() == self.spec_target() && next.spec_client()
                == self.spec_client()),
    {
        match outcome {
            Err(message) => FullPathStep::Finished(
                failed_report(
                    &self.paths,
                    self.registration_budget,
                    failure(RealWarpFullPathFailureClass::Store, message.as_str()),
                ),
            ),
            Ok(()) => FullPathStep::CountInstances(
                FullPathRegistering {
                    service: RegistrationService::new(self.client, self.registration_budget),
                    paths: self.paths,
                    registration_budget: self.registration_budget,
                    target_serving_size: self.target_serving_size,
                },
            ),
        }
    }
}

impl<C> FullPathRegistering<C> {
    #[verifier::type_invariant]
    spec fn room_for_failures(self) -> bool {
        &&& can_record_transient(self.service.spec_retry())
        &&& self.service.spec_budget() == self.registration_budget
    }

    /// The paths of the run.
    pub closed spec fn spec_paths(self) -> RealWarpFullPathHarnessPaths {
        self.paths
    }

    /// The Registration Budget of the run.
    pub closed spec fn spec_budget(self) -> u16 {
        self.registration_budget
    }

    /// The Target Serving Size of the run.
    pub closed spec fn spec_target(self) -> u16 {
        self.target_serving_size
    }

    /// The client the run registers with, as it now stands.
    pub closed spec fn spec_client(self) -> C {
        self.service.spec_client()
    }
}

impl<C: RegistrationClient> FullPathRegistering<C> {
    /// Registers one more instance while the State Store holds fewer than the
    /// Target Serving Size (the count of stored instances, or the Registration
    /// failure of listing them); once it holds enough, the instances are
    /// inspected. A registration error ends the run as a sanitized Registration
    /// failure.
    pub fn counted(self, stored: Result<usize, String>) -> (r: FullPathRegistration<C>)
        ensures
            stored matches Err(message) ==> (r matches FullPathRegistration::Finished(report)
                && full_path_header(report, self.spec_paths(), self.spec_budget())
                && full_path_failed_with(
                report,
                RealWarpFullPathFailureClass::Registration,
                redacted_text(message@),
            )),
            stored matches Ok(count) ==> (count >= self.spec_target() ==> (r matches FullPathRegistration::Inspect(next)
                && next.spec_paths() == self.spec_paths() && next.spec_budget() == self.spec_budget())),
            stored matches Ok(count) ==> (count < self.spec_target() && count >= self.spec_budget() ==> (r matches FullPathRegistration::Finished(report)
                && full_path_header(report, self.spec_paths(), self.spec_budget())
                && full_path_failed_with(
                report,
                RealWarpFullPathFailureClass::Registration,
                registration_failure_text(SpecRegistrationError::BudgetExceeded),
            ))),
            stored matches Ok(count) ==> (count < self.spec_target() && count < self.spec_budget() ==> exists|
                request: PublicRegistrationRequest,
                answer: Result<PublicRegistration, RegistrationError>,
            |
                full_path_request(request) && #[trigger] self.spec_client().answers(request, answer)
                    && full_path_registration_step(
                    r,
                    request,
                    answer,
                    self.spec_paths(),
                    self.spec_budget(),
                    self.spec_target(),
                )),
    {
        proof {
            use_type_invariant(&self);
        }
        let count = match stored {
            Ok(count) => count,
            Err(message) => {
                return FullPathRegistration::Finished(
                    failed_report(
                        &self.paths,
                        self.registration_budget,
                        failure(RealWarpFullPathFailureClass::Registration, message.as_str()),
                    ),
                );
            },
        };
        if count >= self.target_serving_size as usize {
            return FullPathRegistration::Inspect(
                FullPathInspecting { paths: self.paths, registration_budget: self.registration_budget },
            );
        }
        let FullPathRegistering { mut service, paths, registration_budget, target_serving_size } =
            self;
        let request = PublicRegistrationRequest {
            group: String::from_str("integration"),
            label: Some(String::from_str("opt-in full real WARP path proof")),
        };
        let ghost req = request;
        let ghost client = service.spec_client();
        let ghost before = service.spec_retry();
        let result = service.create_public_registration(count, request);
        let ghost after = service.spec_retry();
        let ghost answer = choose|a: Result<PublicRegistration, RegistrationError>|
            client.answers(req, a) && registration_effect(before, after, req, a, result);
        proof {
            if count < registration_budget {
                assert(exists|a: Result<PublicRegistration, RegistrationError>|
                    client.answers(req, a) && registration_effect(before, after, req, a, result));
            }
        }
        let r = match result {
            Ok(instance) => {
                let ghost retry = service.spec_retry();
                assert(can_record_transient(retry));
                FullPathRegistration::Persist(
                    instance,
                    FullPathRegistering { service, paths, registration_budget, target_serving_size },
                )
            },
            Err(error) => {
                let ghost e = error_view(error);
                let report = failed_report(&paths, registration_budget, registration_failure(error));
                assert(full_path_failed_with(
                    report,
                    RealWarpFullPathFailureClass::Registration,
                    registration_failure_text(e),
                ));
                FullPathRegistration::Finished(report)
            },
        };
        proof {
            if count < registration_budget {
                assert(full_path_request(req));
                assert(full_path_registration_step(
                    r,
                    req,
                    answer,
                    paths,
                    registration_budget,
                    target_serving_size,
                ));
                assert(client.answers(req, answer));
                assert(self.spec_client().answers(req, answer));
            }
        }
        r
    }

    /// Continues after persisting a new instance (or reports the Registration
    /// failure of persisting it, sanitized): the stored instances are counted
    /// again.
    pub fn persisted(self, outcome: Result<(), String>) -> (r: FullPathStep<C>)
        ensures
            outcome matches Err(message) ==> (r matches FullPathStep::Finished(report)
                && full_path_header(report, self.spec_paths(), self.spec_budget())
                && full_path_failed_with(
                report,
                RealWarpFullPathFailureClass::Registration,
                redacted_text(message@),
            )),
            outcome is Ok ==> (r matches FullPathStep::CountInstances(next) && next.spec_paths()
                == self.spec_paths() && next.spec_budget() == self.spec_budget()
                && next.spec_target() == self.spec_target() && next.spec_client()
                == self.spec_client()),
    {
        match outcome {
            Err(message) => FullPathStep::Finished(
                failed_report(
                    &self.paths,
                    self.registration_budget,
                    failure(RealWarpFullPathFailureClass::Registration, message.as_str()),
                ),
            ),
            Ok(()) => FullPathStep::CountInstances(self),
        }
    }
}

impl FullPathInspecting {
    /// The paths of the run.
    pub closed spec fn spec_paths(self) -> RealWarpFullPathHarnessPaths {
        self.paths
    }

    /// The Registration Budget of the run.
    pub closed spec fn spec_budget(self) -> u16 {
        self.registration_budget
    }

    /// Ends the run with the stored instances (or the Store failure of listing
    /// them, sanitized): their runtime configurations are prepared; a
    /// configuration that cannot be prepared is a RuntimeUnsupported failure,
    /// sanitized; otherwise the evidence is reported together with the runtime
    /// gap that still fails the full proof. `isolated_state_store` says whether
    /// the State Store lives at the run's path and none at the default path.
    pub fn inspected(
        self,
        listed: Result<Vec<StoredWarpInstance>, String>,
        isolated_state_store: bool,
    ) -> (r: RealWarpFullPathReport)
        ensures
            full_path_header(r, self.spec_paths(), self.spec_budget()),
            r.status == RealWarpFullPathStatus::Failed,
            listed matches Err(message) ==> full_path_failed_with(
                r,
                RealWarpFullPathFailureClass::Store,
                redacted_text(message@),
            ),
            listed matches Ok(instances) ==> (all_prepared(instances@) ==> {
                &&& r.skip_reason is None
                &&& r.evidence matches Some(ev) && ev.persisted_instance_count == instances.len()
                    && ev.prepared_runtime_count == prepared_instances(
                    stored_configs(instances@),
                ).len() && ev.isolated_state_store == isolated_state_store
                &&& r.failure matches Some(f) && f.class
                    == RealWarpFullPathFailureClass::RuntimeUnsupported && f.message@
                    == runtime_gap_text()
            }),
            listed matches Ok(instances) ==> (!all_prepared(instances@) ==> exists|i: int|
                first_unprepared(instances@, i) && full_path_failed_with(
                    r,
                    RealWarpFullPathFailureClass::RuntimeUnsupported,
                    redacted_text(
                        adapter_view_text(
                            config_outcome(stored_config(#[trigger] instances@[i]))->Err_0,
                        ),
                    ),
                )),
    {
        let instances = match listed {
            Ok(instances) => instances,
            Err(message) => {
                return failed_report(
                    &self.paths,
                    self.registration_budget,
                    failure(RealWarpFullPathFailureClass::Store, message.as_str()),
                );
            },
        };
        let mut configs: Vec<DataPlaneInstanceConfig> = Vec::new();
        let mut i: usize = 0;
        while i < instances.len()
            invariant
                i <= instances.len(),
                configs.len() == i,
                forall|k: int|
                    0 <= k < i ==> same_config(#[trigger] configs@[k], stored_config(instances@[k])),
            decreases instances.len() - i,
        {
            configs.push(
                DataPlaneInstanceConfig {
                    instance_id: copy_string(&instances[i].instance_id),
                    adapter_config: instances[i].adapter_config.duplicate(),
                },
            );
            i = i + 1;
        }
        let ghost cs = configs@;
        proof {
            assert forall|k: int| 0 <= k < cs.len() implies same_config(
                #[trigger] cs[k],
                stored_configs(instances@)[k],
            ) by {
                assert(same_config(cs[k], stored_config(instances@[k])));
            }
            lemma_prepared_instances_by_values(cs, stored_configs(instances@));
            assert forall|k: int| 0 <= k < cs.len() implies config_outcome(#[trigger] cs[k])
                == config_outcome(stored_config(instances@[k])) by {
                assert(same_config(cs[k], stored_config(instances@[k])));
            }
        }
        match BoringTunDataPlane::try_with_instances(configs) {
            Err(error) => {
                let message = error.message();
                let r = failed_report(
                    &self.paths,
                    self.registration_budget,
                    failure(RealWarpFullPathFailureClass::RuntimeUnsupported, message.as_str()),
                );
                proof {
                    let i = choose|i: int|
                        0 <= i < cs.len() && config_outcome(#[trigger] cs[i]) == Err::<
                            RuntimeConfigView,
                            AdapterErrorView,
                        >(adapter_error_view(error)) && forall|k: int|
                            0 <= k < i ==> config_outcome(#[trigger] cs[k]) is Ok;
                    assert(config_outcome(cs[i]) == config_outcome(stored_config(instances@[i])));
                    assert forall|k: int| 0 <= k < i implies config_outcome(
                        stored_config(#[trigger] instances@[k]),
                    ) is Ok by {
                        assert(config_outcome(cs[k]) == config_outcome(stored_config(instances@[k])));
                    }
                    assert(first_unprepared(instances@, i));
                    assert(!all_prepared(instances@));
                    assert(adapter_error_text(error) == adapter_view_text(adapter_error_view(error)));
                }
                r
            },
            Ok(data_plane) => {
                proof {
                    assert forall|k: int| 0 <= k < instances@.len() implies config_outcome(
                        stored_config(#[trigger] instances@[k]),
                    ) is Ok by {
                        assert(config_outcome(cs[k]) == config_outcome(stored_config(instances@[k])));
                    }
                }
                let evidence = RealWarpFullPathEvidence {
                    persisted_instance_count: instances.len(),
                    prepared_runtime_count: data_plane.instance_count(),
                    isolated_state_store,
                };
                let message = String::from_str(
                    "full real WARP TCP/UDP/DNS proof is not yet implemented: the current runtime can prepare persisted Public WARP adapter configs, but the project still lacks a live smoltcp TCP/UDP socket runtime backed by BoringTun UDP transport",
                );
                full_path_report(
                    RealWarpFullPathStatus::Failed,
                    &self.paths,
                    self.registration_budget,
                    None,
                    Some(evidence),
                    Some(
                        RealWarpFullPathFailure {
                            class: RealWarpFullPathFailureClass::RuntimeUnsupported,
                            message,
                        },
                    ),
                )
            },
        }
    }
}

} // verus!
