//! The opt-in Public WARP registration harness: behind both integration gates it
//! registers one WARP Instance into an isolated State Store and reports
//! sanitized evidence or a classified, sanitized failure.
//!
//! The harness runs as a sequence of steps; its caller does the file and State
//! Store work between them.
use vstd::prelude::*;

use crate::config::{Config, localhost_bind};
use crate::direct_public_warp_registration::PublicWarpIntegrationGate;

use crate::security::{redact_sensitive, redacted_text};
use crate::state_store::{StoredWarpInstance, identity_failure};
use crate::text::{copy_string, str_eq};
use crate::warp_lifecycle::{PublicRegistration, PublicRegistrationRequest, RegistrationClient, RegistrationError, RegistrationService, SpecRegistrationError, error_view, registered_instance, registration_effect};

verus! {

/// Where the harness writes its isolated configuration and State Store.
#[derive(Debug, Clone, PartialEq, Eq)]
pub struct PublicWarpRegistrationHarnessPaths {
    pub config_path: String,
    pub state_store_path: String,
}

/// How a harness run ended.
#[derive(Debug, Clone, Copy, PartialEq, Eq, Structural)]
pub enum PublicWarpRegistrationHarnessStatus {
    Skipped,
    Succeeded,
    Failed,
}

/// What kind of failure ended a run.
#[derive(Debug, Clone, Copy, PartialEq, Eq, Structural)]
pub enum PublicWarpRegistrationFailureClass {
    Blocked,
    Unsupported,
    Transient,
    BudgetExceeded,
    Store,
}

/// Non-sensitive evidence of a successful registration.
#[derive(Debug, Clone, PartialEq, Eq)]
pub struct PublicWarpRegistrationHarnessEvidence {
    pub instance_id: String,
    pub group: String,
    pub adapter_kind: String,
    pub adapter_config_version: u16,
    pub persisted_instance_count: usize,
}

/// A classified failure with a sanitized message.
#[derive(Debug, Clone, PartialEq, Eq)]
pub struct PublicWarpRegistrationHarnessFailure {
    pub class: PublicWarpRegistrationFailureClass,
    pub message: String,
}

/// The report of one harness run.
#[derive(Debug, Clone, PartialEq, Eq)]
pub struct PublicWarpRegistrationHarnessReport {
    pub status: PublicWarpRegistrationHarnessStatus,
    pub config_path: String,
    pub state_store_path: String,
    pub registration_budget: u16,
    pub skip_reason: Option<String>,
    pub evidence: Option<PublicWarpRegistrationHarnessEvidence>,
    pub failure: Option<PublicWarpRegistrationHarnessFailure>,
}

/// The harness before a run.
pub struct PublicWarpRegistrationHarness<C> {
    client: C,
    paths: PublicWarpRegistrationHarnessPaths,
    registration_budget: u16,
}

/// A run waiting for its isolated State Store.
pub struct PendingRegistration<C> {
    client: C,
    paths: PublicWarpRegistrationHarnessPaths,
    registration_budget: u16,
}

/// A run waiting for the new WARP Instance to be persisted and the State Store
/// to be listed again.
pub struct PendingPersistence {
    paths: PublicWarpRegistrationHarnessPaths,
    registration_budget: u16,
    instance_id: String,
    group: String,
}

/// What a run asks next once it is started.
pub enum HarnessStart<C> {
    /// The run is over.
    Finished(PublicWarpRegistrationHarnessReport),
    /// Write `isolated_config()` to the config path, open the State Store at its
    /// path and count its instances, then call `register`.
    PrepareStateStore(PendingRegistration<C>),
}

/// What a run asks after registering.
pub enum HarnessRegistration {
    /// The run is over.
    Finished(PublicWarpRegistrationHarnessReport),
    /// Persist this instance, list the State Store, then call `conclude`.
    Persist(StoredWarpInstance, PendingPersistence),
}

/// Both integration opt-ins are given.
pub open spec fn gate_open(gate: PublicWarpIntegrationGate) -> bool {
    gate.run_warp_integration && gate.accept_public_warp_compat_risk
}

/// The report fields every run carries.
pub open spec fn report_header(
    r: PublicWarpRegistrationHarnessReport,
    paths: PublicWarpRegistrationHarnessPaths,
    budget: u16,
) -> bool {
    &&& r.config_path@ == paths.config_path@
    &&& r.state_store_path@ == paths.state_store_path@
    &&& r.registration_budget == budget
}

/// A failed report with one classified failure and nothing else.
pub open spec fn failed_with(
    r: PublicWarpRegistrationHarnessReport,
    class: PublicWarpRegistrationFailureClass,
    message: Seq<char>,
) -> bool {
    &&& r.status == PublicWarpRegistrationHarnessStatus::Failed
    &&& r.skip_reason is None
    &&& r.evidence is None
    &&& r.failure matches Some(f) && f.class == class && f.message@ == message
}

/// The failure class of a registration error.
pub open spec fn failure_class_of(e: SpecRegistrationError) -> PublicWarpRegistrationFailureClass {
    match e {
        SpecRegistrationError::BudgetExceeded => PublicWarpRegistrationFailureClass::BudgetExceeded,
        SpecRegistrationError::Blocked(_) => PublicWarpRegistrationFailureClass::Blocked,
        SpecRegistrationError::Unsupported(_) => PublicWarpRegistrationFailureClass::Unsupported,
        SpecRegistrationError::Transient(_) => PublicWarpRegistrationFailureClass::Transient,
        SpecRegistrationError::Store(_) => PublicWarpRegistrationFailureClass::Store,
    }
}

/// The sanitized message of a registration error.
pub open spec fn failure_message_of(e: SpecRegistrationError) -> Seq<char> {
    match e {
        SpecRegistrationError::BudgetExceeded => "registration budget exceeded"@,
        SpecRegistrationError::Blocked(reason) => redacted_text(reason),
        SpecRegistrationError::Unsupported(reason) => redacted_text(reason),
        SpecRegistrationError::Transient(reason) => redacted_text(reason),
        SpecRegistrationError::Store(reason) => redacted_text(reason),
    }
}

fn harness_report(
    status: PublicWarpRegistrationHarnessStatus,
    paths: &PublicWarpRegistrationHarnessPaths,
    registration_budget: u16,
    skip_reason: Option<String>,
    evidence: Option<PublicWarpRegistrationHarnessEvidence>,
    failure: Option<PublicWarpRegistrationHarnessFailure>,
) -> (r: PublicWarpRegistrationHarnessReport)
    ensures
        report_header(r, *paths, registration_budget),
        r.status == status,
        r.skip_reason == skip_reason,
        r.evidence == evidence,
        r.failure == failure,
{
    PublicWarpRegistrationHarnessReport {
        status,
        config_path: copy_string(&paths.config_path),
        state_store_path: copy_string(&paths.state_store_path),
        registration_budget,
        skip_reason,
        evidence,
        failure,
    }
}

fn store_failure(message: &str) -> (r: PublicWarpRegistrationHarnessFailure)
    ensures
        r.class == PublicWarpRegistrationFailureClass::Store,
        r.message@ == redacted_text(message@),
{
    PublicWarpRegistrationHarnessFailure {
        class: PublicWarpRegistrationFailureClass::Store,
        message: redact_sensitive(message),
    }
}

/// The classified failure of a registration error, its message sanitized.
fn classified_failure(error: RegistrationError) -> (r: PublicWarpRegistrationHarnessFailure)
    ensures
        r.class == failure_class_of(error_view(error)),
        r.message@ == failure_message_of(error_view(error)),
{
    match error {
        RegistrationError::BudgetExceeded => {
            let message = String::from_str("registration budget exceeded");
            PublicWarpRegistrationHarnessFailure {
                class: PublicWarpRegistrationFailureClass::BudgetExceeded,
                message,
            }
        },
        RegistrationError::Blocked(reason) => PublicWarpRegistrationHarnessFailure {
            class: PublicWarpRegistrationFailureClass::Blocked,
            message: redact_sensitive(reason.as_str()),
        },
        RegistrationError::Unsupported(reason) => PublicWarpRegistrationHarnessFailure {
            class: PublicWarpRegistrationFailureClass::Unsupported,
            message: redact_sensitive(reason.as_str()),
        },
        RegistrationError::Transient(reason) => PublicWarpRegistrationHarnessFailure {
            class: PublicWarpRegistrationFailureClass::Transient,
            message: redact_sensitive(reason.as_str()),
        },
        RegistrationError::Store(reason) => PublicWarpRegistrationHarnessFailure {
            class: PublicWarpRegistrationFailureClass::Store,
            message: redact_sensitive(reason.as_str()),
        },
    }
}

impl<C> PublicWarpRegistrationHarness<C> {
    /// The client the run registers with.
    pub closed spec fn spec_client(self) -> C {
        self.client
    }

    /// The paths of the run.
    pub closed spec fn spec_paths(self) -> PublicWarpRegistrationHarnessPaths {
        self.paths
    }

    /// The Registration Budget of the run.
    pub closed spec fn spec_budget(self) -> u16 {
        self.registration_budget
    }

    /// A harness with a Registration Budget of one.
    pub fn new(client: C, paths: PublicWarpRegistrationHarnessPaths) -> (r: Self)
        ensures
            r.spec_client() == client,
            r.spec_paths() == paths,
            r.spec_budget() == 1,
    {
        PublicWarpRegistrationHarness { client, paths, registration_budget: 1 }
    }

    /// The same harness with another Registration Budget.
    pub fn with_budget(self, registration_budget: u16) -> (r: Self)
        ensures
            r.spec_client() == self.spec_client(),
            r.spec_paths() == self.spec_paths(),
            r.spec_budget() == registration_budget,
    {
        PublicWarpRegistrationHarness { client: self.client, paths: self.paths, registration_budget }
    }

    /// Starts a run: without both integration opt-ins it is skipped with the
    /// opt-ins' reason and touches nothing; otherwise the isolated State Store is needed.
    pub fn run(self, gate: PublicWarpIntegrationGate) -> (r: HarnessStart<C>)
        ensures
            !gate_open(gate) ==> (r matches HarnessStart::Finished(report) && {
                &&& report_header(report, self.spec_paths(), self.spec_budget())
                &&& report.status == PublicWarpRegistrationHarnessStatus::Skipped
                &&& report.skip_reason matches Some(s) && s@
                    == "set WARPNEST_RUN_WARP_INTEGRATION=1 and WARPNEST_ACCEPT_PUBLIC_WARP_COMPAT_RISK=1"@
                &&& report.evidence is None && report.failure is None
            }),
            gate_open(gate) ==> (r matches HarnessStart::PrepareStateStore(p) && p.spec_paths()
                == self.spec_paths() && p.spec_budget() == self.spec_budget() && p.spec_client()
                == self.spec_client()),
    {
        if !gate.is_enabled() {
            let reason = match gate.skip_reason() {
                Some(reason) => String::from_str(reason),
                None => String::from_str("integration gate disabled"),
            };
            return HarnessStart::Finished(
                harness_report(
                    PublicWarpRegistrationHarnessStatus::Skipped,
                    &self.paths,
                    self.registration_budget,
                    Some(reason),
                    None,
                    None,
                ),
            );
        }
        HarnessStart::PrepareStateStore(
            PendingRegistration {
                client: self.client,
                paths: self.paths,
                registration_budget: self.registration_budget,
            },
        )
    }
}

impl<C> PendingRegistration<C> {
    /// The client the run registers with.
    pub closed spec fn spec_client(self) -> C {
        self.client
    }

    /// The paths of the run.
    pub closed spec fn spec_paths(self) -> PublicWarpRegistrationHarnessPaths {
        self.paths
    }

    /// The Registration Budget of the run.
    pub closed spec fn spec_budget(self) -> u16 {
        self.registration_budget
    }

    /// The paths of the run.
    pub fn paths(&self) -> (r: &PublicWarpRegistrationHarnessPaths)
        ensures
            *r == self.spec_paths(),
    {
        &self.paths
    }

    /// The isolated configuration to write: the default configuration with the
    /// run's State Store path and Registration Budget.
    pub fn isolated_config(&self) -> (r: Config)
        ensures
            r.state_store_path@ == self.spec_paths().state_store_path@,
            r.registration_budget == self.spec_budget(),
            r.target_serving_size == 1,
            r.listeners.management_bind == localhost_bind(0),
            r.listeners.socks5_bind == localhost_bind(1080),
            r.listeners.http_bind == localhost_bind(8080),
            r.auth.shared_secret@.len() == 0,
    {
        let defaults = Config::default_config();
        Config {
            target_serving_size: defaults.target_serving_size,
            registration_budget: self.registration_budget,
            state_store_path: copy_string(&self.paths.state_store_path),
            listeners: defaults.listeners,
            auth: defaults.auth,
        }
    }
}

/// The registration the harness asks for: the `integration` group with the
/// harness's label.
pub open spec fn harness_request(request: PublicRegistrationRequest) -> bool {
    &&& request.group@ == "integration"@
    &&& request.label matches Some(l) && l@ == "opt-in direct public WARP registration"@
}

/// What the registration step does with the client's answer: a granted
/// registration becomes the instance to persist, unless no instance identity
/// could be drawn, which ends the run as a Store failure; a refusal ends the run
/// with its classified, sanitized failure.
pub open spec fn registration_step(
    r: HarnessRegistration,
    request: PublicRegistrationRequest,
    answer: Result<PublicRegistration, RegistrationError>,
    paths: PublicWarpRegistrationHarnessPaths,
    budget: u16,
) -> bool {
    match answer {
        Ok(registration) => match r {
            HarnessRegistration::Persist(instance, pending) => {
                &&& registered_instance(instance, request, registration)
                &&& pending.spec_paths() == paths
                &&& pending.spec_budget() == budget
                &&& pending.spec_instance_id() == instance.instance_id@
                &&& pending.spec_group() == instance.group@
            },
            HarnessRegistration::Finished(report) => {
                &&& report_header(report, paths, budget)
                &&& exists|m: Seq<char>|
                    #[trigger] identity_failure(m) && failed_with(
                        report,
                        PublicWarpRegistrationFailureClass::Store,
                        redacted_text(m),
                    )
            },
        },
        Err(e) => r matches HarnessRegistration::Finished(report) && {
            &&& report_header(report, paths, budget)
            &&& failed_with(report, failure_class_of(error_view(e)), failure_message_of(error_view(e)))
        },
    }
}

impl<C: RegistrationClient> PendingRegistration<C> {
    /// Registers one WARP Instance once the isolated State Store is ready (the
    /// count of instances already in it) or reports why it is not (a Store
    /// failure, sanitized). The registration goes through a fresh
    /// `RegistrationService` within the run's budget; its failure ends the run
    /// with the classified, sanitized failure.
    pub fn register(self, prepared: Result<usize, String>) -> (r: HarnessRegistration)
        ensures
            prepared matches Err(message) ==> (r matches HarnessRegistration::Finished(report)
                && report_header(report, self.spec_paths(), self.spec_budget()) && failed_with(
                report,
                PublicWarpRegistrationFailureClass::Store,
                redacted_text(message@),
            )),
            prepared matches Ok(existing) ==> (existing >= self.spec_budget() ==> (r matches HarnessRegistration::Finished(report)
                && report_header(report, self.spec_paths(), self.spec_budget()) && failed_with(
                report,
                PublicWarpRegistrationFailureClass::BudgetExceeded,
                "registration budget exceeded"@,
            ))),
            prepared matches Ok(existing) ==> (existing < self.spec_budget() ==> exists|
                request: PublicRegistrationRequest,
                answer: Result<PublicRegistration, RegistrationError>,
            |
                harness_request(request) && #[trigger] self.spec_client().answers(request, answer)
                    && registration_step(r, request, answer, self.spec_paths(), self.spec_budget())),
    {
        let existing = match prepared {
            Ok(count) => count,
            Err(message) => {
                let failure = store_failure(message.as_str());
                return HarnessRegistration::Finished(
                    harness_report(
                        PublicWarpRegistrationHarnessStatus::Failed,
                        &self.paths,
                        self.registration_budget,
                        None,
                        None,
                        Some(failure),
                    ),
                );
            },
        };
        let ghost client = self.client;
        let mut service = RegistrationService::new(self.client, self.registration_budget);
        let request = PublicRegistrationRequest {
            group: String::from_str("integration"),
            label: Some(String::from_str("opt-in direct public WARP registration")),
        };
        let ghost req = request;
        let ghost before = service.spec_retry();
        let result = service.create_public_registration(existing, request);
        let ghost after = service.spec_retry();
        let ghost answer = choose|a: Result<PublicRegistration, RegistrationError>|
            client.answers(req, a) && registration_effect(before, after, req, a, result);
        let r = match result {
            Ok(instance) => {
                let pending = PendingPersistence {
                    paths: self.paths,
                    registration_budget: self.registration_budget,
                    instance_id: copy_string(&instance.instance_id),
                    group: copy_string(&instance.group),
                };
                HarnessRegistration::Persist(instance, pending)
            },
            Err(error) => {
                let ghost e = error_view(error);
                let failure = classified_failure(error);
                let report = harness_report(
                    PublicWarpRegistrationHarnessStatus::Failed,
                    &self.paths,
                    self.registration_budget,
                    None,
                    None,
                    Some(failure),
                );
                assert(failed_with(report, failure_class_of(e), failure_message_of(e)));
                HarnessRegistration::Finished(report)
            },
        };
        proof {
            if existing < self.registration_budget {
                assert(harness_request(req));
                assert(exists|a: Result<PublicRegistration, RegistrationError>|
                    client.answers(req, a) && registration_effect(before, after, req, a, result));
                assert(client.answers(req, answer));
                assert(registration_step(r, req, answer, self.paths, self.registration_budget));
                assert(self.spec_client().answers(req, answer));
            }
        }
        r
    }
}

impl PendingPersistence {
    /// The paths of the run.
    pub closed spec fn spec_paths(self) -> PublicWarpRegistrationHarnessPaths {
        self.paths
    }

    /// The Registration Budget of the run.
    pub closed spec fn spec_budget(self) -> u16 {
        self.registration_budget
    }

    /// The identity of the created instance.
    pub closed spec fn spec_instance_id(self) -> Seq<char> {
        self.instance_id@
    }

    /// The group of the created instance.
    pub closed spec fn spec_group(self) -> Seq<char> {
        self.group@
    }

    /// Ends the run once the new instance was persisted and the State Store
    /// listed (or reports the Store failure, sanitized): success when the listing
    /// holds the created instance, with its adapter kind and version and the
    /// number of persisted instances as evidence.
    pub fn conclude(self, listed: Result<Vec<StoredWarpInstance>, String>) -> (r:
        PublicWarpRegistrationHarnessReport)
        ensures
            report_header(r, self.spec_paths(), self.spec_budget()),
            listed matches Err(message) ==> failed_with(
                r,
                PublicWarpRegistrationFailureClass::Store,
                redacted_text(message@),
            ),
            listed matches Ok(instances) ==> match first_with_id(instances@, self.spec_instance_id()) {
                None => failed_with(
                    r,
                    PublicWarpRegistrationFailureClass::Store,
                    "created registration was not persisted"@,
                ),
                Some(i) => {
                    &&& r.status == PublicWarpRegistrationHarnessStatus::Succeeded
                    &&& r.skip_reason is None && r.failure is None
                    &&& r.evidence matches Some(ev) && {
                        &&& ev.instance_id@ == self.spec_instance_id()
                        &&& ev.group@ == self.spec_group()
                        &&& ev.adapter_kind@ == instances@[i].adapter_config.kind@
                        &&& ev.adapter_config_version == instances@[i].adapter_config.version
                        &&& ev.persisted_instance_count == instances.len()
                    }
                },
            },
    {
        let instances = match listed {
            Ok(instances) => instances,
            Err(message) => {
                let failure = store_failure(message.as_str());
                return harness_report(
                    PublicWarpRegistrationHarnessStatus::Failed,
                    &self.paths,
                    self.registration_budget,
                    None,
                    None,
                    Some(failure),
                );
            },
        };
        match find_instance(&instances, self.instance_id.as_str()) {
            None => {
                let failure = PublicWarpRegistrationHarnessFailure {
                    class: PublicWarpRegistrationFailureClass::Store,
                    message: String::from_str("created registration was not persisted"),
                };
                harness_report(
                    PublicWarpRegistrationHarnessStatus::Failed,
                    &self.paths,
                    self.registration_budget,
                    None,
                    None,
                    Some(failure),
                )
            },
            Some(i) => {
                let evidence = PublicWarpRegistrationHarnessEvidence {
                    instance_id: copy_string(&self.instance_id),
                    group: copy_string(&self.group),
                    adapter_kind: copy_string(&instances[i].adapter_config.kind),
                    adapter_config_version: instances[i].adapter_config.version,
                    persisted_instance_count: instances.len(),
                };
                harness_report(
                    PublicWarpRegistrationHarnessStatus::Succeeded,
                    &self.paths,
                    self.registration_budget,
                    None,
                    Some(evidence),
                    None,
                )
            },
        }
    }
}

/// The position of the first instance with the given identity.
pub open spec fn first_with_id(instances: Seq<StoredWarpInstance>, id: Seq<char>) -> Option<int> {
    if exists|i: int| 0 <= i < instances.len() && instances[i].instance_id@ == id {
        Some(
            choose|i: int|
                0 <= i < instances.len() && instances[i].instance_id@ == id && forall|j: int|
                    0 <= j < i ==> instances[j].instance_id@ != id,
        )
    } else {
        None
    }
}

/// Finds the first instance with the given identity.
pub fn find_instance(instances: &Vec<StoredWarpInstance>, id: &str) -> (r: Option<usize>)
    ensures
        match r {
            Some(i) => i < instances.len() && first_with_id(instances@, id@) == Some(i as int),
            None => first_with_id(instances@, id@) is None,
        },
{
    let mut i: usize = 0;
    while i < instances.len()
        invariant
            i <= instances.len(),
            forall|j: int| 0 <= j < i ==> instances@[j].instance_id@ != id@,
        decreases instances.len() - i,
    {
        if str_eq(instances[i].instance_id.as_str(), id) {
            assert(exists|k: int| 0 <= k < instances.len() && instances@[k].instance_id@ == id@);
            let ghost c = choose|k: int|
                0 <= k < instances.len() && instances@[k].instance_id@ == id@ && forall|j: int|
                    0 <= j < k ==> instances@[j].instance_id@ != id@;
            assert(c == i as int) by {
                if c < i {
                } else if c > i {
                    assert(instances@[i as int].instance_id@ == id@);
                }
            }
            return Some(i);
        }
        i = i + 1;
    }
    None
}

} // verus!
