use std::cell::RefCell;

use warpnest::direct_public_warp_registration::{
    DirectPublicWarpRegistrationClient, DirectRegistrationHttpRequest,
    DirectRegistrationHttpResponse, DirectRegistrationHttpTransport, PublicWarpIntegrationGate,
    WarpKeyPair,
};
use warpnest::public_warp_adapter::PUBLIC_WARP_WIREGUARD_OBSERVED_V1;
use warpnest::public_warp_registration_harness::{
    HarnessRegistration, HarnessStart, PublicWarpRegistrationFailureClass,
    PublicWarpRegistrationHarness, PublicWarpRegistrationHarnessPaths,
    PublicWarpRegistrationHarnessReport, PublicWarpRegistrationHarnessStatus,
};
use warpnest::state_store::StoredWarpInstance;

const WGCF_SUCCESS_BODY: &str = r#"{"id":"fixture-device-id","token":"fixture-access-token","account":{"id":"fixture-account-id","license":"fixture-license"},"config":{"interface":{"addresses":{"v4":"172.16.0.2","v6":"2606:4700:110:8f24::2"}},"peers":[{"public_key":"fixture-peer-public-key","endpoint":{"host":"engage.cloudflareclient.com:2408"}}]}}"#;

const REJECTION_BODY: &str =
    r#"{"errors":[{"message":"registration token fixture-secret-token rejected"}]}"#;

struct FakeRegistrationTransport {
    requests: RefCell<Vec<DirectRegistrationHttpRequest>>,
    response: DirectRegistrationHttpResponse,
}

impl FakeRegistrationTransport {
    fn answering(status: u16, body: &str) -> Self {
        Self {
            requests: RefCell::new(Vec::new()),
            response: DirectRegistrationHttpResponse { status, body: body.to_string() },
        }
    }
}

impl DirectRegistrationHttpTransport for FakeRegistrationTransport {
    fn send(
        &self,
        request: DirectRegistrationHttpRequest,
    ) -> Result<DirectRegistrationHttpResponse, String> {
        self.requests.borrow_mut().push(request);
        Ok(self.response.clone())
    }
}

fn harness_paths() -> PublicWarpRegistrationHarnessPaths {
    PublicWarpRegistrationHarnessPaths {
        config_path: "/tmp/harness/isolated/warpnest.toml".to_string(),
        state_store_path: "/tmp/harness/isolated/warpnest.sqlite".to_string(),
    }
}

/// Drives a run against an in-memory store, the way the application drives it
/// against the State Store; also reports whether the run asked for the store.
fn drive(
    harness: PublicWarpRegistrationHarness<
        DirectPublicWarpRegistrationClient<
            FakeRegistrationTransport,
            warpnest::direct_public_warp_registration::FixedWarpKeySource,
        >,
    >,
    gate: PublicWarpIntegrationGate,
) -> (PublicWarpRegistrationHarnessReport, bool, Vec<StoredWarpInstance>) {
    let mut store: Vec<StoredWarpInstance> = Vec::new();
    match harness.run(gate) {
        HarnessStart::Finished(report) => (report, false, store),
        HarnessStart::PrepareStateStore(pending) => {
            assert_eq!(pending.paths(), &harness_paths());
            let config = pending.isolated_config();
            assert_eq!(config.state_store_path, harness_paths().state_store_path);
            match pending.register(Ok(store.len())) {
                HarnessRegistration::Finished(report) => (report, true, store),
                HarnessRegistration::Persist(instance, persistence) => {
                    store.push(instance);
                    let report = persistence.conclude(Ok(store.clone()));
                    (report, true, store)
                }
            }
        }
    }
}

fn open_gate() -> PublicWarpIntegrationGate {
    PublicWarpIntegrationGate { run_warp_integration: true, accept_public_warp_compat_risk: true }
}

#[test]
fn harness_reports_success_without_sensitive_registration_material() {
    let paths = harness_paths();
    let client = DirectPublicWarpRegistrationClient::new(
        FakeRegistrationTransport::answering(200, WGCF_SUCCESS_BODY),
        WarpKeyPair::from_private_key_bytes([21; 32]),
    );
    let harness = PublicWarpRegistrationHarness::new(client, paths.clone()).with_budget(1);

    let (report, prepared, store) = drive(harness, open_gate());

    assert_eq!(report.status, PublicWarpRegistrationHarnessStatus::Succeeded);
    assert_eq!(report.registration_budget, 1);
    assert_eq!(report.config_path, paths.config_path);
    assert_eq!(report.state_store_path, paths.state_store_path);
    assert!(prepared);
    assert_eq!(store.len(), 1);

    let evidence = report.evidence.as_ref().unwrap();
    assert_eq!(evidence.group, "integration");
    assert_eq!(evidence.adapter_kind, PUBLIC_WARP_WIREGUARD_OBSERVED_V1);
    assert_eq!(evidence.adapter_config_version, 1);
    assert_eq!(evidence.persisted_instance_count, 1);
    assert_eq!(evidence.instance_id, store[0].instance_id);

    let rendered = format!("{report:?}");
    assert!(!rendered.contains("fixture-access-token"));
    assert!(!rendered.contains("fixture-secret-token"));
    assert!(!rendered.contains("fixture-license"));
    assert!(!rendered.contains("adapter_config:"));
    assert!(!rendered.contains("config_json"));
    assert!(!rendered.contains("private_key"));
}

#[test]
fn integration_gate_requires_both_public_warp_risk_flags() {
    assert!(
        !PublicWarpIntegrationGate {
            run_warp_integration: false,
            accept_public_warp_compat_risk: false,
        }
        .is_enabled()
    );
    assert!(
        !PublicWarpIntegrationGate {
            run_warp_integration: true,
            accept_public_warp_compat_risk: false,
        }
        .is_enabled()
    );
    assert!(
        !PublicWarpIntegrationGate {
            run_warp_integration: false,
            accept_public_warp_compat_risk: true,
        }
        .is_enabled()
    );
    assert!(
        PublicWarpIntegrationGate { run_warp_integration: true, accept_public_warp_compat_risk: true }
            .is_enabled()
    );
}

#[test]
fn harness_reports_sanitized_classified_registration_failures() {
    let client = DirectPublicWarpRegistrationClient::new(
        FakeRegistrationTransport::answering(403, REJECTION_BODY),
        WarpKeyPair::from_private_key_bytes([22; 32]),
    );
    let harness = PublicWarpRegistrationHarness::new(client, harness_paths()).with_budget(1);

    let (report, prepared, store) = drive(harness, open_gate());

    assert_eq!(report.status, PublicWarpRegistrationHarnessStatus::Failed);
    let failure = report.failure.as_ref().unwrap();
    assert_eq!(failure.class, PublicWarpRegistrationFailureClass::Blocked);
    assert_eq!(failure.message, "[redacted]");
    assert!(report.evidence.is_none());
    assert!(prepared);
    assert!(store.is_empty());

    let rendered = format!("{report:?}");
    assert!(!rendered.contains("fixture-secret-token"));
    assert!(!rendered.contains("registration token"));
}

#[test]
fn harness_skips_without_both_public_warp_integration_gates() {
    let client = DirectPublicWarpRegistrationClient::new(
        FakeRegistrationTransport::answering(200, WGCF_SUCCESS_BODY),
        WarpKeyPair::from_private_key_bytes([23; 32]),
    );
    let harness = PublicWarpRegistrationHarness::new(client, harness_paths()).with_budget(1);

    let (report, prepared, _) = drive(
        harness,
        PublicWarpIntegrationGate { run_warp_integration: true, accept_public_warp_compat_risk: false },
    );

    assert_eq!(report.status, PublicWarpRegistrationHarnessStatus::Skipped);
    assert!(report.skip_reason.unwrap().contains("WARPNEST_RUN_WARP_INTEGRATION"));
    assert!(!prepared);
}

#[test]
fn harness_reports_a_store_that_cannot_be_prepared() {
    let client = DirectPublicWarpRegistrationClient::new(
        FakeRegistrationTransport::answering(200, WGCF_SUCCESS_BODY),
        WarpKeyPair::from_private_key_bytes([24; 32]),
    );
    let harness = PublicWarpRegistrationHarness::new(client, harness_paths()).with_budget(1);
    let pending = match harness.run(open_gate()) {
        HarnessStart::PrepareStateStore(pending) => pending,
        HarnessStart::Finished(_) => panic!("an open gate prepares the store"),
    };
    let report = match pending.register(Err("permission denied".to_string())) {
        HarnessRegistration::Finished(report) => report,
        HarnessRegistration::Persist(_, _) => panic!("nothing is registered without a store"),
    };
    let failure = report.failure.unwrap();
    assert_eq!(failure.class, PublicWarpRegistrationFailureClass::Store);
    assert_eq!(failure.message, "permission denied");
}

#[test]
fn harness_reports_an_exhausted_budget_without_registering() {
    let transport = FakeRegistrationTransport::answering(200, WGCF_SUCCESS_BODY);
    let client =
        DirectPublicWarpRegistrationClient::new(transport, WarpKeyPair::from_private_key_bytes([25; 32]));
    let harness = PublicWarpRegistrationHarness::new(client, harness_paths()).with_budget(1);
    let pending = match harness.run(open_gate()) {
        HarnessStart::PrepareStateStore(pending) => pending,
        HarnessStart::Finished(_) => panic!("an open gate prepares the store"),
    };
    let report = match pending.register(Ok(1)) {
        HarnessRegistration::Finished(report) => report,
        HarnessRegistration::Persist(_, _) => panic!("the budget is spent"),
    };
    let failure = report.failure.unwrap();
    assert_eq!(failure.class, PublicWarpRegistrationFailureClass::BudgetExceeded);
    assert_eq!(failure.message, "registration budget exceeded");
}
