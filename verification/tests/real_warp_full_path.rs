use std::cell::RefCell;

use warpnest::direct_public_warp_registration::{
    DirectPublicWarpRegistrationClient, DirectRegistrationHttpRequest,
    DirectRegistrationHttpResponse, DirectRegistrationHttpTransport, PublicWarpIntegrationGate,
    WarpKeyPair,
};
use warpnest::real_warp_integration::{
    FullPathRegistration, FullPathStart, FullPathStep, RealWarpFullPathFailureClass,
    RealWarpFullPathHarness, RealWarpFullPathHarnessPaths, RealWarpFullPathStatus,
};
use warpnest::state_store::StoredWarpInstance;

const WGCF_SUCCESS_BODY: &str = r#"{"id":"fixture-device-id","token":"fixture-access-token","account":{"id":"fixture-account-id","license":"fixture-license"},"config":{"interface":{"addresses":{"v4":"172.16.0.2","v6":"2606:4700:110:8f24::2"}},"peers":[{"public_key":"bmXOC+F1FxEMF9dyiK2H5/1SUtzH0JuVo51h2wPfgyo=","endpoint":{"host":"engage.cloudflareclient.com:2408"}}]}}"#;

struct FakeRegistrationTransport {
    requests: RefCell<Vec<DirectRegistrationHttpRequest>>,
    response: DirectRegistrationHttpResponse,
}

impl FakeRegistrationTransport {
    fn succeeds_with_wgcf_shape() -> Self {
        Self {
            requests: RefCell::new(Vec::new()),
            response: DirectRegistrationHttpResponse {
                status: 200,
                body: WGCF_SUCCESS_BODY.to_string(),
            },
        }
    }
}

impl DirectRegistrationHttpTransport for FakeRegistrationTransport {
    fn send(
        &self,
        request: DirectRegistrationHttpRequest,
    ) -> Result<DirectRegistrationHttpResponse, String> {
        self.requests.borrow_mut().push(request);
        Ok(self.response.clone())
    }
}

fn harness_paths() -> RealWarpFullPathHarnessPaths {
    RealWarpFullPathHarnessPaths {
        config_path: "/tmp/full-path/isolated/warpnest.toml".to_string(),
        state_store_path: "/tmp/full-path/isolated/warpnest.sqlite".to_string(),
    }
}

#[test]
fn full_path_harness_skips_without_both_public_warp_integration_gates() {
    let client = DirectPublicWarpRegistrationClient::new(
        FakeRegistrationTransport::succeeds_with_wgcf_shape(),
        WarpKeyPair::from_private_key_bytes([61; 32]),
    );
    let harness = RealWarpFullPathHarness::new(client, harness_paths());

    let report = match harness.run(PublicWarpIntegrationGate {
        run_warp_integration: true,
        accept_public_warp_compat_risk: false,
    }) {
        FullPathStart::Finished(report) => report,
        FullPathStart::PrepareStateStore(_) => panic!("a closed gate touches nothing"),
    };

    assert_eq!(report.status, RealWarpFullPathStatus::Skipped);
    assert!(report.skip_reason.unwrap().contains("WARPNEST_RUN_WARP_INTEGRATION"));
}

#[test]
fn full_path_registers_up_to_the_target_and_reports_the_runtime_gap() {
    let client = DirectPublicWarpRegistrationClient::new(
        FakeRegistrationTransport::succeeds_with_wgcf_shape(),
        WarpKeyPair::from_private_key_bytes([62; 32]),
    );
    let harness = RealWarpFullPathHarness::new(client, harness_paths());
    let preparing = match harness.run(PublicWarpIntegrationGate {
        run_warp_integration: true,
        accept_public_warp_compat_risk: true,
    }) {
        FullPathStart::PrepareStateStore(preparing) => preparing,
        FullPathStart::Finished(_) => panic!("an open gate runs"),
    };
    assert_eq!(preparing.isolated_config().target_serving_size, 2);
    let mut store: Vec<StoredWarpInstance> = Vec::new();
    let mut step = preparing.prepared(Ok(()));
    let report = loop {
        let registering = match step {
            FullPathStep::CountInstances(registering) => registering,
            FullPathStep::Finished(report) => break report,
        };
        match registering.counted(Ok(store.len())) {
            FullPathRegistration::Persist(instance, next) => {
                store.push(instance);
                step = next.persisted(Ok(()));
            }
            FullPathRegistration::Inspect(inspecting) => {
                break inspecting.inspected(Ok(store.clone()), true);
            }
            FullPathRegistration::Finished(report) => break report,
        }
    };

    assert_eq!(store.len(), 2);
    assert_eq!(report.status, RealWarpFullPathStatus::Failed);
    assert_eq!(
        report.failure.as_ref().unwrap().class,
        RealWarpFullPathFailureClass::RuntimeUnsupported
    );
    let evidence = report.evidence.as_ref().unwrap();
    assert_eq!(evidence.persisted_instance_count, 2);
    assert_eq!(evidence.prepared_runtime_count, 2);
    assert!(evidence.isolated_state_store);
    let rendered = format!("{report:?}");
    assert!(!rendered.contains("fixture-access-token"));
    assert!(!rendered.contains("private_key"));
    assert!(!rendered.contains("adapter_config"));
}
