use warpnest::retry::{OperationKind, OperationOutcome};
use warpnest::state_store::StoredWarpInstance;
use warpnest::warp_lifecycle::{
    MockRegistrationClient, PublicRegistrationRequest, RegistrationError, RegistrationService,
};

#[test]
fn creates_public_warp_registration_and_persists_sensitive_material() {
    let mut stored: Vec<StoredWarpInstance> = Vec::new();
    let client = MockRegistrationClient::succeeds("public-registration-secret");
    let mut service = RegistrationService::new(client, 2);

    let created = service
        .create_public_registration(stored.len(), PublicRegistrationRequest::default())
        .unwrap();
    stored.push(created.clone());

    assert_eq!(created.group, "default");
    assert_eq!(stored.len(), 1);
    assert_eq!(stored[0].instance_id, created.instance_id);
    assert_eq!(stored[0].redacted_registration_material(), "[redacted]");
    assert_eq!(stored[0].raw_registration_material(), "public-registration-secret");
}

#[test]
fn registration_budget_is_a_hard_limit() {
    let mut stored: Vec<StoredWarpInstance> = Vec::new();
    let client = MockRegistrationClient::succeeds("public-registration-secret");
    let mut service = RegistrationService::new(client, 1);

    let created = service
        .create_public_registration(stored.len(), PublicRegistrationRequest::default())
        .unwrap();
    stored.push(created);
    let error = service
        .create_public_registration(stored.len(), PublicRegistrationRequest::default())
        .err().unwrap();

    assert_eq!(error, RegistrationError::BudgetExceeded);
}

#[test]
fn blocked_public_registration_failure_stops_automatic_retry() {
    let client = MockRegistrationClient::blocked("public WARP registration rejected");
    let mut service = RegistrationService::new(client, 2);

    let error = service
        .create_public_registration(0, PublicRegistrationRequest::default())
        .err().unwrap();

    assert_eq!(error, RegistrationError::Blocked("public WARP registration rejected".to_string()));
    assert_eq!(
        service.retry_state().next_retry(OperationKind::Registration),
        OperationOutcome::Blocked("public WARP registration rejected".to_string())
    );
}

#[test]
fn transient_public_registration_failure_records_retry_without_persisting() {
    let client = MockRegistrationClient::transient("temporary network error");
    let mut service = RegistrationService::new(client, 2);

    let result = service.create_public_registration(0, PublicRegistrationRequest::default());
    let stored: Vec<StoredWarpInstance> = result.iter().cloned().collect();
    let error = result.err().unwrap();

    assert_eq!(error, RegistrationError::Transient("temporary network error".to_string()));
    assert!(matches!(
        service.retry_state().next_retry(OperationKind::Registration),
        OperationOutcome::RetryAfter(_)
    ));
    assert!(stored.is_empty());
}

#[test]
fn unsupported_public_registration_failure_blocks_without_persisting() {
    let client = MockRegistrationClient::unsupported("unsupported public WARP material shape");
    let mut service = RegistrationService::new(client, 2);

    let result = service.create_public_registration(0, PublicRegistrationRequest::default());
    let stored: Vec<StoredWarpInstance> = result.iter().cloned().collect();
    let error = result.err().unwrap();

    assert_eq!(
        error,
        RegistrationError::Unsupported("unsupported public WARP material shape".to_string())
    );
    assert_eq!(
        service.retry_state().next_retry(OperationKind::Registration),
        OperationOutcome::Blocked("unsupported public WARP material shape".to_string())
    );
    assert!(stored.is_empty());
}

#[test]
fn public_scope_request_does_not_support_warp_plus_or_zero_trust_fields() {
    let request = PublicRegistrationRequest::default();

    assert_eq!(request.group, "default");
    assert_eq!(request.label, None);
}

#[test]
fn a_labelled_request_carries_its_group_and_label_to_the_instance() {
    let client = MockRegistrationClient::succeeds("material");
    let mut service = RegistrationService::new(client, 3);
    let request = PublicRegistrationRequest {
        group: "api".to_string(),
        label: Some("laptop".to_string()),
    };

    let created = service.create_public_registration(2, request).unwrap();

    assert_eq!(created.group, "api");
    assert_eq!(created.label.as_deref(), Some("laptop"));
    assert_eq!(created.adapter_config.kind, "mock");
    assert_eq!(service.retry_state().next_retry(OperationKind::Registration), OperationOutcome::Ready);
}
