use std::cell::RefCell;

use base64::Engine;
use base64::engine::general_purpose::STANDARD as BASE64;
use serde_json::Value;
use warpnest::direct_public_warp_registration::{
    DirectPublicWarpRegistrationClient, DirectRegistrationHttpRequest,
    DirectRegistrationHttpResponse, DirectRegistrationHttpTransport, WarpKeyPair,
    classify_status, compatibility_headers, normalize_registration_response,
};
use warpnest::public_warp_adapter::PUBLIC_WARP_WIREGUARD_OBSERVED_V1;
use warpnest::state_store::StoredWarpInstance;
use warpnest::warp_lifecycle::{
    PublicRegistrationRequest, RegistrationClient, RegistrationError, RegistrationService,
};

const WGCF_SUCCESS_BODY: &str = r#"{"id":"fixture-device-id","token":"fixture-access-token","account":{"id":"fixture-account-id","license":"fixture-license"},"config":{"interface":{"addresses":{"v4":"172.16.0.2","v6":"2606:4700:110:8f24::2"}},"peers":[{"public_key":"fixture-peer-public-key","endpoint":{"host":"engage.cloudflareclient.com:2408"}}]}}"#;

struct FakeRegistrationTransport {
    requests: RefCell<Vec<DirectRegistrationHttpRequest>>,
    response: DirectRegistrationHttpResponse,
}

impl FakeRegistrationTransport {
    fn succeeds_with_wgcf_shape() -> Self {
        Self::responds(200, WGCF_SUCCESS_BODY)
    }

    fn responds(status: u16, body: &str) -> Self {
        Self {
            requests: RefCell::new(Vec::new()),
            response: DirectRegistrationHttpResponse { status, body: body.to_string() },
        }
    }
}

impl DirectRegistrationHttpTransport for FakeRegistrationTransport {
    fn send(
        &self,
        request: DirectRegistrationHttpRequest,
    ) -> Result<DirectRegistrationHttpResponse, String> {
        self.requests.borrow_mut().push(request);
        Ok(self.response.clone())
    }
}

fn header<'a>(request: &'a DirectRegistrationHttpRequest, name: &str) -> Option<&'a String> {
    request.headers.iter().find(|(key, _)| key == name).map(|(_, value)| value)
}

#[test]
fn direct_registration_maps_wgcf_response_to_observed_adapter_config() {
    let transport = FakeRegistrationTransport::succeeds_with_wgcf_shape();
    let key_pair = WarpKeyPair::from_private_key_bytes([7; 32]);
    let mut client = DirectPublicWarpRegistrationClient::new(transport, key_pair.clone());

    let registration =
        client.create_public_registration(&PublicRegistrationRequest::default()).unwrap();

    let raw: Value = serde_json::from_str(&registration.registration_material).unwrap();
    assert_eq!(raw["response"]["id"], "fixture-device-id");
    assert_eq!(raw["response"]["token"], "fixture-access-token");
    assert_eq!(registration.adapter_config.kind, PUBLIC_WARP_WIREGUARD_OBSERVED_V1);
    assert_eq!(registration.adapter_config.version, 1);

    let normalized: Value =
        serde_json::from_str(registration.adapter_config.config_json()).unwrap();
    assert_eq!(normalized["private_key"], key_pair.private_key_base64());
    assert_eq!(
        normalized["interface_addresses"],
        Value::from(vec!["172.16.0.2/32", "2606:4700:110:8f24::2/128"])
    );
    assert_eq!(normalized["peer_public_key"], "fixture-peer-public-key");
    assert_eq!(normalized["peer_endpoint"], "engage.cloudflareclient.com:2408");
    assert_eq!(normalized["allowed_ips"], Value::from(vec!["0.0.0.0/0", "::/0"]));
    assert_eq!(
        normalized["dns_servers"],
        Value::from(vec!["1.1.1.1", "1.0.0.1", "2606:4700:4700::1111", "2606:4700:4700::1001"])
    );
    assert_eq!(normalized["device_id"], "fixture-device-id");

    let requests = client.transport().requests.borrow();
    assert_eq!(requests.len(), 1);
    assert_eq!(requests[0].url, "https://api.cloudflareclient.com/v0a1922/reg");
    assert_eq!(header(&requests[0], "User-Agent"), Some(&"okhttp/3.12.1".to_string()));
    assert_eq!(header(&requests[0], "CF-Client-Version"), Some(&"a-6.3-1922".to_string()));
    let body: Value = serde_json::from_str(&requests[0].body).unwrap();
    assert_eq!(body["fcm_token"], "");
    assert_eq!(body["install_id"], "");
    assert_eq!(body["key"], key_pair.public_key_base64());
    assert_eq!(body["locale"], "en_US");
    assert_eq!(body["model"], "PC");
    assert_eq!(body["type"], "Android");
    assert!(body["tos"].as_str().is_some());
}

#[test]
fn generated_wireguard_private_key_material_is_clamped() {
    let key_pair = WarpKeyPair::from_private_key_bytes([255; 32]);
    let decoded = BASE64.decode(key_pair.private_key_base64()).unwrap();

    assert_eq!(decoded[0] & 7, 0);
    assert_eq!(decoded[31] & 128, 0);
    assert_eq!(decoded[31] & 64, 64);
}

#[test]
fn direct_registration_service_persists_raw_and_normalized_material() {
    let mut restored: Vec<StoredWarpInstance> = Vec::new();
    let transport = FakeRegistrationTransport::succeeds_with_wgcf_shape();
    let key_pair = WarpKeyPair::from_private_key_bytes([8; 32]);
    let client = DirectPublicWarpRegistrationClient::new(transport, key_pair);
    let mut service = RegistrationService::new(client, 1);

    let created = service
        .create_public_registration(
            restored.len(),
            PublicRegistrationRequest {
                group: "direct".to_string(),
                label: Some("direct public WARP".to_string()),
            },
        )
        .unwrap();
    restored.push(created.clone());

    assert_eq!(created.group, "direct");
    assert_eq!(restored.len(), 1);
    assert_eq!(restored[0].instance_id, created.instance_id);
    assert_eq!(restored[0].group, "direct");
    assert_eq!(restored[0].label.as_deref(), Some("direct public WARP"));
    assert!(restored[0]
        .raw_registration_material()
        .contains("\"adapter\":\"wgcf-derived-public-warp-registration\""));
    assert_eq!(restored[0].adapter_config.kind, PUBLIC_WARP_WIREGUARD_OBSERVED_V1);
    assert_eq!(restored[0].adapter_config.version, 1);
}

#[test]
fn direct_registration_classifies_public_service_rejection_as_blocked() {
    let transport = FakeRegistrationTransport::responds(
        403,
        r#"{"errors":[{"message":"public WARP registration rejected by compatibility gate"}]}"#,
    );
    let key_pair = WarpKeyPair::from_private_key_bytes([9; 32]);
    let mut client = DirectPublicWarpRegistrationClient::new(transport, key_pair);

    let error =
        client.create_public_registration(&PublicRegistrationRequest::default()).err().unwrap();

    assert_eq!(
        error,
        RegistrationError::Blocked(
            "Public WARP registration rejected with HTTP 403: public WARP registration rejected by compatibility gate".to_string()
        )
    );
}

#[test]
fn direct_registration_classifies_unknown_success_shape_as_unsupported() {
    let transport = FakeRegistrationTransport::responds(
        200,
        r#"{"id":"fixture-device-id","token":"fixture-access-token","config":{"interface":{"addresses":{"v4":"172.16.0.2"}},"peers":[]}}"#,
    );
    let key_pair = WarpKeyPair::from_private_key_bytes([11; 32]);
    let mut client = DirectPublicWarpRegistrationClient::new(transport, key_pair);

    let error =
        client.create_public_registration(&PublicRegistrationRequest::default()).err().unwrap();

    assert!(matches!(&error, RegistrationError::Unsupported(_)));
    match error {
        RegistrationError::Unsupported(reason) => {
            assert!(reason.contains("unsupported"));
        }
        unexpected => panic!("expected unsupported registration error, got {unexpected:?}"),
    }
}

#[test]
fn status_classes_decide_the_registration_error() {
    assert_eq!(classify_status(204, ""), Ok(()));
    assert_eq!(
        classify_status(429, r#"{"error":"slow down"}"#),
        Err(RegistrationError::Transient(
            "Public WARP registration returned retryable HTTP 429: slow down".to_string()
        ))
    );
    assert_eq!(
        classify_status(404, "not json"),
        Err(RegistrationError::Unsupported(
            "Public WARP registration returned unsupported HTTP 404: remote response omitted a public error message".to_string()
        ))
    );
    assert_eq!(
        classify_status(302, "{}"),
        Err(RegistrationError::Transient(
            "Public WARP registration returned HTTP 302: remote response omitted a public error message".to_string()
        ))
    );
}

#[test]
fn a_missing_peer_is_reported_by_name() {
    let key_pair = WarpKeyPair::from_private_key_bytes([12; 32]);
    let body = r#"{"id":"d","config":{"interface":{"addresses":{"v4":"172.16.0.2","v6":"::2"}},"peers":[]}}"#;
    let error = normalize_registration_response(body, &key_pair).err().unwrap();
    assert_eq!(
        error,
        RegistrationError::Unsupported(
            "unsupported Public WARP registration response shape: missing config.peers[0]".to_string()
        )
    );
    let blank_id = r#"{"id":"  ","config":{}}"#;
    assert_eq!(
        normalize_registration_response(blank_id, &key_pair).err().unwrap(),
        RegistrationError::Unsupported(
            "unsupported Public WARP registration response shape: id must not be empty".to_string()
        )
    );
}

#[test]
fn the_compatibility_headers_are_sent_with_every_request() {
    let headers = compatibility_headers();
    assert!(headers.contains(&("User-Agent".to_string(), "okhttp/3.12.1".to_string())));
    assert!(headers.contains(&("CF-Client-Version".to_string(), "a-6.3-1922".to_string())));
}

#[test]
fn the_public_key_is_the_x25519_key_of_the_clamped_private_key() {
    let key_pair = WarpKeyPair::from_private_key_bytes([1; 32]);
    let private = BASE64.decode(key_pair.private_key_base64()).unwrap();
    let secret: [u8; 32] = private.try_into().unwrap();
    let expected = x25519_dalek::PublicKey::from(&x25519_dalek::StaticSecret::from(secret));
    assert_eq!(key_pair.public_key_base64(), BASE64.encode(expected.to_bytes()));
}
