use warpnest::config::{AuthConfig, BindAddress, Config, ConfigError, IpAddress, ListenerConfig};
use warpnest::security::{SecurityWarning, file_permission_warnings, redact_sensitive};
use warpnest::state_store::{InstanceLifecycleState, PoolMembershipPreference, StoredWarpInstance};
use warpnest::status::PoolStatus;

fn bind(a: u8, b: u8, c: u8, d: u8, port: u16) -> BindAddress {
    BindAddress { ip: IpAddress::V4(a, b, c, d), port }
}

fn config(management: BindAddress, socks5: BindAddress, http: BindAddress, secret: &str) -> Config {
    Config {
        target_serving_size: 1,
        registration_budget: 3,
        state_store_path: "warpnest.sqlite".to_string(),
        listeners: ListenerConfig { management_bind: management, socks5_bind: socks5, http_bind: http },
        auth: AuthConfig { shared_secret: secret.to_string() },
    }
}

#[test]
fn public_proxy_endpoint_exposure_requires_shared_secret() {
    let config = config(
        bind(127, 0, 0, 1, 0),
        bind(0, 0, 0, 0, 1080),
        bind(127, 0, 0, 1, 8080),
        "",
    );

    let error = config.validate().unwrap_err();
    assert_eq!(error, ConfigError::PublicProxyWithoutSecret);
    assert!(error.message().contains("public Proxy Endpoint exposure requires a shared secret"));
}

#[test]
fn public_listener_exposure_is_allowed_with_shared_secret() {
    let config = config(
        bind(0, 0, 0, 0, 9090),
        bind(0, 0, 0, 0, 1080),
        bind(0, 0, 0, 0, 8080),
        "secret",
    );

    config.validate().unwrap();
}

#[test]
fn status_redacts_recent_errors_that_look_sensitive() {
    let status = PoolStatus::blocked(1, 3, "registration token abc123 rejected");
    let rendered = format!("{status:?}");

    assert!(rendered.contains("[redacted]"));
    assert!(!rendered.contains("abc123"));
}

#[test]
fn restored_status_redacts_instance_recent_errors() {
    let mut instance = StoredWarpInstance::new_mock(
        "default",
        Some("198.51.100.1"),
        PoolMembershipPreference::Serving,
        InstanceLifecycleState::Registered,
        "raw-registration-secret",
    ).unwrap();
    instance.recent_error = Some("private_key leaked in upstream error".to_string());

    let status = PoolStatus::from_restored_instances(1, 3, vec![instance]);
    let rendered = format!("{status:?}");

    assert!(rendered.contains("[redacted]"));
    assert!(!rendered.contains("private_key"));
    assert!(!rendered.contains("raw-registration-secret"));
}

#[test]
fn redaction_leaves_non_sensitive_errors_readable() {
    assert_eq!(redact_sensitive("probe endpoint timeout"), "probe endpoint timeout");
}

#[test]
fn redaction_matches_secret_words_in_any_case() {
    assert_eq!(redact_sensitive("Bearer TOKEN expired"), "[redacted]");
    assert_eq!(redact_sensitive("registration_material missing"), "[redacted]");
    assert_eq!(redact_sensitive("Shared SECRET wrong"), "[redacted]");
}

#[test]
fn broad_file_permissions_are_reported_as_warnings() {
    assert_eq!(
        file_permission_warnings("/var/lib/warpnest.sqlite", Some(0o644)),
        vec![SecurityWarning::FilePermissionsTooBroad {
            path: "/var/lib/warpnest.sqlite".to_string()
        }]
    );
    assert!(file_permission_warnings("/var/lib/warpnest.sqlite", Some(0o600)).is_empty());
    assert!(file_permission_warnings("/var/lib/missing.sqlite", None).is_empty());
}

#[test]
fn management_exposure_and_sizing_rules_are_checked_in_order() {
    let public_management =
        config(bind(0, 0, 0, 0, 9090), bind(127, 0, 0, 1, 1080), bind(127, 0, 0, 1, 8080), "");
    assert_eq!(public_management.validate(), Err(ConfigError::PublicManagementWithoutSecret));

    let mut zero = config(bind(127, 0, 0, 1, 0), bind(127, 0, 0, 1, 1080), bind(127, 0, 0, 1, 8080), "");
    zero.target_serving_size = 0;
    assert_eq!(zero.validate(), Err(ConfigError::TargetServingSizeZero));

    let mut short = config(bind(127, 0, 0, 1, 0), bind(127, 0, 0, 1, 1080), bind(127, 0, 0, 1, 8080), "");
    short.target_serving_size = 4;
    assert_eq!(short.validate(), Err(ConfigError::BudgetBelowTarget));

    let ipv6_loopback = Config {
        listeners: ListenerConfig {
            management_bind: BindAddress { ip: IpAddress::V6(0, 0, 0, 0, 0, 0, 0, 1), port: 9090 },
            socks5_bind: bind(127, 0, 0, 1, 1080),
            http_bind: bind(127, 0, 0, 1, 8080),
        },
        ..Config::default()
    };
    assert_eq!(ipv6_loopback.validate(), Ok(()));
}

#[test]
fn config_validation_rejects_public_management_api_without_authentication() {
    let config = config(
        bind(0, 0, 0, 0, 8080),
        bind(127, 0, 0, 1, 1080),
        bind(127, 0, 0, 1, 8081),
        "",
    );

    let error = config.validate().unwrap_err();
    assert!(error.message().contains("public Management API exposure requires a shared secret"));
}
