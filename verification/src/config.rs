//! The Configuration File's contents and its validation rules (Local-First
//! Exposure: listeners that are not loopback-only need a shared secret).
use vstd::prelude::*;

verus! {

/// An IP address of a listener.
#[derive(Debug, Clone, Copy, PartialEq, Eq, Structural)]
pub enum IpAddress {
    V4(u8, u8, u8, u8),
    V6(u16, u16, u16, u16, u16, u16, u16, u16),
}

/// The address a listener binds to.
#[derive(Debug, Clone, Copy, PartialEq, Eq, Structural)]
pub struct BindAddress {
    pub ip: IpAddress,
    pub port: u16,
}

/// The desired behaviour of WarpNest.
#[derive(Debug, Clone, PartialEq, Eq)]
pub struct Config {
    pub target_serving_size: u16,
    pub registration_budget: u16,
    pub state_store_path: String,
    pub listeners: ListenerConfig,
    pub auth: AuthConfig,
}

/// Where the Management API and the Proxy Endpoints listen.
#[derive(Debug, Clone, Copy, PartialEq, Eq, Structural)]
pub struct ListenerConfig {
    pub management_bind: BindAddress,
    pub socks5_bind: BindAddress,
    pub http_bind: BindAddress,
}

/// The shared secret of Proxy Authentication and the Management API; empty when
/// none is configured.
#[derive(Debug, Clone, PartialEq, Eq)]
pub struct AuthConfig {
    pub shared_secret: String,
}

/// Why a configuration is refused.
#[derive(Debug, Clone, Copy, PartialEq, Eq, Structural)]
pub enum ConfigError {
    TargetServingSizeZero,
    BudgetBelowTarget,
    PublicManagementWithoutSecret,
    PublicProxyWithoutSecret,
}

/// A loopback address (IPv4 `127.0.0.0/8` or IPv6 `::1`), as
/// `std::net::IpAddr::is_loopback` documents.
pub open spec fn is_loopback(ip: IpAddress) -> bool {
    match ip {
        IpAddress::V4(a, _, _, _) => a == 127,
        IpAddress::V6(a, b, c, d, e, f, g, h) => a == 0 && b == 0 && c == 0 && d == 0 && e == 0
            && f == 0 && g == 0 && h == 1,
    }
}

/// A listener that only local clients can reach.
pub open spec fn is_local_bind(addr: BindAddress) -> bool {
    is_loopback(addr.ip)
}

/// The verdict of validation on the configuration's values, in the order the
/// rules are checked.
pub open spec fn validation_result(
    target: u16,
    budget: u16,
    listeners: ListenerConfig,
    secret_empty: bool,
) -> Result<(), ConfigError> {
    if target == 0 {
        Err(ConfigError::TargetServingSizeZero)
    } else if budget < target {
        Err(ConfigError::BudgetBelowTarget)
    } else if !is_local_bind(listeners.management_bind) && secret_empty {
        Err(ConfigError::PublicManagementWithoutSecret)
    } else if (!is_local_bind(listeners.socks5_bind) || !is_local_bind(listeners.http_bind))
        && secret_empty {
        Err(ConfigError::PublicProxyWithoutSecret)
    } else {
        Ok(())
    }
}

/// The default State Store file name, `warpnest.sqlite`.
pub open spec fn default_state_store_path() -> Seq<char> {
    seq!['w', 'a', 'r', 'p', 'n', 'e', 's', 't', '.', 's', 'q', 'l', 'i', 't', 'e']
}

/// `127.0.0.1:port`.
pub open spec fn localhost_bind(port: u16) -> BindAddress {
    BindAddress { ip: IpAddress::V4(127u8, 0u8, 0u8, 1u8), port }
}

/// Whether an address is a loopback address.
pub fn is_loopback_ip(ip: &IpAddress) -> (r: bool)
    ensures
        r == is_loopback(*ip),
{
    match ip {
        IpAddress::V4(a, _, _, _) => *a == 127,
        IpAddress::V6(a, b, c, d, e, f, g, h) => *a == 0 && *b == 0 && *c == 0 && *d == 0 && *e
            == 0 && *f == 0 && *g == 0 && *h == 1,
    }
}

/// Whether a listener only accepts local clients.
fn is_local(addr: &BindAddress) -> (r: bool)
    ensures
        r == is_local_bind(*addr),
{
    is_loopback_ip(&addr.ip)
}

impl BindAddress {
    /// `127.0.0.1:port`.
    pub fn localhost_v4(port: u16) -> (r: Self)
        ensures
            r == localhost_bind(port),
    {
        BindAddress { ip: IpAddress::V4(127u8, 0u8, 0u8, 1u8), port }
    }
}

/// The text a configuration error displays.
pub open spec fn config_error_text(e: ConfigError) -> Seq<char> {
    match e {
        ConfigError::TargetServingSizeZero => "target_serving_size must be greater than zero"@,
        ConfigError::BudgetBelowTarget => "registration_budget must be greater than or equal to target_serving_size"@,
        ConfigError::PublicManagementWithoutSecret => "public Management API exposure requires a shared secret"@,
        ConfigError::PublicProxyWithoutSecret => "public Proxy Endpoint exposure requires a shared secret"@,
    }
}

impl ConfigError {
    /// The human-readable message of the error.
    pub fn message(&self) -> (r: &'static str)
        ensures
            r@ == config_error_text(*self),
    {
        proof {
            reveal_strlit("target_serving_size must be greater than zero");
            reveal_strlit(
                "registration_budget must be greater than or equal to target_serving_size",
            );
            reveal_strlit("public Management API exposure requires a shared secret");
            reveal_strlit("public Proxy Endpoint exposure requires a shared secret");
        }
        match self {
            ConfigError::TargetServingSizeZero => "target_serving_size must be greater than zero",
            ConfigError::BudgetBelowTarget => {
                "registration_budget must be greater than or equal to target_serving_size"
            },
            ConfigError::PublicManagementWithoutSecret => {
                "public Management API exposure requires a shared secret"
            },
            ConfigError::PublicProxyWithoutSecret => {
                "public Proxy Endpoint exposure requires a shared secret"
            },
        }
    }
}

impl Config {
    /// The default configuration: one serving instance within a budget of three
    /// registrations, loopback listeners, no shared secret.
    pub fn default_config() -> (r: Self)
        ensures
            r.target_serving_size == 1,
            r.registration_budget == 3,
            r.state_store_path@ == default_state_store_path(),
            r.listeners.management_bind == localhost_bind(0),
            r.listeners.socks5_bind == localhost_bind(1080),
            r.listeners.http_bind == localhost_bind(8080),
            r.auth.shared_secret@.len() == 0,
    {
        let path = String::from_str("warpnest.sqlite");
        proof {
            reveal_strlit("warpnest.sqlite");
        }
        Config {
            target_serving_size: 1,
            registration_budget: 3,
            state_store_path: path,
            listeners: ListenerConfig {
                management_bind: BindAddress::localhost_v4(0),
                socks5_bind: BindAddress::localhost_v4(1080),
                http_bind: BindAddress::localhost_v4(8080),
            },
            auth: AuthConfig { shared_secret: String::new() },
        }
    }

    /// Checks the configuration: a positive Target Serving Size, a Registration
    /// Budget that can reach it, and a shared secret for any listener that is not
    /// loopback-only.
    pub fn validate(&self) -> (r: Result<(), ConfigError>)
        ensures
            r == validation_result(
                self.target_serving_size,
                self.registration_budget,
                self.listeners,
                self.auth.shared_secret@.len() == 0,
            ),
    {
        let secret_empty = self.auth.shared_secret.as_str().is_empty();
        if self.target_serving_size == 0 {
            return Err(ConfigError::TargetServingSizeZero);
        }
        if self.registration_budget < self.target_serving_size {
            return Err(ConfigError::BudgetBelowTarget);
        }
        if !is_local(&self.listeners.management_bind) && secret_empty {
            return Err(ConfigError::PublicManagementWithoutSecret);
        }
        if (!is_local(&self.listeners.socks5_bind) || !is_local(&self.listeners.http_bind))
            && secret_empty {
            return Err(ConfigError::PublicProxyWithoutSecret);
        }
        Ok(())
    }
}

impl Default for Config {
    fn default() -> (r: Self)
        ensures
            r.target_serving_size == 1,
            r.registration_budget == 3,
            r.state_store_path@ == default_state_store_path(),
            r.listeners.management_bind == localhost_bind(0),
            r.listeners.socks5_bind == localhost_bind(1080),
            r.listeners.http_bind == localhost_bind(8080),
            r.auth.shared_secret@.len() == 0,
    {
        Config::default_config()
    }
}

/// Local-First Exposure: a configuration that validates leaves every listener
/// that is not loopback-only behind a non-empty shared secret.
pub proof fn law_validated_exposure_requires_secret(config: Config)
    requires
        validation_result(
            config.target_serving_size,
            config.registration_budget,
            config.listeners,
            config.auth.shared_secret@.len() == 0,
        ) is Ok,
    ensures
        !is_local_bind(config.listeners.management_bind) ==> config.auth.shared_secret@.len() > 0,
        !is_local_bind(config.listeners.socks5_bind) ==> config.auth.shared_secret@.len() > 0,
        !is_local_bind(config.listeners.http_bind) ==> config.auth.shared_secret@.len() > 0,
        0 < config.target_serving_size <= config.registration_budget,
{
}

} // verus!
