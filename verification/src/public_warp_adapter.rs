//! The Public WARP Adapter configuration: which adapter a WARP Registration uses,
//! its configuration version, and its normalized configuration as JSON text.
use vstd::prelude::*;

use crate::codec::{json_compact, json_compact_text, json_text_is_well_formed, json_well_formed};
use crate::text::{decimal_digits, push_decimal, push_str, str_eq, string_from_chars};

verus! {

/// Adapter kind of the in-process mock adapter.
pub const MOCK_ADAPTER_KIND: &'static str = "mock";

/// Adapter kind of the WireGuard-compatible adapter built from observed public
/// WARP client behaviour.
pub const PUBLIC_WARP_WIREGUARD_OBSERVED_V1: &'static str = "public_warp_wireguard_observed_v1";

/// Normalized adapter configuration text, known to be one JSON value.
#[derive(Clone, PartialEq, Eq)]
pub struct ConfigJson {
    text: String,
}

impl View for ConfigJson {
    type V = Seq<char>;

    closed spec fn view(&self) -> Seq<char> {
        self.text@
    }
}

impl ConfigJson {
    /// The configuration text.
    pub fn as_str(&self) -> (r: &str)
        ensures
            r@ == self@,
    {
        self.text.as_str()
    }

    /// A copy of the configuration text.
    pub fn duplicate(&self) -> (r: Self)
        ensures
            r@ == self@,
    {
        ConfigJson { text: self.text.clone() }
    }
}

/// The adapter kind, version and normalized configuration of a WARP Registration.
#[derive(Clone, PartialEq, Eq)]
pub struct PublicWarpAdapterConfig {
    pub kind: String,
    pub version: u16,
    pub config_json: ConfigJson,
}

/// Why an adapter configuration cannot be used.
#[derive(Debug, Clone, PartialEq, Eq)]
pub enum PublicWarpAdapterError {
    UnsupportedAdapter { kind: String, version: u16 },
    UnsupportedAdapterConfig { kind: String, version: u16, reason: String },
    Blocked(String),
}

/// The stored normalized configuration is not one JSON value.
#[derive(Debug, Clone, Copy, PartialEq, Eq)]
pub enum AdapterConfigError {
    MalformedConfigJson,
}

/// Characters of the mock adapter kind.
pub open spec fn mock_kind() -> Seq<char> {
    seq!['m', 'o', 'c', 'k']
}

/// Characters of the observed WireGuard adapter kind.
pub open spec fn observed_v1_kind() -> Seq<char> {
    seq![
        'p', 'u', 'b', 'l', 'i', 'c', '_', 'w', 'a', 'r', 'p', '_', 'w', 'i', 'r', 'e', 'g', 'u',
        'a', 'r', 'd', '_', 'o', 'b', 's', 'e', 'r', 'v', 'e', 'd', '_', 'v', '1',
    ]
}

/// The adapters this build can run: the mock adapter and the observed WireGuard
/// adapter, each in version 1.
pub open spec fn is_supported_adapter(kind: Seq<char>, version: u16) -> bool {
    version == 1 && (kind == mock_kind() || kind == observed_v1_kind())
}

/// A `String` holding the observed WireGuard adapter kind.
pub fn observed_v1_kind_string() -> (r: String)
    ensures
        r@ == observed_v1_kind(),
{
    let r = String::from_str("public_warp_wireguard_observed_v1");
    proof {
        reveal_strlit("public_warp_wireguard_observed_v1");
    }
    r
}

impl PublicWarpAdapterConfig {
    /// The stored normalized configuration text.
    pub open spec fn config_view(self) -> Seq<char> {
        self.config_json@
    }

    /// The mock adapter, version 1, with an empty JSON object as configuration.
    pub fn mock() -> (r: Self)
        ensures
            r.kind@ == mock_kind(),
            r.version == 1,
            r.config_view() == seq!['{', '}'],
    {
        let kind = String::from_str("mock");
        let text = String::from_str("{}");
        proof {
            reveal_strlit("mock");
            reveal_strlit("{}");
        }
        Self { kind, version: 1, config_json: ConfigJson { text } }
    }

    /// Restores a configuration from storage; the configuration text must be one
    /// JSON value.
    pub fn from_storage(kind: String, version: u16, config_json: String) -> (r: Result<
        Self,
        AdapterConfigError,
    >)
        ensures
            json_well_formed(config_json@) <==> r is Ok,
            r matches Ok(c) ==> c.kind@ == kind@ && c.version == version && c.config_view()
                == config_json@,
    {
        if json_text_is_well_formed(config_json.as_str()) {
            Ok(Self { kind, version, config_json: ConfigJson { text: config_json } })
        } else {
            Err(AdapterConfigError::MalformedConfigJson)
        }
    }

    /// A configuration of an adapter kind and version whose configuration is
    /// given as a JSON text; it is stored as `serde_json` writes it compactly.
    pub fn new(kind: &str, version: u16, config: &str) -> (r: Result<Self, AdapterConfigError>)
        ensures
            json_compact(config@) is None ==> r is Err,
            json_compact(config@) matches Some(text) ==> (json_well_formed(text) <==> r is Ok),
            r matches Ok(c) ==> c.kind@ == kind@ && c.version == version && json_compact(config@)
                == Some(c.config_view()),
    {
        match json_compact_text(config) {
            Some(text) => Self::from_storage(String::from_str(kind), version, text),
            None => Err(AdapterConfigError::MalformedConfigJson),
        }
    }

    /// The observed WireGuard adapter, version 1, with the given normalized
    /// configuration text.
    pub fn public_warp_wireguard_observed_v1(config_json: String) -> (r: Result<
        Self,
        AdapterConfigError,
    >)
        ensures
            json_well_formed(config_json@) <==> r is Ok,
            r matches Ok(c) ==> c.kind@ == observed_v1_kind() && c.version == 1
                && c.config_view() == config_json@,
    {
        Self::from_storage(observed_v1_kind_string(), 1, config_json)
    }

    /// The normalized configuration text.
    pub fn config_json(&self) -> (r: &str)
        ensures
            r@ == self.config_view(),
    {
        self.config_json.as_str()
    }

    /// What status output shows in place of the configuration.
    pub fn redacted_config(&self) -> (r: &'static str)
        ensures
            r@ == seq!['[', 'r', 'e', 'd', 'a', 'c', 't', 'e', 'd', ']'],
    {
        proof {
            reveal_strlit("[redacted]");
        }
        "[redacted]"
    }

    /// Whether this build can run the adapter.
    pub fn is_supported(&self) -> (r: bool)
        ensures
            r == is_supported_adapter(self.kind@, self.version),
    {
        proof {
            reveal_strlit("mock");
            reveal_strlit("public_warp_wireguard_observed_v1");
            assert("mock"@ =~= mock_kind());
            assert("public_warp_wireguard_observed_v1"@ =~= observed_v1_kind());
        }
        self.version == 1 && (str_eq(self.kind.as_str(), "mock") || str_eq(
            self.kind.as_str(),
            "public_warp_wireguard_observed_v1",
        ))
    }

    /// Succeeds for the adapters this build can run and reports the adapter
    /// otherwise.
    pub fn ensure_supported(&self) -> (r: Result<(), PublicWarpAdapterError>)
        ensures
            r is Ok <==> is_supported_adapter(self.kind@, self.version),
            r matches Err(e) ==> (e matches PublicWarpAdapterError::UnsupportedAdapter {
                kind,
                version,
            } && kind@ == self.kind@ && version == self.version),
    {
        if self.is_supported() {
            Ok(())
        } else {
            Err(
                PublicWarpAdapterError::UnsupportedAdapter {
                    kind: self.kind.clone(),
                    version: self.version,
                },
            )
        }
    }

    /// A copy of the configuration.
    pub fn duplicate(&self) -> (r: Self)
        ensures
            r.kind@ == self.kind@,
            r.version == self.version,
            r.config_view() == self.config_view(),
    {
        Self {
            kind: self.kind.clone(),
            version: self.version,
            config_json: self.config_json.duplicate(),
        }
    }
}

/// The text an adapter error displays.
pub open spec fn adapter_error_text(e: PublicWarpAdapterError) -> Seq<char> {
    match e {
        PublicWarpAdapterError::UnsupportedAdapter { kind, version } => "unsupported Public WARP Adapter "@
            + kind@ + " v"@ + decimal_digits(version as nat),
        PublicWarpAdapterError::UnsupportedAdapterConfig { kind, version, reason } =>
            "unsupported Public WARP Adapter "@ + kind@ + " v"@ + decimal_digits(version as nat)
            + ": "@ + reason@,
        PublicWarpAdapterError::Blocked(reason) => "Public WARP Adapter blocked: "@ + reason@,
    }
}

impl PublicWarpAdapterError {
    /// The human-readable message of the error.
    pub fn message(&self) -> (r: String)
        ensures
            r@ == adapter_error_text(*self),
    {
        let mut m: Vec<char> = Vec::new();
        match self {
            PublicWarpAdapterError::UnsupportedAdapter { kind, version } => {
                push_str(&mut m, "unsupported Public WARP Adapter ");
                push_str(&mut m, kind.as_str());
                push_str(&mut m, " v");
                push_decimal(&mut m, *version as u64);
            },
            PublicWarpAdapterError::UnsupportedAdapterConfig { kind, version, reason } => {
                push_str(&mut m, "unsupported Public WARP Adapter ");
                push_str(&mut m, kind.as_str());
                push_str(&mut m, " v");
                push_decimal(&mut m, *version as u64);
                push_str(&mut m, ": ");
                push_str(&mut m, reason.as_str());
            },
            PublicWarpAdapterError::Blocked(reason) => {
                push_str(&mut m, "Public WARP Adapter blocked: ");
                push_str(&mut m, reason.as_str());
            },
        }
        string_from_chars(&m)
    }
}

} // verus!
