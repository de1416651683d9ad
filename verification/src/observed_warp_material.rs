//! Observed Public WARP material: WireGuard material captured from a public WARP
//! client, checked for shape, normalized into the observed WireGuard adapter
//! configuration, and turned into a WARP Instance to import.
use vstd::prelude::*;

use crate::codec::{json_node, json_node_at, json_parse_error, json_syntax_error, json_well_formed};
use crate::json_text::{json_string, json_string_array, push_json_string, push_json_string_list};
use crate::public_warp_adapter::{PublicWarpAdapterConfig, observed_v1_kind};
use crate::state_store::{InstanceLifecycleState, PoolMembershipPreference, StoredWarpInstance, identity_failure};
use crate::text::{copy_string, is_blank, push_str, string_from_chars, trim_seq};
use crate::wireguard_fields::{NormalizedFields, WireGuardFields, fields_at, fields_view, read_fields};

verus! {

/// Observed Public WARP material: the raw text as supplied and its normalized
/// adapter configuration.
pub struct ObservedWarpMaterial {
    raw_material: String,
    adapter_config: PublicWarpAdapterConfig,
}

/// Where an import put observed material: the new instance and its group.
#[derive(Debug, Clone, PartialEq, Eq)]
pub struct ImportedObservedWarpMaterial {
    pub instance_id: String,
    pub group: String,
}

/// Why observed material could not be imported.
#[derive(Debug, Clone, PartialEq, Eq)]
pub enum ObservedWarpMaterialError {
    UnsupportedShape(String),
    ReadFailed(String),
    Store(String),
}

/// Whether some item of a list is blank.
pub open spec fn has_blank_item(items: Seq<Seq<char>>) -> bool {
    exists|i: int| 0 <= i < items.len() && trim_seq(#[trigger] items[i]).len() == 0
}

/// A list field is unusable when it is empty or holds a blank item.
pub open spec fn unusable_list(items: Seq<Seq<char>>) -> bool {
    items.len() == 0 || has_blank_item(items)
}

/// The first field of the material that is unusable, in the order
/// `private_key`, `peer_public_key`, `peer_endpoint`, `interface_addresses`,
/// `allowed_ips`, `dns_servers`, as the message that reports it.
pub open spec fn validation_error(f: NormalizedFields) -> Option<Seq<char>> {
    if trim_seq(f.private_key).len() == 0 {
        Some("wireguard.private_key must not be empty"@)
    } else if trim_seq(f.peer_public_key).len() == 0 {
        Some("wireguard.peer_public_key must not be empty"@)
    } else if trim_seq(f.peer_endpoint).len() == 0 {
        Some("wireguard.peer_endpoint must not be empty"@)
    } else if unusable_list(f.interface_addresses) {
        Some("wireguard.interface_addresses must contain at least one non-empty value"@)
    } else if unusable_list(f.allowed_ips) {
        Some("wireguard.allowed_ips must contain at least one non-empty value"@)
    } else if unusable_list(f.dns_servers) {
        Some("wireguard.dns_servers must contain at least one non-empty value"@)
    } else {
        None
    }
}

/// The normalized configuration text of observed material: the fields with
/// their keys in order, compact, `device_id` null when absent.
pub open spec fn observed_config_text(f: NormalizedFields) -> Seq<char> {
    "{\"allowed_ips\":"@ + json_string_array(f.allowed_ips) + ",\"device_id\":"@ + (match f.device_id {
        Some(d) => json_string(d),
        None => "null"@,
    }) + ",\"dns_servers\":"@ + json_string_array(f.dns_servers) + ",\"interface_addresses\":"@
        + json_string_array(f.interface_addresses) + ",\"peer_endpoint\":"@ + json_string(
        f.peer_endpoint,
    ) + ",\"peer_public_key\":"@ + json_string(f.peer_public_key) + ",\"private_key\":"@
        + json_string(f.private_key) + "}"@
}

/// What raw observed material normalizes to: its configuration text, or the
/// reason its shape is unsupported.
pub open spec fn observed_outcome(raw: Seq<char>) -> Result<Seq<char>, Seq<char>> {
    match json_syntax_error(raw) {
        Some(e) => Err("observed Public WARP material is not valid JSON: "@ + e),
        None => if json_node(raw, "/wireguard"@) is None {
            Err("observed Public WARP material must contain a wireguard object"@)
        } else {
            match fields_at(raw, "/wireguard"@) {
                Err(e) => Err("observed Public WARP wireguard material has an unsupported shape: "@ + e),
                Ok(f) => match validation_error(f) {
                    Some(e) => Err(e),
                    None => Ok(observed_config_text(f)),
                },
            }
        },
    }
}

/// The text an error displays.
pub open spec fn observed_error_text(e: ObservedWarpMaterialError) -> Seq<char> {
    match e {
        ObservedWarpMaterialError::UnsupportedShape(reason) => "unsupported material shape: "@
            + reason@,
        ObservedWarpMaterialError::ReadFailed(reason) => reason@,
        ObservedWarpMaterialError::Store(reason) => reason@,
    }
}

fn unsupported(reason: &str) -> (r: ObservedWarpMaterialError)
    ensures
        r matches ObservedWarpMaterialError::UnsupportedShape(m) && m@ == reason@,
{
    ObservedWarpMaterialError::UnsupportedShape(String::from_str(reason))
}

fn unsupported_with(head: &str, detail: &str) -> (r: ObservedWarpMaterialError)
    ensures
        r matches ObservedWarpMaterialError::UnsupportedShape(m) && m@ == head@ + detail@,
{
    let mut m: Vec<char> = Vec::new();
    push_str(&mut m, head);
    push_str(&mut m, detail);
    ObservedWarpMaterialError::UnsupportedShape(string_from_chars(&m))
}

/// Whether a list is empty or holds a blank item.
fn list_unusable(items: &Vec<String>) -> (r: bool)
    ensures
        r == unusable_list(items@.map_values(|s: String| s@)),
{
    let ghost views = items@.map_values(|s: String| s@);
    if items.len() == 0 {
        return true;
    }
    let mut i: usize = 0;
    while i < items.len()
        invariant
            i <= items.len(),
            views == items@.map_values(|s: String| s@),
            forall|k: int| 0 <= k < i ==> trim_seq(#[trigger] views[k]).len() != 0,
        decreases items.len() - i,
    {
        if is_blank(items[i].as_str()) {
            assert(trim_seq(views[i as int]).len() == 0);
            return true;
        }
        i = i + 1;
    }
    false
}

fn validate(f: &WireGuardFields) -> (r: Result<(), ObservedWarpMaterialError>)
    ensures
        match validation_error(fields_view(*f)) {
            None => r is Ok,
            Some(reason) => r matches Err(ObservedWarpMaterialError::UnsupportedShape(m))
                && m@ == reason,
        },
{
    proof {
        reveal_strlit("wireguard.private_key must not be empty");
    }
    assert(f.interface_addresses@.map_values(|s: String| s@) =~= fields_view(
        *f,
    ).interface_addresses);
    assert(f.allowed_ips@.map_values(|s: String| s@) =~= fields_view(*f).allowed_ips);
    assert(f.dns_servers@.map_values(|s: String| s@) =~= fields_view(*f).dns_servers);
    if is_blank(f.private_key.as_str()) {
        return Err(unsupported("wireguard.private_key must not be empty"));
    }
    if is_blank(f.peer_public_key.as_str()) {
        return Err(unsupported("wireguard.peer_public_key must not be empty"));
    }
    if is_blank(f.peer_endpoint.as_str()) {
        return Err(unsupported("wireguard.peer_endpoint must not be empty"));
    }
    if list_unusable(&f.interface_addresses) {
        return Err(
            unsupported("wireguard.interface_addresses must contain at least one non-empty value"),
        );
    }
    if list_unusable(&f.allowed_ips) {
        return Err(unsupported("wireguard.allowed_ips must contain at least one non-empty value"));
    }
    if list_unusable(&f.dns_servers) {
        return Err(unsupported("wireguard.dns_servers must contain at least one non-empty value"));
    }
    Ok(())
}

/// The normalized configuration text of the fields.
fn observed_config_json(f: &WireGuardFields) -> (r: String)
    ensures
        r@ == observed_config_text(fields_view(*f)),
{
    let ghost v = fields_view(*f);
    assert(f.interface_addresses@.map_values(|s: String| s@) =~= v.interface_addresses);
    assert(f.allowed_ips@.map_values(|s: String| s@) =~= v.allowed_ips);
    assert(f.dns_servers@.map_values(|s: String| s@) =~= v.dns_servers);
    let mut acc: Vec<char> = Vec::new();
    push_str(&mut acc, "{\"allowed_ips\":");
    push_json_string_list(&mut acc, &f.allowed_ips);
    push_str(&mut acc, ",\"device_id\":");
    match &f.device_id {
        Some(d) => push_json_string(&mut acc, d.as_str()),
        None => push_str(&mut acc, "null"),
    }
    push_str(&mut acc, ",\"dns_servers\":");
    push_json_string_list(&mut acc, &f.dns_servers);
    push_str(&mut acc, ",\"interface_addresses\":");
    push_json_string_list(&mut acc, &f.interface_addresses);
    push_str(&mut acc, ",\"peer_endpoint\":");
    push_json_string(&mut acc, f.peer_endpoint.as_str());
    push_str(&mut acc, ",\"peer_public_key\":");
    push_json_string(&mut acc, f.peer_public_key.as_str());
    push_str(&mut acc, ",\"private_key\":");
    push_json_string(&mut acc, f.private_key.as_str());
    push_str(&mut acc, "}");
    let r = string_from_chars(&acc);
    assert(r@ =~= observed_config_text(v));
    r
}

/// Normalizes raw observed material into its configuration text, or says why
/// its shape is unsupported.
pub fn normalize_observed_material(raw_material: &str) -> (r: Result<
    String,
    ObservedWarpMaterialError,
>)
    ensures
        match observed_outcome(raw_material@) {
            Ok(config) => r matches Ok(t) && t@ == config,
            Err(reason) => r matches Err(ObservedWarpMaterialError::UnsupportedShape(m)) && m@
                == reason,
        },
{
    match json_parse_error(raw_material) {
        Some(e) => {
            return Err(
                unsupported_with(
                    "observed Public WARP material is not valid JSON: ",
                    e.as_str(),
                ),
            );
        },
        None => {},
    }
    if json_node_at(raw_material, "/wireguard").is_none() {
        return Err(unsupported("observed Public WARP material must contain a wireguard object"));
    }
    let fields = match read_fields(raw_material, "/wireguard") {
        Ok(f) => f,
        Err(e) => {
            return Err(
                unsupported_with(
                    "observed Public WARP wireguard material has an unsupported shape: ",
                    e.as_str(),
                ),
            );
        },
    };
    match validate(&fields) {
        Ok(()) => {},
        Err(e) => {
            return Err(e);
        },
    }
    Ok(observed_config_json(&fields))
}

impl ObservedWarpMaterial {
    /// The raw material as supplied.
    pub closed spec fn spec_raw(self) -> Seq<char> {
        self.raw_material@
    }

    /// The normalized adapter configuration.
    pub closed spec fn spec_adapter(self) -> PublicWarpAdapterConfig {
        self.adapter_config
    }

    /// Reads observed material: the raw text is kept as supplied and normalized
    /// into the observed WireGuard adapter, version 1.
    pub fn from_json(raw_material: &str) -> (r: Result<Self, ObservedWarpMaterialError>)
        ensures
            match observed_outcome(raw_material@) {
                Err(reason) => r matches Err(ObservedWarpMaterialError::UnsupportedShape(m)) && m@
                    == reason,
                Ok(config) => match r {
                    Ok(m) => {
                        &&& m.spec_raw() == raw_material@
                        &&& m.spec_adapter().kind@ == observed_v1_kind()
                        &&& m.spec_adapter().version == 1
                        &&& m.spec_adapter().config_view() == config
                    },
                    Err(e) => !json_well_formed(config) && (e matches ObservedWarpMaterialError::UnsupportedShape(m)
                        && m@
                        == "failed to create normalized Public WARP Adapter config: failed to parse normalized adapter config"@),
                },
            },
    {
        let config = match normalize_observed_material(raw_material) {
            Ok(t) => t,
            Err(e) => {
                return Err(e);
            },
        };
        match PublicWarpAdapterConfig::public_warp_wireguard_observed_v1(config) {
            Ok(adapter_config) => Ok(
                ObservedWarpMaterial { raw_material: String::from_str(raw_material), adapter_config },
            ),
            Err(_) => Err(
                unsupported(
                    "failed to create normalized Public WARP Adapter config: failed to parse normalized adapter config",
                ),
            ),
        }
    }

    /// The raw material as supplied.
    pub fn raw_material(&self) -> (r: &str)
        ensures
            r@ == self.spec_raw(),
    {
        self.raw_material.as_str()
    }

    /// The normalized adapter configuration.
    pub fn adapter_config(&self) -> (r: &PublicWarpAdapterConfig)
        ensures
            *r == self.spec_adapter(),
    {
        &self.adapter_config
    }

    /// The WARP Instance an import persists: a fresh standby instance of the
    /// group, registered, with the label, the raw material and the normalized
    /// adapter configuration.
    pub fn instance_for_import(&self, group: &str, label: Option<String>) -> (res: Result<
        StoredWarpInstance,
        ObservedWarpMaterialError,
    >)
        ensures
            res matches Err(e) ==> (e matches ObservedWarpMaterialError::Store(m)
                && identity_failure(m@)),
            res matches Ok(r) ==> {
                &&& r.instance_id@.len() == 36
                &&& r.group@ == group@
                &&& r.label == label
                &&& r.enabled
                &&& r.last_observed_exit_ip is None
                &&& r.pool_membership_preference == PoolMembershipPreference::Standby
                &&& r.lifecycle_state == InstanceLifecycleState::Registered
                &&& r.material_view() == self.spec_raw()
                &&& r.adapter_config.kind@ == self.spec_adapter().kind@
                &&& r.adapter_config.version == self.spec_adapter().version
                &&& r.adapter_config.config_view() == self.spec_adapter().config_view()
                &&& r.recent_error is None
            },
    {
        match StoredWarpInstance::new_with_adapter(
            group,
            None,
            PoolMembershipPreference::Standby,
            InstanceLifecycleState::Registered,
            self.raw_material.as_str(),
            self.adapter_config.duplicate(),
        ) {
            Ok(mut instance) => {
                instance.label = label;
                Ok(instance)
            },
            Err(m) => Err(ObservedWarpMaterialError::Store(m)),
        }
    }
}

impl ImportedObservedWarpMaterial {
    /// Where an instance was imported: its identity and group.
    pub fn of(instance: &StoredWarpInstance) -> (r: Self)
        ensures
            r.instance_id@ == instance.instance_id@,
            r.group@ == instance.group@,
    {
        ImportedObservedWarpMaterial {
            instance_id: copy_string(&instance.instance_id),
            group: copy_string(&instance.group),
        }
    }
}

impl ObservedWarpMaterialError {
    /// The error for material that could not be read from a path.
    pub fn read_failed(path: &str, detail: &str) -> (r: Self)
        ensures
            r matches ObservedWarpMaterialError::ReadFailed(m) && m@
                == "failed to read observed Public WARP material "@ + path@ + ": "@ + detail@,
    {
        let mut m: Vec<char> = Vec::new();
        push_str(&mut m, "failed to read observed Public WARP material ");
        push_str(&mut m, path);
        push_str(&mut m, ": ");
        push_str(&mut m, detail);
        ObservedWarpMaterialError::ReadFailed(string_from_chars(&m))
    }

    /// The error for material that could not be persisted.
    pub fn store_failed(detail: &str) -> (r: Self)
        ensures
            r matches ObservedWarpMaterialError::Store(m) && m@
                == "failed to persist observed Public WARP material: "@ + detail@,
    {
        let mut m: Vec<char> = Vec::new();
        push_str(&mut m, "failed to persist observed Public WARP material: ");
        push_str(&mut m, detail);
        ObservedWarpMaterialError::Store(string_from_chars(&m))
    }

    /// The human-readable message of the error.
    pub fn message(&self) -> (r: String)
        ensures
            r@ == observed_error_text(*self),
    {
        match self {
            ObservedWarpMaterialError::UnsupportedShape(reason) => {
                let mut m: Vec<char> = Vec::new();
                push_str(&mut m, "unsupported material shape: ");
                push_str(&mut m, reason.as_str());
                string_from_chars(&m)
            },
            ObservedWarpMaterialError::ReadFailed(reason) => copy_string(reason),
            ObservedWarpMaterialError::Store(reason) => copy_string(reason),
        }
    }
}

} // verus!
