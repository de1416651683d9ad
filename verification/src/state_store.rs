//! The records the State Store keeps for each WARP Instance: identity, group,
//! Last Observed Exit IP, remembered pool membership, lifecycle state and the
//! protected registration material.
use vstd::prelude::*;

use crate::public_warp_adapter::{mock_kind, PublicWarpAdapterConfig};
use crate::text::{copy_opt_string, opt_view, push_str, str_eq, string_from_chars};

verus! {

/// The pool a WARP Instance was last remembered in.
#[derive(Debug, Clone, Copy, PartialEq, Eq, Structural)]
pub enum PoolMembershipPreference {
    Serving,
    Standby,
    Failed,
    Disabled,
}

/// Where a WARP Instance stands in the WARP Lifecycle.
#[derive(Debug, Clone, Copy, PartialEq, Eq, Structural)]
pub enum InstanceLifecycleState {
    Registered,
    Mock,
    Disabled,
}

/// Protected raw registration material; only the State Store reads it.
#[derive(Clone, PartialEq, Eq)]
pub struct RegistrationMaterial {
    text: String,
}

impl View for RegistrationMaterial {
    type V = Seq<char>;

    closed spec fn view(&self) -> Seq<char> {
        self.text@
    }
}

impl RegistrationMaterial {
    /// Wraps raw registration material.
    pub fn new(text: &str) -> (r: Self)
        ensures
            r@ == text@,
    {
        RegistrationMaterial { text: String::from_str(text) }
    }

    /// A copy of the material.
    pub fn duplicate(&self) -> (r: Self)
        ensures
            r@ == self@,
    {
        RegistrationMaterial { text: self.text.clone() }
    }

    /// The raw material.
    pub fn as_str(&self) -> (r: &str)
        ensures
            r@ == self@,
    {
        self.text.as_str()
    }
}

/// One persisted WARP Instance and its WARP Registration.
#[derive(Clone, PartialEq, Eq)]
pub struct StoredWarpInstance {
    pub instance_id: String,
    pub group: String,
    pub label: Option<String>,
    pub enabled: bool,
    pub last_observed_exit_ip: Option<String>,
    pub pool_membership_preference: PoolMembershipPreference,
    pub lifecycle_state: InstanceLifecycleState,
    pub registration_material: RegistrationMaterial,
    pub adapter_config: PublicWarpAdapterConfig,
    pub recent_error: Option<String>,
}

/// The lowercase hexadecimal digit of a value below 16.
pub open spec fn hex_digit(n: int) -> char {
    if n < 10 {
        (n + 48) as char
    } else {
        (n + 87) as char
    }
}

/// Bytes as lowercase hexadecimal, two digits each, high digit first.
pub open spec fn hex_bytes(bs: Seq<u8>) -> Seq<char>
    decreases bs.len(),
{
    if bs.len() == 0 {
        seq![]
    } else {
        seq![hex_digit((bs[0] / 16) as int), hex_digit((bs[0] % 16) as int)] + hex_bytes(bs.drop_first())
    }
}

/// The hyphenated text of the random (version 4, RFC 4122 variant) UUID built
/// from 16 random bytes: byte 6 carries the version in its high nibble, byte 8
/// the variant in its two high bits, and the bytes are written in groups of 4,
/// 2, 2, 2 and 6.
pub open spec fn uuid_v4_text(b: Seq<u8>) -> Seq<char> {
    let v = b.update(6, (b[6] & 0x0f) | 0x40).update(8, (b[8] & 0x3f) | 0x80);
    hex_bytes(v.subrange(0, 4)) + "-"@ + hex_bytes(v.subrange(4, 6)) + "-"@ + hex_bytes(
        v.subrange(6, 8),
    ) + "-"@ + hex_bytes(v.subrange(8, 10)) + "-"@ + hex_bytes(v.subrange(10, 16))
}

proof fn lemma_hex_bytes_len(bs: Seq<u8>)
    ensures
        hex_bytes(bs).len() == 2 * bs.len(),
    decreases bs.len(),
{
    if bs.len() > 0 {
        lemma_hex_bytes_len(bs.drop_first());
    }
}

/// The text of a version 4 UUID is 36 characters long.
proof fn lemma_uuid_v4_text_len(b: Seq<u8>)
    requires
        b.len() == 16,
    ensures
        uuid_v4_text(b).len() == 36,
{
    let v = b.update(6, (b[6] & 0x0f) | 0x40).update(8, (b[8] & 0x3f) | 0x80);
    lemma_hex_bytes_len(v.subrange(0, 4));
    lemma_hex_bytes_len(v.subrange(4, 6));
    lemma_hex_bytes_len(v.subrange(6, 8));
    lemma_hex_bytes_len(v.subrange(8, 10));
    lemma_hex_bytes_len(v.subrange(10, 16));
    reveal_strlit("-");
}

/// 16 bytes from `getrandom::fill`; random, so nothing is claimed of them, and
/// a failure is reported as the crate's error text.
#[verifier::external_body]
fn random_id_bytes() -> (r: Result<[u8; 16], String>) {
    let mut bytes = [0u8; 16];
    match getrandom::fill(&mut bytes) {
        Ok(()) => Ok(bytes),
        Err(error) => Err(error.to_string()),
    }
}

/// The hyphenated lowercase text (`Display`) of the UUID that
/// `uuid::Builder::from_random_bytes` builds from 16 random bytes: the bytes with
/// the version 4 and RFC 4122 variant bits set.
#[verifier::external_body]
fn uuid_text_of_random_bytes(bytes: [u8; 16]) -> (r: String)
    ensures
        r@ == uuid_v4_text(bytes@),
{
    uuid::Builder::from_random_bytes(bytes).into_uuid().to_string()
}

/// A fresh random instance identity, a hyphenated version 4 UUID, or why the
/// random source failed.
fn new_instance_id() -> (r: Result<String, String>)
    ensures
        r matches Ok(id) ==> exists|b: Seq<u8>| b.len() == 16 && id@ == uuid_v4_text(b),
        r matches Ok(id) ==> id@.len() == 36,
        r matches Err(m) ==> exists|reason: Seq<char>|
            m@ == "failed to generate WARP Instance identity: "@ + reason,
{
    match random_id_bytes() {
        Ok(bytes) => {
            proof {
                lemma_uuid_v4_text_len(bytes@);
            }
            Ok(uuid_text_of_random_bytes(bytes))
        },
        Err(reason) => {
            let mut m: Vec<char> = Vec::new();
            push_str(&mut m, "failed to generate WARP Instance identity: ");
            push_str(&mut m, reason.as_str());
            Err(string_from_chars(&m))
        },
    }
}

/// A failure text of the identity source.
pub open spec fn identity_failure(m: Seq<char>) -> bool {
    exists|reason: Seq<char>| m == "failed to generate WARP Instance identity: "@ + reason
}

/// The text of a membership preference.
pub open spec fn membership_text(m: PoolMembershipPreference) -> Seq<char> {
    match m {
        PoolMembershipPreference::Serving => seq!['s', 'e', 'r', 'v', 'i', 'n', 'g'],
        PoolMembershipPreference::Standby => seq!['s', 't', 'a', 'n', 'd', 'b', 'y'],
        PoolMembershipPreference::Failed => seq!['f', 'a', 'i', 'l', 'e', 'd'],
        PoolMembershipPreference::Disabled => seq!['d', 'i', 's', 'a', 'b', 'l', 'e', 'd'],
    }
}

/// The text of a lifecycle state.
pub open spec fn lifecycle_text(s: InstanceLifecycleState) -> Seq<char> {
    match s {
        InstanceLifecycleState::Registered => seq![
            'r',
            'e',
            'g',
            'i',
            's',
            't',
            'e',
            'r',
            'e',
            'd',
        ],
        InstanceLifecycleState::Mock => seq!['m', 'o', 'c', 'k'],
        InstanceLifecycleState::Disabled => seq!['d', 'i', 's', 'a', 'b', 'l', 'e', 'd'],
    }
}

/// The preference a stored text denotes; an unknown text counts as `Failed`.
pub open spec fn membership_from_text(t: Seq<char>) -> PoolMembershipPreference {
    if t == membership_text(PoolMembershipPreference::Serving) {
        PoolMembershipPreference::Serving
    } else if t == membership_text(PoolMembershipPreference::Standby) {
        PoolMembershipPreference::Standby
    } else if t == membership_text(PoolMembershipPreference::Disabled) {
        PoolMembershipPreference::Disabled
    } else {
        PoolMembershipPreference::Failed
    }
}

/// The lifecycle state a stored text denotes; an unknown text counts as `Disabled`.
pub open spec fn lifecycle_from_text(t: Seq<char>) -> InstanceLifecycleState {
    if t == lifecycle_text(InstanceLifecycleState::Registered) {
        InstanceLifecycleState::Registered
    } else if t == lifecycle_text(InstanceLifecycleState::Mock) {
        InstanceLifecycleState::Mock
    } else {
        InstanceLifecycleState::Disabled
    }
}

impl PoolMembershipPreference {
    /// The stored text of the preference.
    pub fn as_str(self) -> (r: &'static str)
        ensures
            r@ == membership_text(self),
    {
        proof {
            reveal_strlit("serving");
            reveal_strlit("standby");
            reveal_strlit("failed");
            reveal_strlit("disabled");
        }
        match self {
            Self::Serving => "serving",
            Self::Standby => "standby",
            Self::Failed => "failed",
            Self::Disabled => "disabled",
        }
    }

    /// Reads a stored text back; an unknown text counts as `Failed`.
    pub fn from_str(value: &str) -> (r: Self)
        ensures
            r == membership_from_text(value@),
    {
        proof {
            reveal_strlit("serving");
            reveal_strlit("standby");
            reveal_strlit("failed");
            reveal_strlit("disabled");
            assert("serving"@ =~= membership_text(PoolMembershipPreference::Serving));
            assert("standby"@ =~= membership_text(PoolMembershipPreference::Standby));
            assert("disabled"@ =~= membership_text(PoolMembershipPreference::Disabled));
        }
        if str_eq(value, "serving") {
            Self::Serving
        } else if str_eq(value, "standby") {
            Self::Standby
        } else if str_eq(value, "disabled") {
            Self::Disabled
        } else {
            Self::Failed
        }
    }
}

impl InstanceLifecycleState {
    /// The stored text of the state.
    pub fn as_str(self) -> (r: &'static str)
        ensures
            r@ == lifecycle_text(self),
    {
        proof {
            reveal_strlit("registered");
            reveal_strlit("mock");
            reveal_strlit("disabled");
        }
        match self {
            Self::Registered => "registered",
            Self::Mock => "mock",
            Self::Disabled => "disabled",
        }
    }

    /// Reads a stored text back; an unknown text counts as `Disabled`.
    pub fn from_str(value: &str) -> (r: Self)
        ensures
            r == lifecycle_from_text(value@),
    {
        proof {
            reveal_strlit("registered");
            reveal_strlit("mock");
            assert("registered"@ =~= lifecycle_text(InstanceLifecycleState::Registered));
            assert("mock"@ =~= lifecycle_text(InstanceLifecycleState::Mock));
        }
        if str_eq(value, "registered") {
            Self::Registered
        } else if str_eq(value, "mock") {
            Self::Mock
        } else {
            Self::Disabled
        }
    }
}

impl StoredWarpInstance {
    /// The protected registration material.
    pub open spec fn material_view(self) -> Seq<char> {
        self.registration_material@
    }

    /// A new enabled, unlabeled WARP Instance with a fresh identity and the given
    /// adapter configuration.
    pub fn new_with_adapter(
        group: &str,
        last_observed_exit_ip: Option<&str>,
        pool_membership_preference: PoolMembershipPreference,
        lifecycle_state: InstanceLifecycleState,
        registration_material: &str,
        adapter_config: PublicWarpAdapterConfig,
    ) -> (res: Result<Self, String>)
        ensures
            res matches Err(m) ==> identity_failure(m@),
            res matches Ok(r) ==> {
                &&& r.instance_id@.len() == 36
                &&& r.group@ == group@
                &&& r.label is None
                &&& r.enabled
                &&& (r.last_observed_exit_ip matches Some(ip) <==> last_observed_exit_ip is Some)
                &&& (r.last_observed_exit_ip matches Some(ip) ==> ip@ == last_observed_exit_ip->0@)
                &&& r.pool_membership_preference == pool_membership_preference
                &&& r.lifecycle_state == lifecycle_state
                &&& r.material_view() == registration_material@
                &&& r.adapter_config == adapter_config
                &&& r.recent_error is None
            },
    {
        let instance_id = match new_instance_id() {
            Ok(id) => id,
            Err(m) => {
                return Err(m);
            },
        };
        Ok(Self {
            instance_id,
            group: String::from_str(group),
            label: None,
            enabled: true,
            last_observed_exit_ip: match last_observed_exit_ip {
                Some(ip) => Some(String::from_str(ip)),
                None => None,
            },
            pool_membership_preference,
            lifecycle_state,
            registration_material: RegistrationMaterial::new(registration_material),
            adapter_config,
            recent_error: None,
        })
    }

    /// A new WARP Instance that uses the mock adapter.
    pub fn new_mock(
        group: &str,
        last_observed_exit_ip: Option<&str>,
        pool_membership_preference: PoolMembershipPreference,
        lifecycle_state: InstanceLifecycleState,
        registration_material: &str,
    ) -> (res: Result<Self, String>)
        ensures
            res matches Err(m) ==> identity_failure(m@),
            res matches Ok(r) ==> {
                &&& r.instance_id@.len() == 36
                &&& r.group@ == group@
                &&& r.label is None
                &&& r.enabled
                &&& (r.last_observed_exit_ip matches Some(ip) <==> last_observed_exit_ip is Some)
                &&& (r.last_observed_exit_ip matches Some(ip) ==> ip@ == last_observed_exit_ip->0@)
                &&& r.pool_membership_preference == pool_membership_preference
                &&& r.lifecycle_state == lifecycle_state
                &&& r.material_view() == registration_material@
                &&& r.adapter_config.kind@ == mock_kind()
                &&& r.adapter_config.version == 1
                &&& r.adapter_config.config_view() == seq!['{', '}']
                &&& r.recent_error is None
            },
    {
        Self::new_with_adapter(
            group,
            last_observed_exit_ip,
            pool_membership_preference,
            lifecycle_state,
            registration_material,
            PublicWarpAdapterConfig::mock(),
        )
    }

    /// Restores a record read back from the State Store.
    pub fn from_stored_fields(
        instance_id: String,
        group: String,
        label: Option<String>,
        enabled: bool,
        last_observed_exit_ip: Option<String>,
        pool_membership_preference: PoolMembershipPreference,
        lifecycle_state: InstanceLifecycleState,
        registration_material: RegistrationMaterial,
        adapter_config: PublicWarpAdapterConfig,
        recent_error: Option<String>,
    ) -> (r: Self)
        ensures
            r.instance_id == instance_id,
            r.group == group,
            r.label == label,
            r.enabled == enabled,
            r.last_observed_exit_ip == last_observed_exit_ip,
            r.pool_membership_preference == pool_membership_preference,
            r.lifecycle_state == lifecycle_state,
            r.registration_material == registration_material,
            r.adapter_config == adapter_config,
            r.recent_error == recent_error,
    {
        Self {
            instance_id,
            group,
            label,
            enabled,
            last_observed_exit_ip,
            pool_membership_preference,
            lifecycle_state,
            registration_material,
            adapter_config,
            recent_error,
        }
    }

    /// The raw registration material, for the State Store only.
    pub fn raw_registration_material(&self) -> (r: &str)
        ensures
            r@ == self.material_view(),
    {
        self.registration_material.as_str()
    }

    /// What status and logs show in place of the registration material.
    pub fn redacted_registration_material(&self) -> (r: &'static str)
        ensures
            r@ == seq!['[', 'r', 'e', 'd', 'a', 'c', 't', 'e', 'd', ']'],
    {
        proof {
            reveal_strlit("[redacted]");
        }
        "[redacted]"
    }

    /// A copy of the record.
    pub fn duplicate(&self) -> (r: Self)
        ensures
            same_instance(r, *self),
    {
        Self {
            instance_id: self.instance_id.clone(),
            group: self.group.clone(),
            label: copy_opt_string(&self.label),
            enabled: self.enabled,
            last_observed_exit_ip: copy_opt_string(&self.last_observed_exit_ip),
            pool_membership_preference: self.pool_membership_preference,
            lifecycle_state: self.lifecycle_state,
            registration_material: self.registration_material.duplicate(),
            adapter_config: self.adapter_config.duplicate(),
            recent_error: copy_opt_string(&self.recent_error),
        }
    }
}

/// Two records hold the same values.
pub open spec fn same_instance(a: StoredWarpInstance, b: StoredWarpInstance) -> bool {
    &&& a.instance_id@ == b.instance_id@
    &&& a.group@ == b.group@
    &&& opt_view(a.label) == opt_view(b.label)
    &&& a.enabled == b.enabled
    &&& opt_view(a.last_observed_exit_ip) == opt_view(b.last_observed_exit_ip)
    &&& a.pool_membership_preference == b.pool_membership_preference
    &&& a.lifecycle_state == b.lifecycle_state
    &&& a.material_view() == b.material_view()
    &&& a.adapter_config.kind@ == b.adapter_config.kind@
    &&& a.adapter_config.version == b.adapter_config.version
    &&& a.adapter_config.config_view() == b.adapter_config.config_view()
    &&& opt_view(a.recent_error) == opt_view(b.recent_error)
}

/// What the State Store writes for a membership preference or a lifecycle state
/// reads back as the same value.
pub proof fn law_stored_states_read_back(m: PoolMembershipPreference, s: InstanceLifecycleState)
    ensures
        membership_from_text(membership_text(m)) == m,
        lifecycle_from_text(lifecycle_text(s)) == s,
{
    assert(membership_text(PoolMembershipPreference::Failed) != membership_text(
        PoolMembershipPreference::Serving,
    ));
    assert(membership_text(PoolMembershipPreference::Failed) != membership_text(
        PoolMembershipPreference::Standby,
    ));
    assert(membership_text(PoolMembershipPreference::Failed) != membership_text(
        PoolMembershipPreference::Disabled,
    ));
    assert(membership_text(PoolMembershipPreference::Standby) != membership_text(
        PoolMembershipPreference::Serving,
    ));
    assert(membership_text(PoolMembershipPreference::Disabled) != membership_text(
        PoolMembershipPreference::Serving,
    ));
    assert(membership_text(PoolMembershipPreference::Disabled) != membership_text(
        PoolMembershipPreference::Standby,
    ));
    assert(lifecycle_text(InstanceLifecycleState::Mock) != lifecycle_text(
        InstanceLifecycleState::Registered,
    ));
    assert(lifecycle_text(InstanceLifecycleState::Disabled) != lifecycle_text(
        InstanceLifecycleState::Registered,
    ));
    assert(lifecycle_text(InstanceLifecycleState::Disabled) != lifecycle_text(
        InstanceLifecycleState::Mock,
    ));
}

} // verus!
