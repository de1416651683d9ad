//! The User-Space Data Plane's configuration side: requests and targets, the
//! BoringTun runtime configuration read from a normalized Public WARP adapter
//! configuration, the prepared data plane's instances, and the mock data plane's
//! replies.
use vstd::prelude::*;

use crate::codec::{base64_decode, base64_standard_decode};
use crate::config::IpAddress;
use crate::ip_text::{ip_of, parse_ip};
use crate::public_warp_adapter::{PublicWarpAdapterConfig, PublicWarpAdapterError, is_supported_adapter, observed_v1_kind};
use crate::runtime_pump::{runtime_stack_accepts, stack_accepts};
use crate::wireguard_fields::{NormalizedFields, WireGuardFields, fields_at, fields_view, read_fields};
use crate::text::{chars_of, copy_string, decimal_digits, find_first, find_last, first_index_of, int_error_message, int_error_text, last_index_of, parse_uint, push_decimal, push_str, slice_chars, str_eq, string_from_chars, trim, trim_seq, uint_result};

pub use crate::runtime_pump::{
    RuntimeLifecycleState, RuntimePacketPump, RuntimePacketPumpError, RuntimePumpReport,
    RuntimeTransportEvent,
};

verus! {

/// Which transport a data plane request uses.
#[derive(Debug, Clone, Copy, PartialEq, Eq, Structural)]
pub enum DataPlaneProtocol {
    Tcp,
    Udp,
}

/// One request through a WARP Instance: protocol, instance, target and payload.
#[derive(Debug, Clone, PartialEq, Eq)]
pub struct DataPlaneRequest {
    pub protocol: DataPlaneProtocol,
    pub instance_id: String,
    pub target_host: String,
    pub target_port: u16,
    pub payload: Vec<u8>,
}

/// The payload a request got back.
#[derive(Debug, Clone, PartialEq, Eq)]
pub struct DataPlaneResponse {
    pub payload: Vec<u8>,
}

/// A TCP target through one WARP Instance; the host stays a name so that it is
/// resolved inside the instance's path.
#[derive(Debug, Clone, PartialEq, Eq)]
pub struct DataPlaneTarget {
    pub instance_id: String,
    pub host: String,
    pub port: u16,
}

/// One UDP datagram for a target.
#[derive(Debug, Clone, PartialEq, Eq)]
pub struct UdpDatagram {
    pub target_host: String,
    pub target_port: u16,
    pub payload: Vec<u8>,
}

/// A WARP Instance and the adapter configuration its data plane runs.
#[derive(Clone, PartialEq, Eq)]
pub struct DataPlaneInstanceConfig {
    pub instance_id: String,
    pub adapter_config: PublicWarpAdapterConfig,
}

/// A 32-byte WireGuard key.
#[derive(Clone, PartialEq, Eq)]
pub struct WireGuardKey([u8; 32]);

/// An IP network in CIDR form.
#[derive(Debug, Clone, Copy, PartialEq, Eq, Structural)]
pub struct IpNetwork {
    address: IpAddress,
    prefix_len: u8,
}

/// The UDP endpoint of the WireGuard peer.
#[derive(Debug, Clone, PartialEq, Eq)]
pub struct WireGuardPeerEndpoint {
    host: String,
    port: u16,
}

/// Everything the BoringTun runtime needs for one WARP Instance.
#[derive(Clone, PartialEq, Eq)]
pub struct BoringTunRuntimeConfig {
    private_key: WireGuardKey,
    interface_addresses: Vec<IpNetwork>,
    peer_public_key: WireGuardKey,
    peer_endpoint: WireGuardPeerEndpoint,
    allowed_ips: Vec<IpNetwork>,
    dns_servers: Vec<IpAddress>,
    device_id: Option<String>,
}

/// A runtime configuration, as values.
pub struct RuntimeConfigView {
    pub private_key: Seq<u8>,
    pub interface_addresses: Seq<(IpAddress, u8)>,
    pub peer_public_key: Seq<u8>,
    pub peer_host: Seq<char>,
    pub peer_port: u16,
    pub allowed_ips: Seq<(IpAddress, u8)>,
    pub dns_servers: Seq<IpAddress>,
    pub device_id: Option<Seq<char>>,
}

/// An adapter error, as values.
pub enum AdapterErrorView {
    UnsupportedAdapter { kind: Seq<char>, version: u16 },
    UnsupportedAdapterConfig { kind: Seq<char>, version: u16, reason: Seq<char> },
    Blocked(Seq<char>),
}

/// An adapter error as values.
pub open spec fn adapter_error_view(e: PublicWarpAdapterError) -> AdapterErrorView {
    match e {
        PublicWarpAdapterError::UnsupportedAdapter { kind, version } => AdapterErrorView::UnsupportedAdapter {
            kind: kind@,
            version,
        },
        PublicWarpAdapterError::UnsupportedAdapterConfig { kind, version, reason } => AdapterErrorView::UnsupportedAdapterConfig {
            kind: kind@,
            version,
            reason: reason@,
        },
        PublicWarpAdapterError::Blocked(reason) => AdapterErrorView::Blocked(reason@),
    }
}

/// A network as its address and prefix length.
pub open spec fn network_view(n: IpNetwork) -> (IpAddress, u8) {
    (n.spec_address(), n.spec_prefix_len())
}

/// Networks as addresses and prefix lengths.
pub open spec fn networks_view(v: Seq<IpNetwork>) -> Seq<(IpAddress, u8)> {
    v.map_values(|n: IpNetwork| network_view(n))
}

/// `{field} must not be empty` when the trimmed value is empty, else the trimmed
/// value.
pub open spec fn non_empty(field: Seq<char>, value: Seq<char>) -> Result<Seq<char>, Seq<char>> {
    if trim_seq(value).len() == 0 {
        Err(field + " must not be empty"@)
    } else {
        Ok(trim_seq(value))
    }
}

/// A WireGuard key field: non-empty, standard base64, exactly 32 bytes.
pub open spec fn key_of(field: Seq<char>, value: Seq<char>) -> Result<Seq<u8>, Seq<char>> {
    match non_empty(field, value) {
        Err(e) => Err(e),
        Ok(t) => match base64_standard_decode(t) {
            Err(e) => Err(field + " is not valid base64: "@ + e),
            Ok(bytes) => if bytes.len() == 32 {
                Ok(bytes)
            } else {
                Err(field + " must decode to 32 bytes, got "@ + decimal_digits(bytes.len()))
            },
        },
    }
}

/// The network `address/prefix` denotes, or why it is not one.
pub open spec fn network_of(t: Seq<char>) -> Result<(IpAddress, u8), Seq<char>> {
    match first_index_of(t, '/') {
        None => Err("missing CIDR prefix length"@),
        Some(i) => match ip_of(t.take(i)) {
            None => Err("invalid IP address: invalid IP address syntax"@),
            Some(address) => match uint_result(t.skip(i + 1), 255) {
                Err(k) => Err("invalid CIDR prefix length: "@ + int_error_text(k)),
                Ok(prefix) => {
                    let max: nat = match address {
                        IpAddress::V4(..) => 32,
                        IpAddress::V6(..) => 128,
                    };
                    if prefix > max {
                        Err(
                            "CIDR prefix length "@ + decimal_digits(prefix) + " exceeds maximum "@
                                + decimal_digits(max),
                        )
                    } else {
                        Ok((address, prefix as u8))
                    }
                },
            },
        },
    }
}

/// One list item that must be a network.
#[verifier::opaque]
pub open spec fn network_item(field: Seq<char>, value: Seq<char>) -> Result<(IpAddress, u8), Seq<char>> {
    match non_empty(field, value) {
        Err(e) => Err(e),
        Ok(t) => match network_of(t) {
            Err(e) => Err(field + " contains "@ + e),
            Ok(n) => Ok(n),
        },
    }
}

/// One list item that must be an address.
#[verifier::opaque]
pub open spec fn address_item(field: Seq<char>, value: Seq<char>) -> Result<IpAddress, Seq<char>> {
    match non_empty(field, value) {
        Err(e) => Err(e),
        Ok(t) => match ip_of(t) {
            None => Err(field + " contains invalid IP address syntax"@),
            Some(a) => Ok(a),
        },
    }
}

/// A list of networks: at least one, each non-empty and valid.
pub open spec fn networks_of(field: Seq<char>, values: Seq<Seq<char>>) -> Result<
    Seq<(IpAddress, u8)>,
    Seq<char>,
> {
    if values.len() == 0 {
        Err(field + " must contain at least one value"@)
    } else {
        networks_from(field, values)
    }
}

/// Each value a non-empty, valid network; the first failure wins.
pub open spec fn networks_from(field: Seq<char>, values: Seq<Seq<char>>) -> Result<
    Seq<(IpAddress, u8)>,
    Seq<char>,
>
    decreases values.len(),
{
    if values.len() == 0 {
        Ok(seq![])
    } else {
        match networks_from(field, values.drop_last()) {
            Err(e) => Err(e),
            Ok(nets) => match network_item(field, values.last()) {
                Err(e) => Err(e),
                Ok(n) => Ok(nets.push(n)),
            },
        }
    }
}

/// A list of addresses: at least one, each non-empty and valid.
pub open spec fn addresses_of(field: Seq<char>, values: Seq<Seq<char>>) -> Result<
    Seq<IpAddress>,
    Seq<char>,
> {
    if values.len() == 0 {
        Err(field + " must contain at least one value"@)
    } else {
        addresses_from(field, values)
    }
}

/// Each value a non-empty, valid address; the first failure wins.
pub open spec fn addresses_from(field: Seq<char>, values: Seq<Seq<char>>) -> Result<
    Seq<IpAddress>,
    Seq<char>,
>
    decreases values.len(),
{
    if values.len() == 0 {
        Ok(seq![])
    } else {
        match addresses_from(field, values.drop_last()) {
            Err(e) => Err(e),
            Ok(addrs) => match address_item(field, values.last()) {
                Err(e) => Err(e),
                Ok(a) => Ok(addrs.push(a)),
            },
        }
    }
}

/// How `peer_endpoint` splits into host and port: a bracketed IPv6 literal and
/// its port, else the text around the last `:`.
pub open spec fn endpoint_parts(t: Seq<char>) -> Result<(Seq<char>, Seq<char>), Seq<char>> {
    if t.len() > 0 && t[0] == '[' {
        let w = t.drop_first();
        match first_index_of(w, ']') {
            None => Err("peer_endpoint has an unterminated IPv6 host literal"@),
            Some(j) => {
                let rest = w.skip(j + 1);
                if rest.len() > 0 && rest[0] == ':' {
                    Ok((w.take(j), rest.drop_first()))
                } else {
                    Err("peer_endpoint is missing a UDP port"@)
                }
            },
        }
    } else {
        match last_index_of(t, ':') {
            None => Err("peer_endpoint is missing a UDP port"@),
            Some(j) => Ok((t.take(j), t.skip(j + 1))),
        }
    }
}

/// The peer endpoint a value denotes: a non-empty host and a UDP port from 1 to
/// 65535.
pub open spec fn peer_endpoint_of(value: Seq<char>) -> Result<(Seq<char>, u16), Seq<char>> {
    match non_empty("peer_endpoint"@, value) {
        Err(e) => Err(e),
        Ok(t) => match endpoint_parts(t) {
            Err(e) => Err(e),
            Ok((h, p)) => if trim_seq(h).len() == 0 {
                Err("peer_endpoint host must not be empty"@)
            } else {
                match uint_result(trim_seq(p), 65535) {
                    Err(k) => Err("peer_endpoint has an invalid UDP port: "@ + int_error_text(k)),
                    Ok(port) => if port == 0 {
                        Err("peer_endpoint UDP port must not be 0"@)
                    } else {
                        Ok((trim_seq(h), port as u16))
                    },
                }
            },
        },
    }
}

/// A trimmed device id, none when blank.
pub open spec fn device_id_of(value: Option<Seq<char>>) -> Option<Seq<char>> {
    match value {
        None => None,
        Some(v) => if trim_seq(v).len() == 0 {
            None
        } else {
            Some(trim_seq(v))
        },
    }
}

/// The fields of the normalized configuration text, the top-level JSON object.
pub open spec fn normalized_fields_of(text: Seq<char>) -> Result<NormalizedFields, Seq<char>> {
    fields_at(text, ""@)
}

/// The runtime configuration of normalized fields, or the first reason they
/// are unusable, in field order.
#[verifier::opaque]
pub open spec fn runtime_from_fields(f: NormalizedFields) -> Result<RuntimeConfigView, Seq<char>> {
    match key_of("private_key"@, f.private_key) {
        Err(e) => Err(e),
        Ok(private_key) => match networks_of("interface_addresses"@, f.interface_addresses) {
            Err(e) => Err(e),
            Ok(interface_addresses) => match key_of("peer_public_key"@, f.peer_public_key) {
                Err(e) => Err(e),
                Ok(peer_public_key) => match peer_endpoint_of(f.peer_endpoint) {
                    Err(e) => Err(e),
                    Ok((peer_host, peer_port)) => match networks_of("allowed_ips"@, f.allowed_ips) {
                        Err(e) => Err(e),
                        Ok(allowed_ips) => match addresses_of("dns_servers"@, f.dns_servers) {
                            Err(e) => Err(e),
                            Ok(dns_servers) => Ok(
                                RuntimeConfigView {
                                    private_key,
                                    interface_addresses,
                                    peer_public_key,
                                    peer_host,
                                    peer_port,
                                    allowed_ips,
                                    dns_servers,
                                    device_id: device_id_of(f.device_id),
                                },
                            ),
                        },
                    },
                },
            },
        },
    }
}

/// What an adapter configuration gives the BoringTun runtime: only the observed
/// WireGuard adapter, version 1, whose normalized configuration is well formed
/// and usable.
pub open spec fn runtime_config_of(
    kind: Seq<char>,
    version: u16,
    text: Seq<char>,
) -> Result<RuntimeConfigView, AdapterErrorView> {
    if !is_supported_adapter(kind, version) || !(kind == observed_v1_kind() && version == 1) {
        Err(AdapterErrorView::UnsupportedAdapter { kind, version })
    } else {
        match normalized_fields_of(text) {
            Err(detail) => Err(
                AdapterErrorView::UnsupportedAdapterConfig {
                    kind,
                    version,
                    reason: "normalized config JSON is malformed: "@ + detail,
                },
            ),
            Ok(fields) => match runtime_from_fields(fields) {
                Err(reason) => Err(AdapterErrorView::UnsupportedAdapterConfig { kind, version, reason }),
                Ok(v) => Ok(v),
            },
        }
    }
}

impl WireGuardKey {
    /// The key bytes.
    pub closed spec fn spec_bytes(self) -> Seq<u8> {
        self.0@
    }

    /// The key bytes.
    pub fn as_bytes(&self) -> (r: &[u8; 32])
        ensures
            r@ == self.spec_bytes(),
    {
        &self.0
    }
}

impl IpNetwork {
    /// The network's address.
    pub fn address(&self) -> (r: IpAddress)
        ensures
            r == self.spec_address(),
    {
        self.address
    }

    /// The network's prefix length.
    pub fn prefix_len(&self) -> (r: u8)
        ensures
            r == self.spec_prefix_len(),
    {
        self.prefix_len
    }

    /// The address of the network.
    pub closed spec fn spec_address(self) -> IpAddress {
        self.address
    }

    /// The prefix length of the network.
    pub closed spec fn spec_prefix_len(self) -> u8 {
        self.prefix_len
    }

    /// Reads `address/prefix` the way the runtime does.
    pub fn parse(text: &str) -> (r: Result<Self, String>)
        ensures
            match r {
                Ok(n) => network_of(text@) == Ok::<(IpAddress, u8), Seq<char>>(network_view(n)),
                Err(e) => network_of(text@) == Err::<(IpAddress, u8), Seq<char>>(e@),
            },
    {
        let t = chars_of(text);
        let slash = match find_first(&t, '/') {
            Some(i) => i,
            None => {
                return Err(String::from_str("missing CIDR prefix length"));
            },
        };
        let address_text = slice_chars(&t, 0, slash);
        let prefix_text = slice_chars(&t, slash + 1, t.len());
        proof {
            assert(address_text@ =~= t@.take(slash as int));
            assert(prefix_text@ =~= t@.skip(slash + 1));
        }
        let address = match parse_ip(&address_text) {
            Some(a) => a,
            None => {
                return Err(String::from_str("invalid IP address: invalid IP address syntax"));
            },
        };
        let prefix = match parse_uint(&prefix_text, 255) {
            Ok(p) => p,
            Err(k) => {
                let mut message: Vec<char> = Vec::new();
                push_str(&mut message, "invalid CIDR prefix length: ");
                push_str(&mut message, int_error_message(k));
                return Err(string_from_chars(&message));
            },
        };
        let max: u32 = match address {
            IpAddress::V4(..) => 32,
            IpAddress::V6(..) => 128,
        };
        if prefix > max {
            let mut message: Vec<char> = Vec::new();
            push_str(&mut message, "CIDR prefix length ");
            push_decimal(&mut message, prefix as u64);
            push_str(&mut message, " exceeds maximum ");
            push_decimal(&mut message, max as u64);
            return Err(string_from_chars(&message));
        }
        Ok(IpNetwork { address, prefix_len: prefix as u8 })
    }
}

impl WireGuardPeerEndpoint {
    /// The peer's host.
    pub fn host(&self) -> (r: &str)
        ensures
            r@ == self.spec_host(),
    {
        self.host.as_str()
    }

    /// The peer's UDP port.
    pub fn port(&self) -> (r: u16)
        ensures
            r == self.spec_port(),
    {
        self.port
    }

    /// The peer's host.
    pub closed spec fn spec_host(self) -> Seq<char> {
        self.host@
    }

    /// The peer's UDP port.
    pub closed spec fn spec_port(self) -> u16 {
        self.port
    }
}

/// An adapter-config error of `adapter_config` with a reason.
fn unsupported_adapter_config(adapter_config: &PublicWarpAdapterConfig, reason: String) -> (r:
    PublicWarpAdapterError)
    ensures
        adapter_error_view(r) == (AdapterErrorView::UnsupportedAdapterConfig {
            kind: adapter_config.kind@,
            version: adapter_config.version,
            reason: reason@,
        }),
{
    PublicWarpAdapterError::UnsupportedAdapterConfig {
        kind: copy_string(&adapter_config.kind),
        version: adapter_config.version,
        reason,
    }
}

fn field_message(field: &str, tail: &str) -> (r: String)
    ensures
        r@ == field@ + tail@,
{
    let mut message: Vec<char> = Vec::new();
    push_str(&mut message, field);
    push_str(&mut message, tail);
    string_from_chars(&message)
}

/// The trimmed value, or `{field} must not be empty`.
fn reject_empty_string(field: &str, value: &str) -> (r: Result<Vec<char>, String>)
    ensures
        match r {
            Ok(t) => non_empty(field@, value@) == Ok::<Seq<char>, Seq<char>>(t@),
            Err(e) => non_empty(field@, value@) == Err::<Seq<char>, Seq<char>>(e@),
        },
{
    let t = trim(&chars_of(value));
    if t.len() == 0 {
        return Err(field_message(field, " must not be empty"));
    }
    Ok(t)
}

/// `{field} must contain at least one value` for an empty list.
fn reject_empty_list(field: &str, values: &Vec<String>) -> (r: Result<(), String>)
    ensures
        r is Ok <==> values.len() > 0,
        r matches Err(e) ==> e@ == field@ + " must contain at least one value"@,
{
    if values.len() == 0 {
        return Err(field_message(field, " must contain at least one value"));
    }
    Ok(())
}

/// Reads a WireGuard key field.
fn parse_wireguard_key(field: &str, value: &str) -> (r: Result<WireGuardKey, String>)
    ensures
        match r {
            Ok(k) => key_of(field@, value@) == Ok::<Seq<u8>, Seq<char>>(k.0@),
            Err(e) => key_of(field@, value@) == Err::<Seq<u8>, Seq<char>>(e@),
        },
{
    let trimmed = match reject_empty_string(field, value) {
        Ok(t) => string_from_chars(&t),
        Err(e) => {
            return Err(e);
        },
    };
    let decoded = match base64_decode(trimmed.as_str()) {
        Ok(bytes) => bytes,
        Err(error) => {
            let mut message: Vec<char> = Vec::new();
            push_str(&mut message, field);
            push_str(&mut message, " is not valid base64: ");
            push_str(&mut message, error.as_str());
            return Err(string_from_chars(&message));
        },
    };
    if decoded.len() != 32 {
        let mut message: Vec<char> = Vec::new();
        push_str(&mut message, field);
        push_str(&mut message, " must decode to 32 bytes, got ");
        push_decimal(&mut message, decoded.len() as u64);
        return Err(string_from_chars(&message));
    }
    let mut bytes: [u8; 32] = [0u8; 32];
    let mut i: usize = 0;
    while i < 32
        invariant
            i <= 32,
            decoded.len() == 32,
            forall|k: int| 0 <= k < i ==> bytes@[k] == decoded@[k],
        decreases 32 - i,
    {
        bytes.set(i, decoded[i]);
        i = i + 1;
    }
    assert(bytes@ =~= decoded@);
    Ok(WireGuardKey(bytes))
}

fn parse_network_item(field: &str, value: &str) -> (r: Result<IpNetwork, String>)
    ensures
        match r {
            Ok(n) => network_item(field@, value@) == Ok::<(IpAddress, u8), Seq<char>>(network_view(n)),
            Err(e) => network_item(field@, value@) == Err::<(IpAddress, u8), Seq<char>>(e@),
        },
{
    proof {
        reveal(network_item);
    }
    let trimmed = match reject_empty_string(field, value) {
        Ok(t) => t,
        Err(e) => {
            return Err(e);
        },
    };
    let text = string_from_chars(&trimmed);
    match IpNetwork::parse(text.as_str()) {
        Ok(n) => Ok(n),
        Err(e) => {
            let mut message: Vec<char> = Vec::new();
            push_str(&mut message, field);
            push_str(&mut message, " contains ");
            push_str(&mut message, e.as_str());
            Err(string_from_chars(&message))
        },
    }
}

fn parse_address_item(field: &str, value: &str) -> (r: Result<IpAddress, String>)
    ensures
        match r {
            Ok(a) => address_item(field@, value@) == Ok::<IpAddress, Seq<char>>(a),
            Err(e) => address_item(field@, value@) == Err::<IpAddress, Seq<char>>(e@),
        },
{
    proof {
        reveal(address_item);
    }
    let trimmed = match reject_empty_string(field, value) {
        Ok(t) => t,
        Err(e) => {
            return Err(e);
        },
    };
    match parse_ip(&trimmed) {
        Some(a) => Ok(a),
        None => Err(field_message(field, " contains invalid IP address syntax")),
    }
}

/// Reads a list of networks.
fn parse_ip_networks(field: &str, values: &Vec<String>) -> (r: Result<Vec<IpNetwork>, String>)
    ensures
        match r {
            Ok(n) => networks_of(field@, values@.map_values(|v: String| v@)) == Ok::<
                Seq<(IpAddress, u8)>,
                Seq<char>,
            >(networks_view(n@)),
            Err(e) => networks_of(field@, values@.map_values(|v: String| v@)) == Err::<
                Seq<(IpAddress, u8)>,
                Seq<char>,
            >(e@),
        },
{
    let ghost vs = values@.map_values(|v: String| v@);
    match reject_empty_list(field, values) {
        Ok(()) => {},
        Err(e) => {
            return Err(e);
        },
    }
    let mut nets: Vec<IpNetwork> = Vec::new();
    assert(vs.take(0) =~= Seq::<Seq<char>>::empty());
    assert(networks_view(nets@) =~= Seq::<(IpAddress, u8)>::empty());
    let mut i: usize = 0;
    while i < values.len()
        invariant
            i <= values.len(),
            vs == values@.map_values(|v: String| v@),
            networks_from(field@, vs.take(i as int)) == Ok::<Seq<(IpAddress, u8)>, Seq<char>>(
                networks_view(nets@),
            ),
        decreases values.len() - i,
    {
        proof {
            let t = vs.take(i + 1);
            assert(t.drop_last() =~= vs.take(i as int));
            assert(t.last() == values@[i as int]@);
        }
        match parse_network_item(field, values[i].as_str()) {
            Ok(n) => {
                let ghost before = nets@;
                nets.push(n);
                assert(networks_view(nets@) =~= networks_view(before).push(network_view(n)));
            },
            Err(e) => {
                proof {
                    lemma_networks_prefix_error(field@, vs, i + 1);
                }
                return Err(e);
            },
        }
        i = i + 1;
    }
    assert(vs.take(values.len() as int) =~= vs);
    Ok(nets)
}

proof fn lemma_networks_prefix_error(field: Seq<char>, vs: Seq<Seq<char>>, k: int)
    requires
        0 <= k <= vs.len(),
        networks_from(field, vs.take(k)) is Err,
    ensures
        networks_from(field, vs) == networks_from(field, vs.take(k)),
    decreases vs.len() - k,
{
    if k < vs.len() {
        let t = vs.take(k + 1);
        assert(t.drop_last() =~= vs.take(k));
        lemma_networks_prefix_error(field, vs, k + 1);
    } else {
        assert(vs.take(k) =~= vs);
    }
}

proof fn lemma_addresses_prefix_error(field: Seq<char>, vs: Seq<Seq<char>>, k: int)
    requires
        0 <= k <= vs.len(),
        addresses_from(field, vs.take(k)) is Err,
    ensures
        addresses_from(field, vs) == addresses_from(field, vs.take(k)),
    decreases vs.len() - k,
{
    if k < vs.len() {
        let t = vs.take(k + 1);
        assert(t.drop_last() =~= vs.take(k));
        lemma_addresses_prefix_error(field, vs, k + 1);
    } else {
        assert(vs.take(k) =~= vs);
    }
}

/// Reads a list of addresses.
fn parse_ip_addresses(field: &str, values: &Vec<String>) -> (r: Result<Vec<IpAddress>, String>)
    ensures
        match r {
            Ok(a) => addresses_of(field@, values@.map_values(|v: String| v@)) == Ok::<
                Seq<IpAddress>,
                Seq<char>,
            >(a@),
            Err(e) => addresses_of(field@, values@.map_values(|v: String| v@)) == Err::<
                Seq<IpAddress>,
                Seq<char>,
            >(e@),
        },
{
    let ghost vs = values@.map_values(|v: String| v@);
    match reject_empty_list(field, values) {
        Ok(()) => {},
        Err(e) => {
            return Err(e);
        },
    }
    let mut addrs: Vec<IpAddress> = Vec::new();
    assert(vs.take(0) =~= Seq::<Seq<char>>::empty());
    let mut i: usize = 0;
    while i < values.len()
        invariant
            i <= values.len(),
            vs == values@.map_values(|v: String| v@),
            addresses_from(field@, vs.take(i as int)) == Ok::<Seq<IpAddress>, Seq<char>>(addrs@),
        decreases values.len() - i,
    {
        proof {
            let t = vs.take(i + 1);
            assert(t.drop_last() =~= vs.take(i as int));
            assert(t.last() == values@[i as int]@);
        }
        match parse_address_item(field, values[i].as_str()) {
            Ok(a) => {
                addrs.push(a);
            },
            Err(e) => {
                proof {
                    lemma_addresses_prefix_error(field@, vs, i + 1);
                }
                return Err(e);
            },
        }
        i = i + 1;
    }
    assert(vs.take(values.len() as int) =~= vs);
    Ok(addrs)
}

/// Splits a trimmed endpoint into its host and port texts.
fn split_endpoint(t: &Vec<char>) -> (r: Result<(Vec<char>, Vec<char>), String>)
    ensures
        match r {
            Ok((h, p)) => endpoint_parts(t@) == Ok::<(Seq<char>, Seq<char>), Seq<char>>((h@, p@)),
            Err(e) => endpoint_parts(t@) == Err::<(Seq<char>, Seq<char>), Seq<char>>(e@),
        },
{
    if t.len() > 0 && t[0] == '[' {
        let w = slice_chars(t, 1, t.len());
        assert(w@ =~= t@.drop_first());
        match find_first(&w, ']') {
            None => Err(String::from_str("peer_endpoint has an unterminated IPv6 host literal")),
            Some(j) => {
                let host = slice_chars(&w, 0, j);
                let rest = slice_chars(&w, j + 1, w.len());
                assert(host@ =~= w@.take(j as int));
                assert(rest@ =~= w@.skip(j + 1));
                if rest.len() > 0 && rest[0] == ':' {
                    let port = slice_chars(&rest, 1, rest.len());
                    assert(port@ =~= rest@.drop_first());
                    Ok((host, port))
                } else {
                    Err(String::from_str("peer_endpoint is missing a UDP port"))
                }
            },
        }
    } else {
        match find_last(t, ':') {
            None => Err(String::from_str("peer_endpoint is missing a UDP port")),
            Some(j) => {
                let host = slice_chars(t, 0, j);
                let port = slice_chars(t, j + 1, t.len());
                assert(host@ =~= t@.take(j as int));
                assert(port@ =~= t@.skip(j + 1));
                Ok((host, port))
            },
        }
    }
}

/// Reads the peer endpoint: `host:port` or `[ipv6]:port`, a non-empty host and a
/// UDP port from 1 to 65535.
fn parse_peer_endpoint(value: &str) -> (r: Result<WireGuardPeerEndpoint, String>)
    ensures
        match r {
            Ok(ep) => peer_endpoint_of(value@) == Ok::<(Seq<char>, u16), Seq<char>>(
                (ep.host@, ep.port),
            ),
            Err(e) => peer_endpoint_of(value@) == Err::<(Seq<char>, u16), Seq<char>>(e@),
        },
{
    let trimmed = match reject_empty_string("peer_endpoint", value) {
        Ok(t) => t,
        Err(e) => {
            return Err(e);
        },
    };
    let (host_text, port_text) = match split_endpoint(&trimmed) {
        Ok(parts) => parts,
        Err(e) => {
            return Err(e);
        },
    };
    let host = trim(&host_text);
    if host.len() == 0 {
        return Err(String::from_str("peer_endpoint host must not be empty"));
    }
    let port = match parse_uint(&trim(&port_text), 65535) {
        Ok(p) => p,
        Err(k) => {
            let mut message: Vec<char> = Vec::new();
            push_str(&mut message, "peer_endpoint has an invalid UDP port: ");
            push_str(&mut message, int_error_message(k));
            return Err(string_from_chars(&message));
        },
    };
    if port == 0 {
        return Err(String::from_str("peer_endpoint UDP port must not be 0"));
    }
    Ok(WireGuardPeerEndpoint { host: string_from_chars(&host), port: port as u16 })
}

/// The runtime configuration as values.
pub open spec fn runtime_view(c: BoringTunRuntimeConfig) -> RuntimeConfigView {
    RuntimeConfigView {
        private_key: c.spec_private_key().spec_bytes(),
        interface_addresses: networks_view(c.spec_interface_addresses()),
        peer_public_key: c.spec_peer_public_key().spec_bytes(),
        peer_host: c.spec_peer_endpoint().spec_host(),
        peer_port: c.spec_peer_endpoint().spec_port(),
        allowed_ips: networks_view(c.spec_allowed_ips()),
        dns_servers: c.spec_dns_servers(),
        device_id: c.spec_device_id(),
    }
}

fn trimmed_device_id(value: Option<String>) -> (r: Option<String>)
    ensures
        match r {
            Some(s) => device_id_of(
                match value {
                    Some(v) => Some(v@),
                    None => None,
                },
            ) == Some(s@),
            None => device_id_of(
                match value {
                    Some(v) => Some(v@),
                    None => None,
                },
            ) is None,
        },
{
    match value {
        None => None,
        Some(v) => {
            let t = trim(&chars_of(v.as_str()));
            if t.len() == 0 {
                None
            } else {
                Some(string_from_chars(&t))
            }
        },
    }
}

fn runtime_from_normalized(n: WireGuardFields) -> (r: Result<BoringTunRuntimeConfig, String>)
    ensures
        match r {
            Ok(c) => runtime_from_fields(fields_view(n)) == Ok::<RuntimeConfigView, Seq<char>>(runtime_view(c)),
            Err(e) => runtime_from_fields(fields_view(n)) == Err::<RuntimeConfigView, Seq<char>>(e@),
        },
{
    proof {
        reveal(runtime_from_fields);
    }
    let private_key = match parse_wireguard_key("private_key", n.private_key.as_str()) {
        Ok(k) => k,
        Err(e) => {
            return Err(e);
        },
    };
    let interface_addresses = match parse_ip_networks("interface_addresses", &n.interface_addresses) {
        Ok(v) => v,
        Err(e) => {
            return Err(e);
        },
    };
    let peer_public_key = match parse_wireguard_key("peer_public_key", n.peer_public_key.as_str()) {
        Ok(k) => k,
        Err(e) => {
            return Err(e);
        },
    };
    let peer_endpoint = match parse_peer_endpoint(n.peer_endpoint.as_str()) {
        Ok(ep) => ep,
        Err(e) => {
            return Err(e);
        },
    };
    let allowed_ips = match parse_ip_networks("allowed_ips", &n.allowed_ips) {
        Ok(v) => v,
        Err(e) => {
            return Err(e);
        },
    };
    let dns_servers = match parse_ip_addresses("dns_servers", &n.dns_servers) {
        Ok(v) => v,
        Err(e) => {
            return Err(e);
        },
    };
    let device_id = trimmed_device_id(n.device_id);
    Ok(
        BoringTunRuntimeConfig {
            private_key,
            interface_addresses,
            peer_public_key,
            peer_endpoint,
            allowed_ips,
            dns_servers,
            device_id,
        },
    )
}

/// A copy of a list of plain values.
fn copy_values<T: Copy>(v: &Vec<T>) -> (r: Vec<T>)
    ensures
        r@ == v@,
{
    let mut r: Vec<T> = Vec::new();
    let mut i: usize = 0;
    while i < v.len()
        invariant
            i <= v.len(),
            r@ == v@.take(i as int),
        decreases v.len() - i,
    {
        r.push(v[i]);
        i = i + 1;
        assert(r@ =~= v@.take(i as int));
    }
    assert(v@.take(v.len() as int) =~= v@);
    r
}

impl BoringTunRuntimeConfig {
    /// The instance's private key.
    pub closed spec fn spec_private_key(self) -> WireGuardKey {
        self.private_key
    }

    /// The instance's interface addresses.
    pub closed spec fn spec_interface_addresses(self) -> Seq<IpNetwork> {
        self.interface_addresses@
    }

    /// The peer's public key.
    pub closed spec fn spec_peer_public_key(self) -> WireGuardKey {
        self.peer_public_key
    }

    /// The peer's endpoint.
    pub closed spec fn spec_peer_endpoint(self) -> WireGuardPeerEndpoint {
        self.peer_endpoint
    }

    /// The networks routed through the peer.
    pub closed spec fn spec_allowed_ips(self) -> Seq<IpNetwork> {
        self.allowed_ips@
    }

    /// The DNS servers inside the tunnel.
    pub closed spec fn spec_dns_servers(self) -> Seq<IpAddress> {
        self.dns_servers@
    }

    /// The device id, when one is known.
    pub closed spec fn spec_device_id(self) -> Option<Seq<char>> {
        match self.device_id {
            Some(d) => Some(d@),
            None => None,
        }
    }

    /// A copy of the runtime configuration.
    pub fn duplicate(&self) -> (r: Self)
        ensures
            r.spec_private_key().spec_bytes() == self.spec_private_key().spec_bytes(),
            r.spec_interface_addresses() == self.spec_interface_addresses(),
            r.spec_peer_public_key().spec_bytes() == self.spec_peer_public_key().spec_bytes(),
            r.spec_peer_endpoint().spec_host() == self.spec_peer_endpoint().spec_host(),
            r.spec_peer_endpoint().spec_port() == self.spec_peer_endpoint().spec_port(),
            r.spec_allowed_ips() == self.spec_allowed_ips(),
            r.spec_dns_servers() == self.spec_dns_servers(),
            r.spec_device_id() == self.spec_device_id(),
    {
        BoringTunRuntimeConfig {
            private_key: WireGuardKey(self.private_key.0),
            interface_addresses: copy_values(&self.interface_addresses),
            peer_public_key: WireGuardKey(self.peer_public_key.0),
            peer_endpoint: WireGuardPeerEndpoint {
                host: self.peer_endpoint.host.clone(),
                port: self.peer_endpoint.port,
            },
            allowed_ips: copy_values(&self.allowed_ips),
            dns_servers: copy_values(&self.dns_servers),
            device_id: match &self.device_id {
                Some(d) => Some(d.clone()),
                None => None,
            },
        }
    }

    /// Reads the runtime configuration out of an adapter configuration: only
    /// the observed WireGuard adapter, version 1, qualifies; its normalized
    /// configuration must be a well-formed JSON object whose keys, networks,
    /// endpoint and DNS servers are all usable.
    pub fn from_adapter_config(adapter_config: &PublicWarpAdapterConfig) -> (r: Result<
        Self,
        PublicWarpAdapterError,
    >)
        ensures
            match runtime_config_of(
                adapter_config.kind@,
                adapter_config.version,
                adapter_config.config_view(),
            ) {
                Ok(v) => r matches Ok(c) && runtime_view(c) == v,
                Err(e) => r matches Err(x) && adapter_error_view(x) == e,
            },
    {
        match adapter_config.ensure_supported() {
            Ok(()) => {},
            Err(e) => {
                return Err(e);
            },
        }
        proof {
            reveal_strlit("public_warp_wireguard_observed_v1");
            assert("public_warp_wireguard_observed_v1"@ =~= observed_v1_kind());
        }
        if !(str_eq(adapter_config.kind.as_str(), "public_warp_wireguard_observed_v1")
            && adapter_config.version == 1) {
            return Err(
                PublicWarpAdapterError::UnsupportedAdapter {
                    kind: copy_string(&adapter_config.kind),
                    version: adapter_config.version,
                },
            );
        }
        let normalized = match read_fields(adapter_config.config_json(), "") {
            Ok(n) => n,
            Err(detail) => {
                let mut reason: Vec<char> = Vec::new();
                push_str(&mut reason, "normalized config JSON is malformed: ");
                push_str(&mut reason, detail.as_str());
                return Err(unsupported_adapter_config(adapter_config, string_from_chars(&reason)));
            },
        };
        match runtime_from_normalized(normalized) {
            Ok(c) => Ok(c),
            Err(reason) => Err(unsupported_adapter_config(adapter_config, reason)),
        }
    }

    /// The instance's private key.
    pub fn private_key(&self) -> (r: &WireGuardKey)
        ensures
            *r == self.spec_private_key(),
    {
        &self.private_key
    }

    /// The instance's interface addresses.
    pub fn interface_addresses(&self) -> (r: &Vec<IpNetwork>)
        ensures
            r@ == self.spec_interface_addresses(),
    {
        &self.interface_addresses
    }

    /// The peer's public key.
    pub fn peer_public_key(&self) -> (r: &WireGuardKey)
        ensures
            *r == self.spec_peer_public_key(),
    {
        &self.peer_public_key
    }

    /// The peer's endpoint.
    pub fn peer_endpoint(&self) -> (r: &WireGuardPeerEndpoint)
        ensures
            *r == self.spec_peer_endpoint(),
    {
        &self.peer_endpoint
    }

    /// The networks routed through the peer.
    pub fn allowed_ips(&self) -> (r: &Vec<IpNetwork>)
        ensures
            r@ == self.spec_allowed_ips(),
    {
        &self.allowed_ips
    }

    /// The DNS servers inside the tunnel.
    pub fn dns_servers(&self) -> (r: &Vec<IpAddress>)
        ensures
            r@ == self.spec_dns_servers(),
    {
        &self.dns_servers
    }

    /// The device id, when one is known.
    pub fn device_id(&self) -> (r: Option<&str>)
        ensures
            match r {
                Some(s) => self.spec_device_id() == Some(s@),
                None => self.spec_device_id() is None,
            },
    {
        match &self.device_id {
            Some(d) => Some(d.as_str()),
            None => None,
        }
    }
}

/// One instance of the prepared data plane: its adapter configuration only, or
/// a prepared runtime configuration.
#[derive(Clone)]
pub enum DataPlaneInstance {
    Lazy(PublicWarpAdapterConfig),
    Prepared(BoringTunRuntimeConfig),
}

/// An instance of the data plane as values.
pub enum InstanceView {
    Lazy { kind: Seq<char>, version: u16, config: Seq<char> },
    Prepared(RuntimeConfigView),
}

/// An instance as values.
pub open spec fn instance_view(i: DataPlaneInstance) -> InstanceView {
    match i {
        DataPlaneInstance::Lazy(a) => InstanceView::Lazy {
            kind: a.kind@,
            version: a.version,
            config: a.config_view(),
        },
        DataPlaneInstance::Prepared(c) => InstanceView::Prepared(runtime_view(c)),
    }
}

/// The BoringTun data plane's instances, one per Instance Identity.
pub struct BoringTunDataPlane {
    instances: Vec<(String, DataPlaneInstance)>,
}

/// The identities of a list of instance entries.
pub open spec fn entry_ids(entries: Seq<(String, DataPlaneInstance)>) -> Seq<Seq<char>> {
    entries.map_values(|e: (String, DataPlaneInstance)| e.0@)
}

/// Whether a list of identities has no repeats.
pub open spec fn distinct_ids(ids: Seq<Seq<char>>) -> bool {
    forall|i: int, j: int| 0 <= i < j < ids.len() ==> ids[i] != ids[j]
}

/// The instances of a list of entries by identity; of two entries with one
/// identity the first names it.
pub open spec fn entries_map(s: Seq<(String, DataPlaneInstance)>) -> Map<Seq<char>, InstanceView>
    decreases s.len(),
{
    if s.len() == 0 {
        Map::empty()
    } else {
        entries_map(s.drop_first()).insert(s[0].0@, instance_view(s[0].1))
    }
}

/// What an instance configuration gives the BoringTun runtime.
pub open spec fn config_outcome(c: DataPlaneInstanceConfig) -> Result<
    RuntimeConfigView,
    AdapterErrorView,
> {
    runtime_config_of(c.adapter_config.kind@, c.adapter_config.version, c.adapter_config.config_view())
}

/// The instances that adapter configurations give the data plane, each keeping
/// its adapter configuration; of two configurations with one identity the later
/// wins.
pub open spec fn lazy_instances(cs: Seq<DataPlaneInstanceConfig>) -> Map<Seq<char>, InstanceView>
    decreases cs.len(),
{
    if cs.len() == 0 {
        Map::empty()
    } else {
        lazy_instances(cs.drop_last()).insert(
            cs.last().instance_id@,
            InstanceView::Lazy {
                kind: cs.last().adapter_config.kind@,
                version: cs.last().adapter_config.version,
                config: cs.last().adapter_config.config_view(),
            },
        )
    }
}

/// Whether two instance configurations hold the same values.
pub open spec fn same_config(a: DataPlaneInstanceConfig, b: DataPlaneInstanceConfig) -> bool {
    &&& a.instance_id@ == b.instance_id@
    &&& a.adapter_config.kind@ == b.adapter_config.kind@
    &&& a.adapter_config.version == b.adapter_config.version
    &&& a.adapter_config.config_view() == b.adapter_config.config_view()
}

/// The text an adapter error displays, from its values.
pub open spec fn adapter_view_text(e: AdapterErrorView) -> Seq<char> {
    match e {
        AdapterErrorView::UnsupportedAdapter { kind, version } => "unsupported Public WARP Adapter "@
            + kind + " v"@ + decimal_digits(version as nat),
        AdapterErrorView::UnsupportedAdapterConfig { kind, version, reason } =>
            "unsupported Public WARP Adapter "@ + kind + " v"@ + decimal_digits(version as nat)
            + ": "@ + reason,
        AdapterErrorView::Blocked(reason) => "Public WARP Adapter blocked: "@ + reason,
    }
}

/// The prepared instances depend only on the values of the configurations.
pub proof fn lemma_prepared_instances_by_values(
    a: Seq<DataPlaneInstanceConfig>,
    b: Seq<DataPlaneInstanceConfig>,
)
    requires
        a.len() == b.len(),
        forall|i: int| 0 <= i < a.len() ==> same_config(#[trigger] a[i], b[i]),
    ensures
        prepared_instances(a) == prepared_instances(b),
    decreases a.len(),
{
    if a.len() > 0 {
        lemma_prepared_instances_by_values(a.drop_last(), b.drop_last());
        assert(same_config(a[a.len() - 1], b[b.len() - 1]));
    }
}

/// The instances that adapter configurations give the data plane, each with
/// its prepared runtime configuration; of two configurations with one identity
/// the later wins.
pub open spec fn prepared_instances(cs: Seq<DataPlaneInstanceConfig>) -> Map<
    Seq<char>,
    InstanceView,
>
    decreases cs.len(),
{
    if cs.len() == 0 {
        Map::empty()
    } else {
        prepared_instances(cs.drop_last()).insert(
            cs.last().instance_id@,
            InstanceView::Prepared(config_outcome(cs.last())->Ok_0),
        )
    }
}

/// The message of a request for an instance the data plane does not hold.
pub open spec fn unknown_instance_text(id: Seq<char>) -> Seq<char> {
    "unknown WARP Instance "@ + id
}

/// The message for an instance that only carries its adapter configuration
/// when a prepared runtime configuration is asked for.
pub open spec fn not_prepared_text(kind: Seq<char>, version: u16) -> Seq<char> {
    "BoringTun runtime config is not prepared for Public WARP Adapter "@ + kind + " v"@
        + decimal_digits(version as nat)
}

/// Why requests may not go to an instance: it is unknown, or it only carries
/// the configuration of an adapter this build cannot run.
pub open spec fn service_refusal(instances: Map<Seq<char>, InstanceView>, id: Seq<char>) -> Option<
    Seq<char>,
> {
    if !instances.contains_key(id) {
        Some(unknown_instance_text(id))
    } else {
        match instances[id] {
            InstanceView::Prepared(_) => None,
            InstanceView::Lazy { kind, version, .. } => if is_supported_adapter(kind, version) {
                None
            } else {
                Some("unsupported Public WARP Adapter "@ + kind + " v"@ + decimal_digits(version as nat))
            },
        }
    }
}

/// The message the real data plane answers a TCP or UDP request with once the
/// instance is known to be serviceable.
pub open spec fn not_implemented_text(id: Seq<char>) -> Seq<char> {
    "real WireGuard-compatible User-Space Data Plane is not implemented for instance "@ + id
}

/// The entry an identity names is the first entry with it.
proof fn lemma_entries_map_at(s: Seq<(String, DataPlaneInstance)>, i: int)
    requires
        0 <= i < s.len(),
        forall|k: int| 0 <= k < i ==> (#[trigger] s[k]).0@ != s[i].0@,
    ensures
        entries_map(s).contains_key(s[i].0@),
        entries_map(s)[s[i].0@] == instance_view(s[i].1),
    decreases s.len(),
{
    if i > 0 {
        let rest = s.drop_first();
        assert forall|k: int| 0 <= k < i - 1 implies (#[trigger] rest[k]).0@ != rest[i - 1].0@ by {
            assert(rest[k] == s[k + 1]);
        }
        lemma_entries_map_at(rest, i - 1);
        assert(rest[i - 1] == s[i]);
    }
}

/// The identities of the entries are the keys of their instances.
proof fn lemma_entries_map_keys(s: Seq<(String, DataPlaneInstance)>)
    ensures
        entries_map(s).dom() == entry_ids(s).to_set(),
    decreases s.len(),
{
    if s.len() > 0 {
        let rest = s.drop_first();
        lemma_entries_map_keys(rest);
        assert(entry_ids(s) =~= seq![s[0].0@] + entry_ids(rest));
        assert(entries_map(s).dom() =~= entry_ids(s).to_set()) by {
            assert forall|id: Seq<char>| entry_ids(s).to_set().contains(id) implies entries_map(
                s,
            ).dom().contains(id) by {
                let k = choose|k: int| 0 <= k < entry_ids(s).len() && entry_ids(s)[k] == id;
                if k > 0 {
                    assert(entry_ids(rest)[k - 1] == id);
                    assert(entry_ids(rest).to_set().contains(id));
                }
            }
            assert forall|id: Seq<char>| entries_map(s).dom().contains(id) implies entry_ids(
                s,
            ).to_set().contains(id) by {
                if id != s[0].0@ {
                    assert(entry_ids(rest).to_set().contains(id));
                    let k = choose|k: int| 0 <= k < entry_ids(rest).len() && entry_ids(rest)[k] == id;
                    assert(entry_ids(s)[k + 1] == id);
                } else {
                    assert(entry_ids(s)[0] == id);
                }
            }
        }
    } else {
        assert(entry_ids(s).to_set() =~= Set::<Seq<char>>::empty());
        assert(entries_map(s).dom() =~= Set::<Seq<char>>::empty());
    }
}

/// Replacing the first entry of an identity replaces the instance it names.
proof fn lemma_entries_map_update(s: Seq<(String, DataPlaneInstance)>, i: int, e: (String, DataPlaneInstance))
    requires
        0 <= i < s.len(),
        forall|k: int| 0 <= k < i ==> (#[trigger] s[k]).0@ != s[i].0@,
        e.0@ == s[i].0@,
    ensures
        entries_map(s.update(i, e)) == entries_map(s).insert(e.0@, instance_view(e.1)),
    decreases s.len(),
{
    let t = s.update(i, e);
    let rest = s.drop_first();
    if i == 0 {
        assert(t.drop_first() =~= rest);
        assert(entries_map(t) =~= entries_map(s).insert(e.0@, instance_view(e.1)));
    } else {
        assert(t.drop_first() =~= rest.update(i - 1, e));
        assert forall|k: int| 0 <= k < i - 1 implies (#[trigger] rest[k]).0@ != rest[i - 1].0@ by {
            assert(rest[k] == s[k + 1]);
        }
        lemma_entries_map_update(rest, i - 1, e);
        assert(t[0] == s[0]);
        assert(entries_map(t) =~= entries_map(s).insert(e.0@, instance_view(e.1)));
    }
}

/// Appending an entry of a new identity adds the instance it names.
proof fn lemma_entries_map_push(s: Seq<(String, DataPlaneInstance)>, e: (String, DataPlaneInstance))
    requires
        !entry_ids(s).contains(e.0@),
    ensures
        entries_map(s.push(e)) == entries_map(s).insert(e.0@, instance_view(e.1)),
    decreases s.len(),
{
    let t = s.push(e);
    if s.len() == 0 {
        assert(t.drop_first() =~= s);
        assert(entries_map(t) =~= entries_map(s).insert(e.0@, instance_view(e.1)));
    } else {
        let rest = s.drop_first();
        assert(t.drop_first() =~= rest.push(e));
        assert(!entry_ids(rest).contains(e.0@)) by {
            if entry_ids(rest).contains(e.0@) {
                let k = choose|k: int| 0 <= k < entry_ids(rest).len() && entry_ids(rest)[k] == e.0@;
                assert(entry_ids(s)[k + 1] == e.0@);
            }
        }
        lemma_entries_map_push(rest, e);
        assert(entry_ids(s)[0] == s[0].0@);
        assert(t[0] == s[0]);
        assert(entries_map(t) =~= entries_map(s).insert(e.0@, instance_view(e.1)));
    }
}

/// The position of an identity among entries, if any.
fn entry_position(entries: &Vec<(String, DataPlaneInstance)>, instance_id: &str) -> (r: Option<usize>)
    ensures
        match r {
            Some(i) => i < entries.len() && entry_ids(entries@)[i as int] == instance_id@,
            None => !entry_ids(entries@).contains(instance_id@),
        },
{
    let mut i: usize = 0;
    while i < entries.len()
        invariant
            i <= entries.len(),
            forall|k: int| 0 <= k < i ==> entry_ids(entries@)[k] != instance_id@,
        decreases entries.len() - i,
    {
        if str_eq(entries[i].0.as_str(), instance_id) {
            return Some(i);
        }
        i = i + 1;
    }
    None
}

/// Adds the entry of an identity, or replaces the one it has.
fn upsert_entry(entries: &mut Vec<(String, DataPlaneInstance)>, instance_id: String, instance: DataPlaneInstance)
    requires
        distinct_ids(entry_ids(old(entries)@)),
    ensures
        distinct_ids(entry_ids(final(entries)@)),
        entries_map(final(entries)@) == entries_map(old(entries)@).insert(
            instance_id@,
            instance_view(instance),
        ),
{
    let ghost before = entries@;
    let ghost id = instance_id@;
    let ghost v = instance_view(instance);
    match entry_position(entries, instance_id.as_str()) {
        Some(i) => {
            let ghost e = (instance_id, instance);
            entries.set(i, (instance_id, instance));
            proof {
                assert(entry_ids(entries@) =~= entry_ids(before));
                assert forall|k: int| 0 <= k < i implies (#[trigger] before[k]).0@ != before[i as int].0@ by {
                    assert(entry_ids(before)[k] == before[k].0@);
                }
                lemma_entries_map_update(before, i as int, e);
            }
        },
        None => {
            let ghost e = (instance_id, instance);
            entries.push((instance_id, instance));
            proof {
                assert(entry_ids(entries@) =~= entry_ids(before) + seq![id]);
                assert forall|a: int, b: int|
                    0 <= a < b < entry_ids(entries@).len() implies entry_ids(entries@)[a]
                    != entry_ids(entries@)[b] by {
                    if b == before.len() {
                        assert(entry_ids(before).contains(entry_ids(before)[a]));
                    }
                }
                lemma_entries_map_push(before, e);
            }
        },
    }
}
/// What the mock data plane's TCP stream answers.
pub open spec fn mock_tcp_text(instance_id: Seq<char>, host: Seq<char>, port: u16, bytes: nat) -> Seq<char> {
    "warpnest mock tcp instance="@ + instance_id + " target="@ + host + ":"@ + decimal_digits(
        port as nat,
    ) + " bytes="@ + decimal_digits(bytes) + "\n"@
}

/// What the mock data plane's UDP session answers.
pub open spec fn mock_udp_text(instance_id: Seq<char>, host: Seq<char>, port: u16, bytes: nat) -> Seq<char> {
    "warpnest mock udp instance="@ + instance_id + " target="@ + host + ":"@ + decimal_digits(
        port as nat,
    ) + " bytes="@ + decimal_digits(bytes) + "\n"@
}

fn mock_reply(kind: &str, instance_id: &str, host: &str, port: u16, bytes: usize) -> (r: String)
    ensures
        r@ == "warpnest mock "@ + kind@ + " instance="@ + instance_id@ + " target="@ + host@ + ":"@
            + decimal_digits(port as nat) + " bytes="@ + decimal_digits(bytes as nat) + "\n"@,
{
    let mut m: Vec<char> = Vec::new();
    push_str(&mut m, "warpnest mock ");
    push_str(&mut m, kind);
    push_str(&mut m, " instance=");
    push_str(&mut m, instance_id);
    push_str(&mut m, " target=");
    push_str(&mut m, host);
    push_str(&mut m, ":");
    push_decimal(&mut m, port as u64);
    push_str(&mut m, " bytes=");
    push_decimal(&mut m, bytes as u64);
    push_str(&mut m, "\n");
    let r = string_from_chars(&m);
    assert(r@ =~= "warpnest mock "@ + kind@ + " instance="@ + instance_id@ + " target="@ + host@
        + ":"@ + decimal_digits(port as nat) + " bytes="@ + decimal_digits(bytes as nat) + "\n"@);
    r
}

/// What the mock data plane's TCP stream answers after `bytes` were written.
pub fn mock_tcp_reply(target: &DataPlaneTarget, bytes: usize) -> (r: String)
    ensures
        r@ == mock_tcp_text(target.instance_id@, target.host@, target.port, bytes as nat),
{
    proof {
        reveal_strlit("tcp");
        reveal_strlit("warpnest mock ");
        reveal_strlit("warpnest mock tcp instance=");
        reveal_strlit(" instance=");
    }
    let r = mock_reply("tcp", target.instance_id.as_str(), target.host.as_str(), target.port, bytes);
    assert(r@ =~= mock_tcp_text(target.instance_id@, target.host@, target.port, bytes as nat));
    r
}

/// What the mock data plane's UDP session answers for a datagram.
pub fn mock_udp_reply(instance_id: &str, datagram: &UdpDatagram) -> (r: String)
    ensures
        r@ == mock_udp_text(
            instance_id@,
            datagram.target_host@,
            datagram.target_port,
            datagram.payload.len() as nat,
        ),
{
    proof {
        reveal_strlit("udp");
        reveal_strlit("warpnest mock ");
        reveal_strlit("warpnest mock udp instance=");
        reveal_strlit(" instance=");
    }
    let r = mock_reply(
        "udp",
        instance_id,
        datagram.target_host.as_str(),
        datagram.target_port,
        datagram.payload.len(),
    );
    assert(r@ =~= mock_udp_text(
        instance_id@,
        datagram.target_host@,
        datagram.target_port,
        datagram.payload.len() as nat,
    ));
    r
}

impl BoringTunDataPlane {
    #[verifier::type_invariant]
    spec fn ids_distinct(self) -> bool {
        distinct_ids(entry_ids(self.instances@))
    }

    /// The instances by Instance Identity.
    pub closed spec fn spec_instances(self) -> Map<Seq<char>, InstanceView> {
        entries_map(self.instances@)
    }

    /// The data plane's instances, each with only its adapter configuration; of
    /// two configurations with one identity the later wins.
    pub fn with_instances(instances: Vec<DataPlaneInstanceConfig>) -> (r: Self)
        ensures
            r.spec_instances() == lazy_instances(instances@),
    {
        let mut entries: Vec<(String, DataPlaneInstance)> = Vec::new();
        let ghost all = instances@;
        assert(entries_map(entries@) =~= lazy_instances(all.take(0)));
        for config in it: instances
            invariant
                all == it.seq(),
                distinct_ids(entry_ids(entries@)),
                entries_map(entries@) == lazy_instances(all.take(it.index() as int)),
        {
            let ghost k = it.index();
            proof {
                assert(all.take(k + 1).drop_last() =~= all.take(k as int));
                assert(all.take(k + 1).last() == all[k as int]);
            }
            upsert_entry(&mut entries, config.instance_id, DataPlaneInstance::Lazy(config.adapter_config));
        }
        assert(all.take(all.len() as int) =~= all);
        BoringTunDataPlane { instances: entries }
    }

    /// The data plane's instances, each with its prepared runtime configuration;
    /// of two configurations with one identity the later wins. The first
    /// configuration that cannot be prepared fails it with its error.
    pub fn try_with_instances(instances: Vec<DataPlaneInstanceConfig>) -> (r: Result<
        Self,
        PublicWarpAdapterError,
    >)
        ensures
            r is Ok <==> forall|i: int|
                0 <= i < instances.len() ==> config_outcome(#[trigger] instances@[i]) is Ok,
            r matches Ok(plane) ==> plane.spec_instances() == prepared_instances(instances@),
            r matches Err(x) ==> exists|i: int|
                0 <= i < instances.len() && config_outcome(#[trigger] instances@[i]) == Err::<
                    RuntimeConfigView,
                    AdapterErrorView,
                >(adapter_error_view(x)) && forall|k: int|
                    0 <= k < i ==> config_outcome(#[trigger] instances@[k]) is Ok,
    {
        let mut entries: Vec<(String, DataPlaneInstance)> = Vec::new();
        let ghost all = instances@;
        assert(entries_map(entries@) =~= prepared_instances(all.take(0)));
        for config in it: instances
            invariant
                all == it.seq(),
                distinct_ids(entry_ids(entries@)),
                entries_map(entries@) == prepared_instances(all.take(it.index() as int)),
                forall|k: int| 0 <= k < it.index() ==> config_outcome(#[trigger] all[k]) is Ok,
        {
            let ghost k = it.index();
            let runtime = match BoringTunRuntimeConfig::from_adapter_config(&config.adapter_config) {
                Ok(c) => c,
                Err(e) => {
                    assert(all[k as int] == config);
                    return Err(e);
                },
            };
            proof {
                assert(all[k as int] == config);
                assert(all.take(k + 1).drop_last() =~= all.take(k as int));
                assert(all.take(k + 1).last() == all[k as int]);
            }
            upsert_entry(&mut entries, config.instance_id, DataPlaneInstance::Prepared(runtime));
        }
        assert(all.take(all.len() as int) =~= all);
        Ok(BoringTunDataPlane { instances: entries })
    }

    /// How many instances the data plane holds.
    pub fn instance_count(&self) -> (r: usize)
        ensures
            r == self.spec_instances().len(),
    {
        proof {
            use_type_invariant(self);
            lemma_entries_map_keys(self.instances@);
            entry_ids(self.instances@).unique_seq_to_set();
        }
        self.instances.len()
    }

    /// Whether the data plane holds an instance.
    pub fn has_instance(&self, instance_id: &str) -> (r: bool)
        ensures
            r == self.spec_instances().contains_key(instance_id@),
    {
        proof {
            lemma_entries_map_keys(self.instances@);
        }
        entry_position(&self.instances, instance_id).is_some()
    }

    /// The instance an identity names, where the data plane holds it.
    fn entry(&self, instance_id: &str) -> (r: Option<&DataPlaneInstance>)
        ensures
            match r {
                Some(e) => self.spec_instances().contains_key(instance_id@)
                    && self.spec_instances()[instance_id@] == instance_view(*e),
                None => !self.spec_instances().contains_key(instance_id@),
            },
    {
        proof {
            use_type_invariant(self);
            lemma_entries_map_keys(self.instances@);
        }
        match entry_position(&self.instances, instance_id) {
            None => None,
            Some(i) => {
                proof {
                    assert forall|k: int| 0 <= k < i implies (#[trigger] self.instances@[k]).0@
                        != self.instances@[i as int].0@ by {
                        assert(entry_ids(self.instances@)[k] == self.instances@[k].0@);
                        assert(entry_ids(self.instances@)[i as int] == self.instances@[i as int].0@);
                    }
                    lemma_entries_map_at(self.instances@, i as int);
                }
                Some(&self.instances[i].1)
            },
        }
    }

    /// The prepared runtime configuration of an instance, or why there is none:
    /// an unknown instance, or one that only carries its adapter configuration.
    pub fn runtime_config(&self, instance_id: &str) -> (r: Result<&BoringTunRuntimeConfig, String>)
        ensures
            !self.spec_instances().contains_key(instance_id@) ==> (r matches Err(e) && e@
                == unknown_instance_text(instance_id@)),
            self.spec_instances().contains_key(instance_id@) ==> match self.spec_instances()[instance_id@] {
                InstanceView::Prepared(v) => r matches Ok(c) && runtime_view(*c) == v,
                InstanceView::Lazy { kind, version, .. } => r matches Err(e) && e@
                    == not_prepared_text(kind, version),
            },
    {
        match self.entry(instance_id) {
            None => Err(field_message("unknown WARP Instance ", instance_id)),
            Some(DataPlaneInstance::Prepared(runtime)) => Ok(runtime),
            Some(DataPlaneInstance::Lazy(adapter_config)) => {
                let mut m: Vec<char> = Vec::new();
                push_str(&mut m, "BoringTun runtime config is not prepared for Public WARP Adapter ");
                push_str(&mut m, adapter_config.kind.as_str());
                push_str(&mut m, " v");
                push_decimal(&mut m, adapter_config.version as u64);
                let r = string_from_chars(&m);
                assert(r@ =~= not_prepared_text(adapter_config.kind@, adapter_config.version));
                Err(r)
            },
        }
    }

    /// Every prepared runtime configuration of the data plane can have a runtime
    /// stack.
    pub open spec fn stacks_accepted(self) -> bool {
        forall|id: Seq<char>|
            #![trigger self.spec_instances()[id]]
            self.spec_instances().contains_key(id) ==> (self.spec_instances()[id] matches InstanceView::Prepared(v)
                ==> stack_accepts(v.interface_addresses))
    }

    /// Whether every prepared runtime configuration can have a runtime stack.
    pub fn runtime_stacks_accepted(&self) -> (r: bool)
        ensures
            r == self.stacks_accepted(),
    {
        proof {
            use_type_invariant(self);
            lemma_entries_map_keys(self.instances@);
        }
        let ghost s = self.instances@;
        let mut i: usize = 0;
        while i < self.instances.len()
            invariant
                i <= self.instances.len(),
                self.instances@ == s,
                distinct_ids(entry_ids(s)),
                entries_map(s).dom() == entry_ids(s).to_set(),
                self.spec_instances() == entries_map(s),
                forall|k: int|
                    0 <= k < i ==> (instance_view((#[trigger] s[k]).1) matches InstanceView::Prepared(v)
                        ==> stack_accepts(v.interface_addresses)),
            decreases self.instances.len() - i,
        {
            proof {
                assert forall|k: int| 0 <= k < i implies (#[trigger] s[k]).0@ != s[i as int].0@ by {
                    assert(entry_ids(s)[k] == s[k].0@);
                    assert(entry_ids(s)[i as int] == s[i as int].0@);
                }
                lemma_entries_map_at(s, i as int);
            }
            match &self.instances[i].1 {
                DataPlaneInstance::Prepared(c) => {
                    if !runtime_stack_accepts(c) {
                        assert(!(self.spec_instances()[s[i as int].0@] matches InstanceView::Prepared(v)
                            ==> stack_accepts(v.interface_addresses)));
                        return false;
                    }
                },
                DataPlaneInstance::Lazy(_) => {},
            }
            i = i + 1;
        }
        proof {
            assert forall|id: Seq<char>| #[trigger]
                self.spec_instances().contains_key(id) implies (self.spec_instances()[id] matches InstanceView::Prepared(v)
                ==> stack_accepts(v.interface_addresses)) by {
                assert(entry_ids(s).to_set().contains(id));
                let k = choose|k: int| 0 <= k < entry_ids(s).len() && entry_ids(s)[k] == id;
                assert forall|j: int| 0 <= j < k implies (#[trigger] s[j]).0@ != s[k].0@ by {
                    assert(entry_ids(s)[j] == s[j].0@);
                    assert(entry_ids(s)[k] == s[k].0@);
                }
                lemma_entries_map_at(s, k);
                assert(instance_view(s[k].1) matches InstanceView::Prepared(v) ==> stack_accepts(
                    v.interface_addresses,
                ));
            }
        }
        true
    }

    /// A stopped packet pump with a `boringtun` tunnel for a prepared instance,
    /// or why there is none (as for `runtime_config`).
    pub fn runtime_packet_pump(&self, instance_id: &str) -> (r: Result<RuntimePacketPump, String>)
        requires
            self.stacks_accepted(),
        ensures
            !self.spec_instances().contains_key(instance_id@) ==> (r matches Err(e) && e@
                == unknown_instance_text(instance_id@)),
            self.spec_instances().contains_key(instance_id@) ==> match self.spec_instances()[instance_id@] {
                InstanceView::Prepared(v) => r matches Ok(p) && !p.spec_is_fake() && runtime_view(
                    p.spec_config(),
                ) == v && p.fresh(p.spec_config()),
                InstanceView::Lazy { kind, version, .. } => r matches Err(e) && e@
                    == not_prepared_text(kind, version),
            },
    {
        match self.runtime_config(instance_id) {
            Ok(c) => {
                let copy = c.duplicate();
                assert(self.spec_instances()[instance_id@] matches InstanceView::Prepared(v)
                    ==> stack_accepts(v.interface_addresses));
                assert(runtime_view(copy) == runtime_view(*c));
                let pump = RuntimePacketPump::boringtun(copy);
                Ok(pump)
            },
            Err(e) => Err(e),
        }
    }

    /// Whether requests may go to an instance: it must be known, and an
    /// instance that only carries its adapter configuration must use a
    /// supported adapter.
    pub fn ensure_instance_is_serviceable(&self, instance_id: &str) -> (r: Result<(), String>)
        ensures
            match service_refusal(self.spec_instances(), instance_id@) {
                None => r is Ok,
                Some(m) => r matches Err(e) && e@ == m,
            },
    {
        match self.entry(instance_id) {
            None => Err(field_message("unknown WARP Instance ", instance_id)),
            Some(DataPlaneInstance::Prepared(_)) => Ok(()),
            Some(DataPlaneInstance::Lazy(adapter_config)) => match adapter_config.ensure_supported() {
                Ok(()) => Ok(()),
                Err(e) => Err(e.message()),
            },
        }
    }

    /// The refusal the real data plane gives a TCP connection or a UDP session
    /// for an instance: why it is not serviceable, else that the real data
    /// plane is not implemented.
    pub fn unavailable_reason(&self, instance_id: &str) -> (r: String)
        ensures
            r@ == match service_refusal(self.spec_instances(), instance_id@) {
                Some(m) => m,
                None => not_implemented_text(instance_id@),
            },
    {
        match self.ensure_instance_is_serviceable(instance_id) {
            Err(e) => e,
            Ok(()) => field_message(
                "real WireGuard-compatible User-Space Data Plane is not implemented for instance ",
                instance_id,
            ),
        }
    }
}

} // verus!
