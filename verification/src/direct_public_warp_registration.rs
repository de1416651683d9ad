//! Direct Public WARP Registration: the wgcf-derived registration request,
//! classification of the public service's answer, and normalization of a
//! granted registration into the observed WireGuard adapter configuration.
use vstd::prelude::*;

use crate::codec::{
    base64_encode, base64_standard, json_compact, json_compact_text, json_node, json_node_at,
    x25519_public, x25519_public_key, JsonNode, JsonNodeKind,
};
use crate::json_text::{json_string, json_string_array, push_json_string, push_json_string_array};
use crate::public_warp_adapter::{observed_v1_kind, PublicWarpAdapterConfig};
use crate::text::{
    chars_of, copy_string, decimal_digits, is_blank, push_decimal, push_str, string_from_chars,
    push_padded, trim_seq, zero_padded,
};
use crate::warp_lifecycle::{
    PublicRegistration, PublicRegistrationRequest, RegistrationClient, RegistrationError,
    SpecRegistrationError, error_view,
};

verus! {

const API_BASE_URL: &'static str = "https://api.cloudflareclient.com";

const API_VERSION: &'static str = "v0a1922";

const USER_AGENT: &'static str = "okhttp/3.12.1";

const CF_CLIENT_VERSION: &'static str = "a-6.3-1922";

const DEFAULT_LOCALE: &'static str = "en_US";

const DEFAULT_MODEL: &'static str = "PC";

/// A WireGuard key pair, both halves as standard base64.
#[derive(Clone, PartialEq, Eq)]
pub struct WarpKeyPair {
    private_key_base64: String,
    public_key_base64: String,
}

/// Key pairs from the operating system's random source.
#[derive(Debug, Clone)]
pub struct OsWarpKeySource;

/// Always the same key pair.
#[derive(Clone)]
pub struct FixedWarpKeySource {
    key_pair: WarpKeyPair,
}

/// One registration request: where it goes, its headers and its JSON body text.
#[derive(Clone, PartialEq, Eq)]
pub struct DirectRegistrationHttpRequest {
    pub url: String,
    pub headers: Vec<(String, String)>,
    pub body: String,
}

/// The public service's answer: its HTTP status and its JSON body text.
#[derive(Clone, PartialEq, Eq)]
pub struct DirectRegistrationHttpResponse {
    pub status: u16,
    pub body: String,
}

/// Something that can deliver a registration request to the public service.
pub trait DirectRegistrationHttpTransport {
    /// Whether `reply` is what the transport, as it stands, may give for
    /// `request`: the service's answer, or why it could not be reached. A
    /// transport that does not say more may give any reply.
    open spec fn replies(
        &self,
        request: DirectRegistrationHttpRequest,
        reply: Result<DirectRegistrationHttpResponse, String>,
    ) -> bool {
        true
    }

    /// Delivers the request; the reply is one the transport may give for it.
    fn send(&self, request: DirectRegistrationHttpRequest) -> (r: Result<
        DirectRegistrationHttpResponse,
        String,
    >)
        ensures
            self.replies(request, r),
    ;
}

/// Something that hands out the key pair for the next registration.
pub trait WarpKeySource {
    /// Whether `r` is what the source, as it stands, may hand out. A source
    /// that does not say more may hand out anything.
    open spec fn yields(&self, r: Result<WarpKeyPair, RegistrationError>) -> bool {
        true
    }

    /// Hands out a key pair, or why none could be made.
    fn next_key_pair(&mut self) -> (r: Result<WarpKeyPair, RegistrationError>)
        ensures
            old(self).yields(r),
    ;
}

/// A registration client that talks to the public WARP service directly.
pub struct DirectPublicWarpRegistrationClient<T, K> {
    transport: T,
    key_source: K,
}

/// The two explicit opt-ins that gate real Public WARP integration runs.
#[derive(Debug, Clone, Copy, PartialEq, Eq)]
pub struct PublicWarpIntegrationGate {
    pub run_warp_integration: bool,
    pub accept_public_warp_compat_risk: bool,
}

/// How the public service's HTTP status is treated.
pub enum StatusClass {
    Success,
    Rejected,
    Unsupported,
    Retryable,
    Other,
}

/// WireGuard clamping of a 32-byte private key: the low three bits of the first
/// byte cleared, the top bit of the last byte cleared and its next bit set.
pub open spec fn clamped(b: Seq<u8>) -> Seq<u8> {
    b.update(0, b[0] & 248).update(31, (b[31] & 127) | 64)
}

/// The class of an HTTP status.
pub open spec fn status_class(status: u16) -> StatusClass {
    if 200 <= status <= 299 {
        StatusClass::Success
    } else if status == 401 || status == 403 || status == 409 || status == 451 {
        StatusClass::Rejected
    } else if status == 400 || status == 404 || status == 422 {
        StatusClass::Unsupported
    } else if status == 408 || status == 425 || status == 429 || (500 <= status <= 599) {
        StatusClass::Retryable
    } else {
        StatusClass::Other
    }
}

/// The public error message of a response body: the message of the first entry
/// of its `errors` array, else its `error` text, else a fixed note.
pub open spec fn remote_error_message(body: Seq<char>) -> Seq<char> {
    let first = match json_node(body, "/errors"@) {
        Some(JsonNode::Array(_)) => match json_node(body, "/errors/0/message"@) {
            Some(JsonNode::Text(m)) => Some(m),
            _ => None,
        },
        _ => None,
    };
    match first {
        Some(m) => m,
        None => match json_node(body, "/error"@) {
            Some(JsonNode::Text(m)) => m,
            _ => "remote response omitted a public error message"@,
        },
    }
}

/// The error a non-success status becomes.
pub open spec fn status_error(status: u16, body: Seq<char>) -> SpecRegistrationError {
    let tail = decimal_digits(status as nat) + ": "@ + remote_error_message(body);
    match status_class(status) {
        StatusClass::Rejected => SpecRegistrationError::Blocked(
            "Public WARP registration rejected with HTTP "@ + tail,
        ),
        StatusClass::Unsupported => SpecRegistrationError::Unsupported(
            "Public WARP registration returned unsupported HTTP "@ + tail,
        ),
        StatusClass::Retryable => SpecRegistrationError::Transient(
            "Public WARP registration returned retryable HTTP "@ + tail,
        ),
        _ => SpecRegistrationError::Transient("Public WARP registration returned HTTP "@ + tail),
    }
}

/// The error for a registration response of an unexpected shape.
pub open spec fn shape_error(reason: Seq<char>) -> SpecRegistrationError {
    SpecRegistrationError::Unsupported(
        "unsupported Public WARP registration response shape: "@ + reason,
    )
}

/// A required non-blank string of the response at a JSON Pointer, or why it is
/// unusable; `name` is how messages call it.
pub open spec fn required_text(body: Seq<char>, pointer: Seq<char>, name: Seq<char>) -> Result<
    Seq<char>,
    SpecRegistrationError,
> {
    match json_node(body, pointer) {
        None => Err(shape_error("missing "@ + name)),
        Some(JsonNode::Text(s)) => if trim_seq(s).len() == 0 {
            Err(shape_error(name + " must not be empty"@))
        } else {
            Ok(s)
        },
        Some(_) => Err(shape_error(name + " must be a string"@)),
    }
}

/// The fixed allowed IPs of the observed adapter.
pub open spec fn allowed_ips_items() -> Seq<Seq<char>> {
    seq!["0.0.0.0/0"@, "::/0"@]
}

/// The fixed DNS servers of the observed adapter.
pub open spec fn dns_server_items() -> Seq<Seq<char>> {
    seq!["1.1.1.1"@, "1.0.0.1"@, "2606:4700:4700::1111"@, "2606:4700:4700::1001"@]
}

/// The normalized configuration text of the observed WireGuard adapter, keys in
/// order, compact.
pub open spec fn normalized_config_text(
    device_id: Seq<char>,
    v4: Seq<char>,
    v6: Seq<char>,
    peer_public_key: Seq<char>,
    peer_endpoint: Seq<char>,
    private_key: Seq<char>,
) -> Seq<char> {
    "{\"allowed_ips\":"@ + json_string_array(allowed_ips_items()) + ",\"device_id\":"@
        + json_string(device_id) + ",\"dns_servers\":"@ + json_string_array(dns_server_items())
        + ",\"interface_addresses\":"@ + json_string_array(seq![v4 + "/32"@, v6 + "/128"@])
        + ",\"peer_endpoint\":"@ + json_string(peer_endpoint) + ",\"peer_public_key\":"@
        + json_string(peer_public_key) + ",\"private_key\":"@ + json_string(private_key) + "}"@
}

/// What a granted response normalizes to: the observed adapter configuration
/// text, or the first unusable part of the response.
pub open spec fn normalized_response(body: Seq<char>, private_key: Seq<char>) -> Result<
    Seq<char>,
    SpecRegistrationError,
> {
    match required_text(body, "/id"@, "id"@) {
        Err(e) => Err(e),
        Ok(device_id) => if json_node(body, "/config/interface/addresses"@) is None {
            Err(shape_error("missing config.interface.addresses"@))
        } else {
            match required_text(body, "/config/interface/addresses/v4"@, "v4"@) {
                Err(e) => Err(e),
                Ok(v4) => match required_text(body, "/config/interface/addresses/v6"@, "v6"@) {
                    Err(e) => Err(e),
                    Ok(v6) => if json_node(body, "/config/peers/0"@) is None {
                        Err(shape_error("missing config.peers[0]"@))
                    } else {
                        match required_text(
                            body,
                            "/config/peers/0/public_key"@,
                            "public_key"@,
                        ) {
                            Err(e) => Err(e),
                            Ok(pk) => match required_text(
                                body,
                                "/config/peers/0/endpoint/host"@,
                                "endpoint.host"@,
                            ) {
                                Err(e) => Err(e),
                                Ok(ep) => Ok(
                                    normalized_config_text(device_id, v4, v6, pk, ep, private_key),
                                ),
                            },
                        }
                    },
                },
            }
        },
    }
}

/// The raw registration material kept for a granted response: the adapter name,
/// the API version and the response, compact.
pub open spec fn registration_material_text(compact_body: Seq<char>) -> Seq<char> {
    "{\"adapter\":\"wgcf-derived-public-warp-registration\",\"api_version\":\"v0a1922\",\"response\":"@
        + compact_body + "}"@
}

/// The registration request body for a public key and a terms-of-service
/// acceptance time, keys in order, compact.
pub open spec fn request_body_text(public_key: Seq<char>, tos: Seq<char>) -> Seq<char> {
    "{\"fcm_token\":\"\",\"install_id\":\"\",\"key\":"@ + json_string(public_key)
        + ",\"locale\":\"en_US\",\"model\":\"PC\",\"tos\":"@ + json_string(tos)
        + ",\"type\":\"Android\"}"@
}

/// Whether an environment flag's value switches it on.
pub open spec fn flag_on(value: Option<Seq<char>>) -> bool {
    value == Some("1"@) || value == Some("true"@) || value == Some("TRUE"@)
}

/// What a granted, classified and normalized answer yields.
pub open spec fn registration_outcome(
    response: DirectRegistrationHttpResponse,
    private_key: Seq<char>,
    r: Result<PublicRegistration, RegistrationError>,
) -> bool {
    let body = response.body@;
    if !(status_class(response.status) is Success) {
        r matches Err(e) && error_view(e) == status_error(response.status, body)
    } else {
        match normalized_response(body, private_key) {
            Err(e) => r matches Err(re) && error_view(re) == e,
            Ok(config) => match r {
                Ok(reg) => {
                    &&& reg.adapter_config.kind@ == observed_v1_kind()
                    &&& reg.adapter_config.version == 1
                    &&& reg.adapter_config.config_view() == config
                    &&& json_compact(body) matches Some(compact)
                    &&& reg.registration_material@ == registration_material_text(compact)
                },
                Err(e) => error_view(e) == SpecRegistrationError::Unsupported(
                    "failed to normalize Public WARP registration response: failed to parse normalized adapter config"@,
                ) || (json_compact(body) is None && error_view(e)
                    == SpecRegistrationError::Unsupported(
                    "failed to preserve Public WARP registration material: response body is not JSON"@,
                )),
            },
        }
    }
}

/// Clamps a 32-byte private key for WireGuard.
fn clamp_wireguard_private_key(private_key_bytes: [u8; 32]) -> (r: [u8; 32])
    ensures
        r@ == clamped(private_key_bytes@),
{
    let mut bytes = private_key_bytes;
    let first = bytes[0] & 248;
    let last = (bytes[31] & 127) | 64;
    bytes.set(0, first);
    bytes.set(31, last);
    bytes
}

impl WarpKeyPair {
    /// The private key as standard base64.
    pub closed spec fn spec_private(self) -> Seq<char> {
        self.private_key_base64@
    }

    /// The public key as standard base64.
    pub closed spec fn spec_public(self) -> Seq<char> {
        self.public_key_base64@
    }

    /// The key pair of a private key, clamped for WireGuard first.
    pub fn from_private_key_bytes(private_key_bytes: [u8; 32]) -> (r: Self)
        ensures
            r.spec_private() == base64_standard(clamped(private_key_bytes@)),
            r.spec_public() == base64_standard(x25519_public(clamped(private_key_bytes@))),
    {
        let bytes = clamp_wireguard_private_key(private_key_bytes);
        let public_key = x25519_public_key(bytes);
        WarpKeyPair {
            private_key_base64: base64_encode(bytes.as_slice()),
            public_key_base64: base64_encode(public_key.as_slice()),
        }
    }

    /// A fresh key pair from the operating system's random source.
    pub fn generate() -> (r: Result<Self, RegistrationError>)
        ensures
            r matches Ok(pair) ==> exists|bytes: Seq<u8>|
                bytes.len() == 32 && pair.spec_private() == base64_standard(clamped(bytes))
                    && pair.spec_public() == base64_standard(x25519_public(clamped(bytes))),
            r matches Err(e) ==> (e matches RegistrationError::Transient(m) && exists|
                reason: Seq<char>,
            | m@ == "failed to generate WireGuard private key material: "@ + reason),
    {
        match random_private_key() {
            Ok(bytes) => Ok(Self::from_private_key_bytes(bytes)),
            Err(reason) => {
                let mut message: Vec<char> = Vec::new();
                push_str(&mut message, "failed to generate WireGuard private key material: ");
                push_str(&mut message, reason.as_str());
                Err(RegistrationError::Transient(string_from_chars(&message)))
            },
        }
    }

    /// The private key as standard base64.
    pub fn private_key_base64(&self) -> (r: &str)
        ensures
            r@ == self.spec_private(),
    {
        self.private_key_base64.as_str()
    }

    /// The public key as standard base64.
    pub fn public_key_base64(&self) -> (r: &str)
        ensures
            r@ == self.spec_public(),
    {
        self.public_key_base64.as_str()
    }

    /// A copy of the key pair.
    pub fn duplicate(&self) -> (r: Self)
        ensures
            r.spec_private() == self.spec_private(),
            r.spec_public() == self.spec_public(),
    {
        WarpKeyPair {
            private_key_base64: copy_string(&self.private_key_base64),
            public_key_base64: copy_string(&self.public_key_base64),
        }
    }
}

/// 32 random bytes from `getrandom::fill`; random, so nothing is claimed of
/// them, and a failure is reported as the crate's error text.
#[verifier::external_body]
fn random_private_key() -> (r: Result<[u8; 32], String>) {
    let mut bytes = [0u8; 32];
    match getrandom::fill(&mut bytes) {
        Ok(()) => Ok(bytes),
        Err(error) => Err(error.to_string()),
    }
}

impl FixedWarpKeySource {
    /// A source that always hands out this key pair.
    pub fn new(key_pair: WarpKeyPair) -> (r: Self)
        ensures
            r.spec_key_pair() == key_pair,
    {
        FixedWarpKeySource { key_pair }
    }

    /// The key pair it hands out.
    pub closed spec fn spec_key_pair(self) -> WarpKeyPair {
        self.key_pair
    }
}

/// What generating a key pair from the random source may give: a key pair made
/// from some 32 random bytes, clamped, or a transient failure naming why.
pub open spec fn generated_key_pair(r: Result<WarpKeyPair, RegistrationError>) -> bool {
    &&& r matches Ok(pair) ==> exists|bytes: Seq<u8>|
        bytes.len() == 32 && pair.spec_private() == base64_standard(clamped(bytes))
            && pair.spec_public() == base64_standard(x25519_public(clamped(bytes)))
    &&& r matches Err(e) ==> (e matches RegistrationError::Transient(m) && exists|
        reason: Seq<char>,
    | m@ == "failed to generate WireGuard private key material: "@ + reason)
}

impl WarpKeySource for OsWarpKeySource {
    /// A fresh key pair from the operating system's random source.
    open spec fn yields(&self, r: Result<WarpKeyPair, RegistrationError>) -> bool {
        generated_key_pair(r)
    }

    fn next_key_pair(&mut self) -> (r: Result<WarpKeyPair, RegistrationError>)
        ensures
            r matches Ok(pair) ==> exists|bytes: Seq<u8>|
                bytes.len() == 32 && pair.spec_private() == base64_standard(clamped(bytes))
                    && pair.spec_public() == base64_standard(x25519_public(clamped(bytes))),
            r matches Err(e) ==> (e matches RegistrationError::Transient(m) && exists|
                reason: Seq<char>,
            | m@ == "failed to generate WireGuard private key material: "@ + reason),
    {
        WarpKeyPair::generate()
    }
}

impl WarpKeySource for FixedWarpKeySource {
    /// Always the held key pair.
    open spec fn yields(&self, r: Result<WarpKeyPair, RegistrationError>) -> bool {
        r matches Ok(k) && k.spec_private() == self.spec_key_pair().spec_private()
            && k.spec_public() == self.spec_key_pair().spec_public()
    }

    fn next_key_pair(&mut self) -> (r: Result<WarpKeyPair, RegistrationError>)
        ensures
            r matches Ok(k) && k.spec_private() == old(self).spec_key_pair().spec_private()
                && k.spec_public() == old(self).spec_key_pair().spec_public(),
            final(self).spec_key_pair() == old(self).spec_key_pair(),
    {
        Ok(self.key_pair.duplicate())
    }
}

impl<T> DirectPublicWarpRegistrationClient<T, FixedWarpKeySource> {
    /// A client that registers with one fixed key pair.
    pub fn new(transport: T, key_pair: WarpKeyPair) -> (r: Self)
        ensures
            r.spec_transport() == transport,
            r.spec_key_source().spec_key_pair() == key_pair,
    {
        DirectPublicWarpRegistrationClient { transport, key_source: FixedWarpKeySource::new(key_pair) }
    }
}

impl<T, K> DirectPublicWarpRegistrationClient<T, K> {
    /// The transport the client sends through.
    pub closed spec fn spec_transport(self) -> T {
        self.transport
    }

    /// The source of the client's key pairs.
    pub closed spec fn spec_key_source(self) -> K {
        self.key_source
    }

    /// A client with its own key source.
    pub fn with_key_source(transport: T, key_source: K) -> (r: Self)
        ensures
            r.spec_transport() == transport,
            r.spec_key_source() == key_source,
    {
        DirectPublicWarpRegistrationClient { transport, key_source }
    }

    /// The transport the client sends through.
    pub fn transport(&self) -> (r: &T)
        ensures
            *r == self.spec_transport(),
    {
        &self.transport
    }
}

impl PublicWarpIntegrationGate {
    /// The opt-ins as set by the two environment flags' values: each is on for
    /// `1`, `true` or `TRUE`.
    pub fn from_env_values(run_warp_integration: Option<&str>, accept_public_warp_compat_risk: Option<&str>) -> (r: Self)
        ensures
            r.run_warp_integration == flag_on(
                match run_warp_integration {
                    Some(v) => Some(v@),
                    None => None,
                },
            ),
            r.accept_public_warp_compat_risk == flag_on(
                match accept_public_warp_compat_risk {
                    Some(v) => Some(v@),
                    None => None,
                },
            ),
    {
        PublicWarpIntegrationGate {
            run_warp_integration: flag_value_on(run_warp_integration),
            accept_public_warp_compat_risk: flag_value_on(accept_public_warp_compat_risk),
        }
    }

    /// Both opt-ins are given.
    pub fn is_enabled(self) -> (r: bool)
        ensures
            r == (self.run_warp_integration && self.accept_public_warp_compat_risk),
    {
        self.run_warp_integration && self.accept_public_warp_compat_risk
    }

    /// What to set when an opt-in is missing.
    pub fn skip_reason(self) -> (r: Option<&'static str>)
        ensures
            r is None <==> (self.run_warp_integration && self.accept_public_warp_compat_risk),
            r matches Some(s) ==> s@
                == "set WARPNEST_RUN_WARP_INTEGRATION=1 and WARPNEST_ACCEPT_PUBLIC_WARP_COMPAT_RISK=1"@,
    {
        if self.is_enabled() {
            None
        } else {
            Some(
                "set WARPNEST_RUN_WARP_INTEGRATION=1 and WARPNEST_ACCEPT_PUBLIC_WARP_COMPAT_RISK=1",
            )
        }
    }
}

fn flag_value_on(value: Option<&str>) -> (r: bool)
    ensures
        r == flag_on(
            match value {
                Some(v) => Some(v@),
                None => None,
            },
        ),
{
    match value {
        Some(v) => crate::text::str_eq(v, "1") || crate::text::str_eq(v, "true")
            || crate::text::str_eq(v, "TRUE"),
        None => false,
    }
}

fn string_pair(name: &str, value: &str) -> (r: (String, String))
    ensures
        r.0@ == name@,
        r.1@ == value@,
{
    (String::from_str(name), String::from_str(value))
}

/// The headers the wgcf-derived client sends.
pub fn compatibility_headers() -> (r: Vec<(String, String)>)
    ensures
        r.len() == 2,
        r[0].0@ == "User-Agent"@ && r[0].1@ == "okhttp/3.12.1"@,
        r[1].0@ == "CF-Client-Version"@ && r[1].1@ == "a-6.3-1922"@,
{
    let mut headers: Vec<(String, String)> = Vec::new();
    headers.push(string_pair("User-Agent", USER_AGENT));
    headers.push(string_pair("CF-Client-Version", CF_CLIENT_VERSION));
    headers
}

/// The registration request body for a key pair and a terms-of-service
/// acceptance time.
pub fn registration_request_body(key_pair: &WarpKeyPair, tos: &str) -> (r: String)
    ensures
        r@ == request_body_text(key_pair.spec_public(), tos@),
{
    let mut acc: Vec<char> = Vec::new();
    push_str(&mut acc, "{\"fcm_token\":\"\",\"install_id\":\"\",\"key\":");
    push_json_string(&mut acc, key_pair.public_key_base64());
    push_str(&mut acc, ",\"locale\":\"en_US\",\"model\":\"PC\",\"tos\":");
    push_json_string(&mut acc, tos);
    push_str(&mut acc, ",\"type\":\"Android\"}");
    string_from_chars(&acc)
}

/// The registration request for a key pair at a terms-of-service acceptance time.
pub fn registration_request(key_pair: &WarpKeyPair, tos: &str) -> (r: DirectRegistrationHttpRequest)
    ensures
        r.url@ == "https://api.cloudflareclient.com/v0a1922/reg"@,
        r.headers.len() == 2,
        r.headers[0].0@ == "User-Agent"@ && r.headers[0].1@ == "okhttp/3.12.1"@,
        r.headers[1].0@ == "CF-Client-Version"@ && r.headers[1].1@ == "a-6.3-1922"@,
        r.body@ == request_body_text(key_pair.spec_public(), tos@),
{
    proof {
        reveal_strlit("https://api.cloudflareclient.com");
        reveal_strlit("v0a1922");
        reveal_strlit("/");
        reveal_strlit("/reg");
        reveal_strlit("https://api.cloudflareclient.com/v0a1922/reg");
    }
    let mut url: Vec<char> = Vec::new();
    push_str(&mut url, API_BASE_URL);
    push_str(&mut url, "/");
    push_str(&mut url, API_VERSION);
    push_str(&mut url, "/reg");
    DirectRegistrationHttpRequest {
        url: string_from_chars(&url),
        headers: compatibility_headers(),
        body: registration_request_body(key_pair, tos),
    }
}

/// The public error message of a response body.
fn sanitized_remote_error(body: &str) -> (r: String)
    ensures
        r@ == remote_error_message(body@),
{
    let errors = json_node_at(body, "/errors");
    if let Some(JsonNodeKind::Array(_)) = errors {
        if let Some(JsonNodeKind::Text(message)) = json_node_at(body, "/errors/0/message") {
            return message;
        }
    }
    if let Some(JsonNodeKind::Text(message)) = json_node_at(body, "/error") {
        return message;
    }
    String::from_str("remote response omitted a public error message")
}

/// Classifies the public service's HTTP status: success passes, a rejection
/// blocks, an unsupported answer is unsupported, anything else is transient.
pub fn classify_status(status: u16, body: &str) -> (r: Result<(), RegistrationError>)
    ensures
        r is Ok <==> status_class(status) is Success,
        r matches Err(e) ==> error_view(e) == status_error(status, body@),
        r is Ok <==> 200 <= status <= 299,
        (status == 408 || status == 425 || status == 429 || 500 <= status <= 599) ==> r matches Err(
            RegistrationError::Transient(_),
        ),
        r matches Err(RegistrationError::Blocked(_)) <==> (status == 401 || status == 403 || status
            == 409 || status == 451),
{
    let class_prefix: &str = if 200 <= status && status <= 299 {
        return Ok(());
    } else if status == 401 || status == 403 || status == 409 || status == 451 {
        "Public WARP registration rejected with HTTP "
    } else if status == 400 || status == 404 || status == 422 {
        "Public WARP registration returned unsupported HTTP "
    } else if status == 408 || status == 425 || status == 429 || (500 <= status && status <= 599) {
        "Public WARP registration returned retryable HTTP "
    } else {
        "Public WARP registration returned HTTP "
    };
    let mut message: Vec<char> = Vec::new();
    push_str(&mut message, class_prefix);
    push_decimal(&mut message, status as u64);
    push_str(&mut message, ": ");
    let remote = sanitized_remote_error(body);
    push_str(&mut message, remote.as_str());
    let text = string_from_chars(&message);
    assert(text@ =~= class_prefix@ + (decimal_digits(status as nat) + ": "@ + remote_error_message(body@)));
    if status == 401 || status == 403 || status == 409 || status == 451 {
        Err(RegistrationError::Blocked(text))
    } else if status == 400 || status == 404 || status == 422 {
        Err(RegistrationError::Unsupported(text))
    } else {
        Err(RegistrationError::Transient(text))
    }
}

fn shape_failure(reason: Vec<char>) -> (r: RegistrationError)
    ensures
        error_view(r) == shape_error(reason@),
{
    let mut message: Vec<char> = Vec::new();
    push_str(&mut message, "unsupported Public WARP registration response shape: ");
    crate::text::push_all(&mut message, &reason);
    RegistrationError::Unsupported(string_from_chars(&message))
}

/// A required non-blank string of the response at a JSON Pointer.
fn required_string(body: &str, pointer: &str, name: &str) -> (r: Result<String, RegistrationError>)
    ensures
        match r {
            Ok(s) => required_text(body@, pointer@, name@) == Ok::<Seq<char>, SpecRegistrationError>(s@),
            Err(e) => required_text(body@, pointer@, name@) == Err::<Seq<char>, SpecRegistrationError>(error_view(e)),
        },
{
    match json_node_at(body, pointer) {
        None => {
            let mut reason: Vec<char> = Vec::new();
            push_str(&mut reason, "missing ");
            push_str(&mut reason, name);
            Err(shape_failure(reason))
        },
        Some(JsonNodeKind::Text(s)) => {
            if is_blank(s.as_str()) {
                let mut reason: Vec<char> = Vec::new();
                push_str(&mut reason, name);
                push_str(&mut reason, " must not be empty");
                Err(shape_failure(reason))
            } else {
                Ok(s)
            }
        },
        Some(_) => {
            let mut reason: Vec<char> = Vec::new();
            push_str(&mut reason, name);
            push_str(&mut reason, " must be a string");
            Err(shape_failure(reason))
        },
    }
}

fn unsupported_shape(reason: &str) -> (r: RegistrationError)
    ensures
        error_view(r) == shape_error(reason@),
{
    shape_failure(chars_of(reason))
}

fn normalized_text(
    device_id: &str,
    v4: &str,
    v6: &str,
    peer_public_key: &str,
    peer_endpoint: &str,
    private_key: &str,
) -> (r: String)
    ensures
        r@ == normalized_config_text(
            device_id@,
            v4@,
            v6@,
            peer_public_key@,
            peer_endpoint@,
            private_key@,
        ),
{
    let mut acc: Vec<char> = Vec::new();
    push_str(&mut acc, "{\"allowed_ips\":");
    let allowed: Vec<&str> = vec!["0.0.0.0/0", "::/0"];
    assert(allowed@.map_values(|s: &str| s@) =~= allowed_ips_items());
    push_json_string_array(&mut acc, &allowed);
    push_str(&mut acc, ",\"device_id\":");
    push_json_string(&mut acc, device_id);
    push_str(&mut acc, ",\"dns_servers\":");
    let dns: Vec<&str> = vec!["1.1.1.1", "1.0.0.1", "2606:4700:4700::1111", "2606:4700:4700::1001"];
    assert(dns@.map_values(|s: &str| s@) =~= dns_server_items());
    push_json_string_array(&mut acc, &dns);
    push_str(&mut acc, ",\"interface_addresses\":");
    let mut v4_cidr: Vec<char> = chars_of(v4);
    push_str(&mut v4_cidr, "/32");
    let mut v6_cidr: Vec<char> = chars_of(v6);
    push_str(&mut v6_cidr, "/128");
    let v4_text = string_from_chars(&v4_cidr);
    let v6_text = string_from_chars(&v6_cidr);
    let addresses: Vec<&str> = vec![v4_text.as_str(), v6_text.as_str()];
    assert(addresses@.map_values(|s: &str| s@) =~= seq![v4@ + "/32"@, v6@ + "/128"@]);
    push_json_string_array(&mut acc, &addresses);
    push_str(&mut acc, ",\"peer_endpoint\":");
    push_json_string(&mut acc, peer_endpoint);
    push_str(&mut acc, ",\"peer_public_key\":");
    push_json_string(&mut acc, peer_public_key);
    push_str(&mut acc, ",\"private_key\":");
    push_json_string(&mut acc, private_key);
    push_str(&mut acc, "}");
    let r = string_from_chars(&acc);
    assert(r@ =~= normalized_config_text(
        device_id@,
        v4@,
        v6@,
        peer_public_key@,
        peer_endpoint@,
        private_key@,
    ));
    r
}

/// Normalizes a granted registration response into the observed WireGuard
/// adapter configuration for the given key pair.
pub fn normalize_registration_response(body: &str, key_pair: &WarpKeyPair) -> (r: Result<
    PublicWarpAdapterConfig,
    RegistrationError,
>)
    ensures
        match normalized_response(body@, key_pair.spec_private()) {
            Err(e) => r matches Err(re) && error_view(re) == e,
            Ok(config) => match r {
                Ok(c) => c.kind@ == observed_v1_kind() && c.version == 1 && c.config_view()
                    == config,
                Err(e) => error_view(e) == SpecRegistrationError::Unsupported(
                    "failed to normalize Public WARP registration response: failed to parse normalized adapter config"@,
                ),
            },
        },
{
    let device_id = match required_string(body, "/id", "id") {
        Ok(s) => s,
        Err(e) => {
            return Err(e);
        },
    };
    if json_node_at(body, "/config/interface/addresses").is_none() {
        return Err(unsupported_shape("missing config.interface.addresses"));
    }
    let v4 = match required_string(body, "/config/interface/addresses/v4", "v4") {
        Ok(s) => s,
        Err(e) => {
            return Err(e);
        },
    };
    let v6 = match required_string(body, "/config/interface/addresses/v6", "v6") {
        Ok(s) => s,
        Err(e) => {
            return Err(e);
        },
    };
    if json_node_at(body, "/config/peers/0").is_none() {
        return Err(unsupported_shape("missing config.peers[0]"));
    }
    let peer_public_key = match required_string(body, "/config/peers/0/public_key", "public_key") {
        Ok(s) => s,
        Err(e) => {
            return Err(e);
        },
    };
    let peer_endpoint = match required_string(
        body,
        "/config/peers/0/endpoint/host",
        "endpoint.host",
    ) {
        Ok(s) => s,
        Err(e) => {
            return Err(e);
        },
    };
    let text = normalized_text(
        device_id.as_str(),
        v4.as_str(),
        v6.as_str(),
        peer_public_key.as_str(),
        peer_endpoint.as_str(),
        key_pair.private_key_base64(),
    );
    match PublicWarpAdapterConfig::public_warp_wireguard_observed_v1(text) {
        Ok(config) => Ok(config),
        Err(_) => Err(
            RegistrationError::Unsupported(
                String::from_str(
                    "failed to normalize Public WARP registration response: failed to parse normalized adapter config",
                ),
            ),
        ),
    }
}

/// What the public service's answer yields for a key pair: the classified error,
/// the first unusable part of a granted response, or the registration with its
/// raw material and normalized adapter configuration.
pub fn registration_from_response(response: &DirectRegistrationHttpResponse, key_pair: &WarpKeyPair) -> (r: Result<
    PublicRegistration,
    RegistrationError,
>)
    ensures
        registration_outcome(*response, key_pair.spec_private(), r),
{
    match classify_status(response.status, response.body.as_str()) {
        Ok(()) => {},
        Err(e) => {
            return Err(e);
        },
    }
    let adapter_config = match normalize_registration_response(response.body.as_str(), key_pair) {
        Ok(c) => c,
        Err(e) => {
            return Err(e);
        },
    };
    let compact = match json_compact_text(response.body.as_str()) {
        Some(t) => t,
        None => {
            return Err(
                RegistrationError::Unsupported(
                    String::from_str(
                        "failed to preserve Public WARP registration material: response body is not JSON",
                    ),
                ),
            );
        },
    };
    let mut material: Vec<char> = Vec::new();
    push_str(
        &mut material,
        "{\"adapter\":\"wgcf-derived-public-warp-registration\",\"api_version\":\"v0a1922\",\"response\":",
    );
    push_str(&mut material, compact.as_str());
    push_str(&mut material, "}");
    let registration_material = string_from_chars(&material);
    Ok(PublicRegistration { registration_material, adapter_config })
}

/// The calendar date (year, month, day) of a count of days since 1970-01-01, in
/// the proleptic Gregorian calendar, computed era by era of 400 years counted
/// from 0000-03-01.
#[verifier::opaque]
pub open spec fn civil_of(days: int) -> (int, int, int) {
    let z = days + 719468;
    let era = z / 146097;
    let doe = z % 146097;
    let yoe = (doe - doe / 1460 + doe / 36524 - doe / 146096) / 365;
    let doy = doe - (365 * yoe + yoe / 4 - yoe / 100);
    let mp = (5 * doy + 2) / 153;
    let d = doy - (153 * mp + 2) / 5 + 1;
    let m = if mp < 10 {
        mp + 3
    } else {
        mp - 9
    };
    let y = yoe + era * 400 + if m <= 2 {
        1int
    } else {
        0
    };
    (y, m, d)
}

/// A signed number right-aligned in `width` characters with zeros after the sign.
pub open spec fn signed_padded(v: int, width: nat) -> Seq<char> {
    if v < 0 {
        seq!['-'] + zero_padded((-v) as nat, (width - 1) as nat)
    } else {
        zero_padded(v as nat, width)
    }
}

/// A text without its trailing `0` characters.
pub open spec fn without_trailing_zeros(s: Seq<char>) -> Seq<char>
    decreases s.len(),
{
    if s.len() > 0 && s.last() == '0' {
        without_trailing_zeros(s.drop_last())
    } else {
        s
    }
}

/// `YYYY-MM-DD` of a year, month and day.
pub open spec fn date_text(y: i32, m: u32, d: u32) -> Seq<char> {
    signed_padded(y as int, 4) + "-"@ + zero_padded(m as nat, 2) + "-"@ + zero_padded(d as nat, 2)
}

/// `hh:mm:ss` of a second of the day.
pub open spec fn time_of_day_text(sod: nat) -> Seq<char> {
    zero_padded(sod / 3600, 2) + ":"@ + zero_padded((sod % 3600) / 60, 2) + ":"@ + zero_padded(
        sod % 60,
        2,
    )
}

/// The fraction of a second: nothing for zero, else a dot and the nine-digit
/// nanoseconds without trailing zeros.
pub open spec fn fraction_text(nanos: nat) -> Seq<char> {
    if nanos == 0 {
        seq![]
    } else {
        "."@ + without_trailing_zeros(zero_padded(nanos, 9))
    }
}

/// The RFC 3339 UTC timestamp of a time since the Unix epoch: the date, the
/// time of day, and the fraction of the second without trailing zeros when it
/// is not zero; year, month and day are taken as 32-bit numbers.
pub open spec fn timestamp_text(secs: nat, nanos: nat) -> Seq<char> {
    let (y, m, d) = civil_of((secs / 86400) as int);
    date_text(y as i32, m as u32, d as u32) + "T"@ + time_of_day_text(secs % 86400)
        + fraction_text(nanos) + "Z"@
}

/// Converts days since 1970-01-01 into a calendar date.
#[verifier::rlimit(40)]
fn civil_from_days(days_since_unix_epoch: i64) -> (r: (i32, u32, u32))
    requires
        days_since_unix_epoch <= i64::MAX - 719468,
    ensures
        r.0 == (civil_of(days_since_unix_epoch as int).0 as i32),
        r.1 == (civil_of(days_since_unix_epoch as int).1 as u32),
        r.2 == (civil_of(days_since_unix_epoch as int).2 as u32),
{
    proof {
        reveal(civil_of);
    }
    let days = days_since_unix_epoch + 719468;
    let shifted = if days >= 0 {
        days
    } else {
        days - 146096
    };
    let era = shifted / 146097;
    assert(era == (days as int) / 146097) by (nonlinear_arith)
        requires
            shifted == (if days >= 0 { days as int } else { days - 146096 }),
            era == (if shifted >= 0 { shifted / 146097 } else { -((-shifted) / 146097) }),
    ;
    let day_of_era = days - era * 146097;
    assert(0 <= day_of_era < 146097 && day_of_era == (days as int) % 146097) by (nonlinear_arith)
        requires
            era == (days as int) / 146097,
            day_of_era == days - era * 146097,
    ;
    let year_of_era = (day_of_era - day_of_era / 1460 + day_of_era / 36524 - day_of_era / 146096)
        / 365;
    assert(0 <= year_of_era <= 400) by (nonlinear_arith)
        requires
            0 <= day_of_era < 146097,
            year_of_era == (day_of_era - day_of_era / 1460 + day_of_era / 36524 - day_of_era
                / 146096) / 365,
    ;
    let day_of_year = day_of_era - (365 * year_of_era + year_of_era / 4 - year_of_era / 100);
    assert(-200000 <= day_of_year <= 200000) by (nonlinear_arith)
        requires
            0 <= day_of_era < 146097,
            0 <= year_of_era <= 400,
            day_of_year == day_of_era - (365 * year_of_era + year_of_era / 4 - year_of_era / 100),
    ;
    let month_prime = (5 * day_of_year + 2) / 153;
    let day = day_of_year - (153 * month_prime + 2) / 5 + 1;
    let month = month_prime + if month_prime < 10 {
        3
    } else {
        -9
    };
    let year = year_of_era + era * 400 + if month <= 2 {
        1
    } else {
        0
    };
    (year as i32, month as u32, day as u32)
}

fn push_signed_padded(acc: &mut Vec<char>, v: i32, width: usize)
    requires
        width >= 1,
    ensures
        final(acc)@ == old(acc)@ + signed_padded(v as int, width as nat),
{
    if v < 0 {
        let ghost start = acc@;
        acc.push('-');
        let magnitude: u64 = if v == i32::MIN {
            2147483648
        } else {
            (-v) as u64
        };
        push_padded(acc, magnitude, width - 1);
        assert(acc@ =~= start + signed_padded(v as int, width as nat));
    } else {
        push_padded(acc, v as u64, width);
    }
}

fn push_fraction(acc: &mut Vec<char>, nanos: u32)
    ensures
        final(acc)@ == old(acc)@ + without_trailing_zeros(zero_padded(nanos as nat, 9)),
{
    let mut digits: Vec<char> = Vec::new();
    push_padded(&mut digits, nanos as u64, 9);
    let mut end: usize = digits.len();
    assert(digits@.take(end as int) =~= digits@);
    while end > 0 && digits[end - 1] == '0'
        invariant
            end <= digits.len(),
            without_trailing_zeros(digits@.take(end as int)) == without_trailing_zeros(digits@),
        decreases end,
    {
        proof {
            let t = digits@.take(end as int);
            assert(t.drop_last() =~= digits@.take(end - 1));
        }
        end = end - 1;
    }
    proof {
        let t = digits@.take(end as int);
        assert(without_trailing_zeros(t) == t);
    }
    let kept = crate::text::slice_chars(&digits, 0, end);
    crate::text::push_all(acc, &kept);
}

fn push_date(acc: &mut Vec<char>, year: i32, month: u32, day: u32)
    ensures
        final(acc)@ == old(acc)@ + date_text(year, month, day),
{
    let ghost start = acc@;
    push_signed_padded(acc, year, 4);
    acc.push('-');
    push_padded(acc, month as u64, 2);
    acc.push('-');
    push_padded(acc, day as u64, 2);
    proof {
        reveal_strlit("-");
        assert(acc@ =~= start + date_text(year, month, day));
    }
}

fn push_time_of_day(acc: &mut Vec<char>, seconds_of_day: u64)
    ensures
        final(acc)@ == old(acc)@ + time_of_day_text(seconds_of_day as nat),
{
    let ghost start = acc@;
    push_padded(acc, seconds_of_day / 3600, 2);
    acc.push(':');
    push_padded(acc, (seconds_of_day % 3600) / 60, 2);
    acc.push(':');
    push_padded(acc, seconds_of_day % 60, 2);
    proof {
        reveal_strlit(":");
        assert(acc@ =~= start + time_of_day_text(seconds_of_day as nat));
    }
}

/// The RFC 3339 UTC timestamp of a time since the Unix epoch.
fn rfc3339_timestamp_string(secs: u64, nanos: u32) -> (r: String)
    ensures
        r@ == timestamp_text(secs as nat, nanos as nat),
{
    let days = (secs / 86400) as i64;
    let (year, month, day) = civil_from_days(days);
    let mut acc: Vec<char> = Vec::new();
    push_date(&mut acc, year, month, day);
    let ghost after_date = acc@;
    acc.push('T');
    push_time_of_day(&mut acc, secs % 86400);
    let ghost after_time = acc@;
    if nanos != 0 {
        acc.push('.');
        push_fraction(&mut acc, nanos);
    }
    proof {
        reveal_strlit(".");
        assert(acc@ =~= after_time + fraction_text(nanos as nat));
    }
    acc.push('Z');
    let r = string_from_chars(&acc);
    proof {
        reveal_strlit("T");
        reveal_strlit("Z");
        assert(r@ =~= timestamp_text(secs as nat, nanos as nat));
    }
    r
}

/// The current time since the Unix epoch from `std::time::SystemTime::now`, as
/// whole seconds and the nanoseconds past them; a clock before the epoch reads
/// as zero. The clock is outside the library, so only the range of the
/// nanoseconds is claimed.
#[verifier::external_body]
fn unix_time_now() -> (r: (u64, u32))
    ensures
        r.1 < 1_000_000_000,
{
    let elapsed = std::time::SystemTime::now()
        .duration_since(std::time::UNIX_EPOCH)
        .unwrap_or(std::time::Duration::ZERO);
    (elapsed.as_secs(), elapsed.subsec_nanos())
}

/// What a registration attempt gives once the transport answered, or failed
/// with a reason: a failure is transient with that reason; an answer is
/// classified and normalized with the private key.
pub open spec fn answered_outcome(
    private_key: Seq<char>,
    sent: Result<DirectRegistrationHttpResponse, String>,
    r: Result<PublicRegistration, RegistrationError>,
) -> bool {
    match sent {
        Err(reason) => r matches Err(RegistrationError::Transient(m)) && m@ == reason@,
        Ok(response) => registration_outcome(response, private_key, r),
    }
}

/// Whether a request is the registration request for a public key at a
/// terms-of-service acceptance time.
pub open spec fn is_registration_request(
    request: DirectRegistrationHttpRequest,
    public_key: Seq<char>,
    tos: Seq<char>,
) -> bool {
    &&& request.url@ == "https://api.cloudflareclient.com/v0a1922/reg"@
    &&& request.headers.len() == 2
    &&& request.headers[0].0@ == "User-Agent"@ && request.headers[0].1@ == "okhttp/3.12.1"@
    &&& request.headers[1].0@ == "CF-Client-Version"@ && request.headers[1].1@ == "a-6.3-1922"@
    &&& request.body@ == request_body_text(public_key, tos)
}

/// One registration request for a key pair at a time since the Unix epoch,
/// handed to the transport, and what its reply gives.
pub open spec fn sent_at<T: DirectRegistrationHttpTransport>(
    transport: T,
    pair: WarpKeyPair,
    secs: u64,
    nanos: u32,
    request: DirectRegistrationHttpRequest,
    sent: Result<DirectRegistrationHttpResponse, String>,
    r: Result<PublicRegistration, RegistrationError>,
) -> bool {
    &&& nanos < 1_000_000_000
    &&& is_registration_request(
        request,
        pair.spec_public(),
        timestamp_text(secs as nat, nanos as nat),
    )
    &&& transport.replies(request, sent)
    &&& answered_outcome(pair.spec_private(), sent, r)
}

/// What a registration attempt gives: the key source hands out a key pair or
/// an error; its error is the answer unchanged; otherwise the registration
/// request for the pair's public key at the current time goes to the transport,
/// and its reply is classified and normalized with the pair's private key.
pub open spec fn attempt_outcome<T: DirectRegistrationHttpTransport, K: WarpKeySource>(
    transport: T,
    key_source: K,
    keys: Result<WarpKeyPair, RegistrationError>,
    r: Result<PublicRegistration, RegistrationError>,
) -> bool {
    &&& key_source.yields(keys)
    &&& match keys {
        Err(e) => r == Err::<PublicRegistration, RegistrationError>(e),
        Ok(pair) => exists|
            secs: u64,
            nanos: u32,
            request: DirectRegistrationHttpRequest,
            sent: Result<DirectRegistrationHttpResponse, String>,
        | #[trigger] sent_at(transport, pair, secs, nanos, request, sent, r),
    }
}

impl<T: DirectRegistrationHttpTransport, K: WarpKeySource> RegistrationClient for DirectPublicWarpRegistrationClient<T, K> {
    /// Any answer that what the key source hands out, and the transport's reply
    /// to the registration request for it, lead to.
    open spec fn answers(
        &self,
        request: PublicRegistrationRequest,
        answer: Result<PublicRegistration, RegistrationError>,
    ) -> bool {
        exists|keys: Result<WarpKeyPair, RegistrationError>|
            #[trigger] attempt_outcome(self.spec_transport(), self.spec_key_source(), keys, answer)
    }

    /// Registers one key pair: the request goes out with the current time as
    /// terms-of-service acceptance; a transport failure is transient; the answer
    /// is classified and normalized by `registration_from_response`.
    fn create_public_registration(&mut self, _request: &PublicRegistrationRequest) -> (r: Result<
        PublicRegistration,
        RegistrationError,
    >)
        ensures
            exists|keys: Result<WarpKeyPair, RegistrationError>|
                #[trigger] attempt_outcome(old(self).spec_transport(), old(self).spec_key_source(), keys, r),
    {
        let ghost transport = self.transport;
        let ghost key_source = self.key_source;
        let next = self.key_source.next_key_pair();
        let ghost keys = next;
        let key_pair = match next {
            Ok(k) => k,
            Err(e) => {
                let r = Err(e);
                assert(attempt_outcome(transport, key_source, keys, r));
                assert(attempt_outcome(old(self).spec_transport(), old(self).spec_key_source(), keys, r));
                return r;
            },
        };
        let (secs, nanos) = unix_time_now();
        let tos = rfc3339_timestamp_string(secs, nanos);
        let request = registration_request(&key_pair, tos.as_str());
        let ghost req = request;
        let reply = self.transport.send(request);
        let ghost sent = reply;
        let r = match reply {
            Ok(response) => registration_from_response(&response, &key_pair),
            Err(reason) => Err(RegistrationError::Transient(reason)),
        };
        assert(sent_at(transport, key_pair, secs, nanos, req, sent, r));
        assert(attempt_outcome(transport, key_source, keys, r));
        assert(attempt_outcome(old(self).spec_transport(), old(self).spec_key_source(), keys, r));
        r
    }
}

/// Registration status law: a 2xx status is a success; 401, 403, 409 and 451
/// refuse the registration for good (Blocked); 400, 404 and 422 are unsupported
/// answers; every other status, among them 408, 425, 429 and all of 500 to 599,
/// is a transient failure to retry with backoff, named retryable for 408, 425,
/// 429 and 5xx.
pub proof fn law_status_classes(status: u16, body: Seq<char>)
    ensures
        status_class(status) is Success <==> 200 <= status <= 299,
        !(200 <= status <= 299) ==> {
            &&& status_error(status, body) is Blocked <==> (status == 401 || status == 403
                || status == 409 || status == 451)
            &&& status_error(status, body) is Unsupported <==> (status == 400 || status == 404
                || status == 422)
            &&& status_error(status, body) is Transient <==> !(status == 401 || status == 403
                || status == 409 || status == 451 || status == 400 || status == 404 || status
                == 422)
        },
        (status == 408 || status == 425 || status == 429 || 500 <= status <= 599)
            ==> status_error(status, body) == SpecRegistrationError::Transient(
            "Public WARP registration returned retryable HTTP "@ + decimal_digits(status as nat)
                + ": "@ + remote_error_message(body),
        ),
{
    assert("Public WARP registration returned retryable HTTP "@ + decimal_digits(status as nat)
        + ": "@ + remote_error_message(body) =~= "Public WARP registration returned retryable HTTP "@
        + (decimal_digits(status as nat) + ": "@ + remote_error_message(body)));
}

} // verus!
