//! Encodings the library takes from outside crates: base64 (the `base64` crate),
//! X25519 public keys (`x25519-dalek`), and JSON reading (`serde_json`): the
//! well-formedness check, JSON Pointer lookups and compact re-encoding.
use vstd::prelude::*;

use base64::Engine;

verus! {

/// The character of the standard base64 alphabet for a 6-bit value.
pub open spec fn base64_symbol(v: int) -> char {
    if v < 26 {
        (('A' as int) + v) as char
    } else if v < 52 {
        (('a' as int) + v - 26) as char
    } else if v < 62 {
        (('0' as int) + v - 52) as char
    } else if v == 62 {
        '+'
    } else {
        '/'
    }
}

/// Standard base64 (RFC 4648 alphabet, `=` padding) of a byte sequence.
pub open spec fn base64_standard(b: Seq<u8>) -> Seq<char>
    decreases b.len(),
{
    if b.len() == 0 {
        seq![]
    } else if b.len() == 1 {
        seq![base64_symbol(b[0] as int / 4), base64_symbol((b[0] as int % 4) * 16), '=', '=']
    } else if b.len() == 2 {
        seq![
            base64_symbol(b[0] as int / 4),
            base64_symbol((b[0] as int % 4) * 16 + b[1] as int / 16),
            base64_symbol((b[1] as int % 16) * 4),
            '=',
        ]
    } else {
        seq![
            base64_symbol(b[0] as int / 4),
            base64_symbol((b[0] as int % 4) * 16 + b[1] as int / 16),
            base64_symbol((b[1] as int % 16) * 4 + b[2] as int / 64),
            base64_symbol(b[2] as int % 64),
        ] + base64_standard(b.skip(3))
    }
}

/// What `base64::engine::general_purpose::STANDARD.decode` returns for a text:
/// the bytes, or the text of the crate's decode error.
pub uninterp spec fn base64_standard_decode(text: Seq<char>) -> Result<Seq<u8>, Seq<char>>;

/// The X25519 public key of a 32-byte secret (`x25519_dalek::PublicKey::from`).
pub uninterp spec fn x25519_public(secret: Seq<u8>) -> Seq<u8>;

/// The text of the error `serde_json::from_str::<serde_json::Value>` reports for
/// a text, or nothing when the text is one JSON value.
pub uninterp spec fn json_syntax_error(text: Seq<char>) -> Option<Seq<char>>;

/// Whether `serde_json` accepts a text as one JSON value.
pub open spec fn json_well_formed(text: Seq<char>) -> bool {
    json_syntax_error(text) is None
}

/// Encodes bytes with `base64::engine::general_purpose::STANDARD`; the contract
/// claims the standard alphabet with `=` padding, as the crate documents.
#[verifier::external_body]
pub(crate) fn base64_encode(bytes: &[u8]) -> (r: String)
    ensures
        r@ == base64_standard(bytes@),
{
    base64::engine::general_purpose::STANDARD.encode(bytes)
}

/// Decodes a text with `base64::engine::general_purpose::STANDARD.decode`; the
/// contract only names the outcome (the bytes, or the error's text) as a
/// function of the text.
#[verifier::external_body]
pub(crate) fn base64_decode(text: &str) -> (r: Result<Vec<u8>, String>)
    ensures
        match r {
            Ok(v) => base64_standard_decode(text@) == Ok::<Seq<u8>, Seq<char>>(v@),
            Err(e) => base64_standard_decode(text@) == Err::<Seq<u8>, Seq<char>>(e@),
        },
{
    base64::engine::general_purpose::STANDARD.decode(text.as_bytes()).map_err(|error| error.to_string())
}

/// Derives the public key of a secret with `x25519_dalek::StaticSecret::from`
/// and `x25519_dalek::PublicKey::from`; the contract names the result as a
/// function of the secret bytes.
#[verifier::external_body]
pub(crate) fn x25519_public_key(secret: [u8; 32]) -> (r: [u8; 32])
    ensures
        r@ == x25519_public(secret@),
{
    let secret = x25519_dalek::StaticSecret::from(secret);
    x25519_dalek::PublicKey::from(&secret).to_bytes()
}

/// Reads a text with `serde_json::from_str::<serde_json::Value>` and gives the
/// text of its error, if any; the contract names the outcome as a function of the
/// text.
#[verifier::external_body]
pub(crate) fn json_parse_error(text: &str) -> (r: Option<String>)
    ensures
        match r {
            Some(e) => json_syntax_error(text@) == Some(e@),
            None => json_syntax_error(text@) is None,
        },
{
    match serde_json::from_str::<serde_json::Value>(text) {
        Ok(_) => None,
        Err(error) => Some(error.to_string()),
    }
}

/// Whether a text is one JSON value.
pub fn json_text_is_well_formed(text: &str) -> (r: bool)
    ensures
        r == json_well_formed(text@),
{
    json_parse_error(text).is_none()
}

/// What a JSON Pointer finds in a JSON text, as values.
pub enum JsonNode {
    Null,
    Bool(bool),
    Number,
    Text(Seq<char>),
    Array(nat),
    Object,
}

/// What a JSON Pointer finds in a JSON text: its kind, with the text of a string
/// and the length of an array.
pub enum JsonNodeKind {
    Null,
    Bool(bool),
    Number,
    Text(String),
    Array(usize),
    Object,
}

/// A found node as values.
pub open spec fn node_view(n: Option<JsonNodeKind>) -> Option<JsonNode> {
    match n {
        None => None,
        Some(JsonNodeKind::Null) => Some(JsonNode::Null),
        Some(JsonNodeKind::Bool(b)) => Some(JsonNode::Bool(b)),
        Some(JsonNodeKind::Number) => Some(JsonNode::Number),
        Some(JsonNodeKind::Text(s)) => Some(JsonNode::Text(s@)),
        Some(JsonNodeKind::Array(n)) => Some(JsonNode::Array(n as nat)),
        Some(JsonNodeKind::Object) => Some(JsonNode::Object),
    }
}

/// What `serde_json::Value::pointer` finds at a JSON Pointer in the value
/// `serde_json::from_str` reads from a text (nothing when the text is not JSON).
pub uninterp spec fn json_node(text: Seq<char>, pointer: Seq<char>) -> Option<JsonNode>;

/// The compact text `serde_json::to_string` writes for the value
/// `serde_json::from_str` reads from a text (nothing when the text is not JSON).
pub uninterp spec fn json_compact(text: Seq<char>) -> Option<Seq<char>>;

/// Looks up a JSON Pointer (RFC 6901) in a JSON text with `serde_json`; the
/// contract names the outcome as a function of the text and the pointer.
#[verifier::external_body]
pub(crate) fn json_node_at(text: &str, pointer: &str) -> (r: Option<JsonNodeKind>)
    ensures
        node_view(r) == json_node(text@, pointer@),
{
    let value: serde_json::Value = serde_json::from_str(text).ok()?;
    match value.pointer(pointer)? {
        serde_json::Value::Null => Some(JsonNodeKind::Null),
        serde_json::Value::Bool(b) => Some(JsonNodeKind::Bool(*b)),
        serde_json::Value::Number(_) => Some(JsonNodeKind::Number),
        serde_json::Value::String(s) => Some(JsonNodeKind::Text(s.clone())),
        serde_json::Value::Array(items) => Some(JsonNodeKind::Array(items.len())),
        serde_json::Value::Object(_) => Some(JsonNodeKind::Object),
    }
}

/// Re-encodes a JSON text compactly with `serde_json::from_str` and
/// `serde_json::to_string`; the contract names the outcome as a function of the
/// text.
#[verifier::external_body]
pub(crate) fn json_compact_text(text: &str) -> (r: Option<String>)
    ensures
        match r {
            Some(t) => json_compact(text@) == Some(t@),
            None => json_compact(text@) is None,
        },
{
    let value: serde_json::Value = serde_json::from_str(text).ok()?;
    serde_json::to_string(&value).ok()
}

} // verus!
