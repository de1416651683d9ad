//! The WireGuard material fields as they stand in a JSON text: the string fields
//! `private_key`, `peer_public_key` and `peer_endpoint`, the string-list fields
//! `interface_addresses`, `allowed_ips` and `dns_servers`, and an optional string
//! `device_id`, all in one JSON object found at a JSON Pointer.
use vstd::prelude::*;

use crate::codec::{json_node, json_node_at, JsonNode, JsonNodeKind};
use crate::text::{decimal_digits, push_decimal, push_str, string_from_chars};

verus! {

/// The WireGuard material fields, as values.
pub struct NormalizedFields {
    pub private_key: Seq<char>,
    pub interface_addresses: Seq<Seq<char>>,
    pub peer_public_key: Seq<char>,
    pub peer_endpoint: Seq<char>,
    pub allowed_ips: Seq<Seq<char>>,
    pub dns_servers: Seq<Seq<char>>,
    pub device_id: Option<Seq<char>>,
}

/// The WireGuard material fields, read out of a JSON text.
pub struct WireGuardFields {
    pub private_key: String,
    pub interface_addresses: Vec<String>,
    pub peer_public_key: String,
    pub peer_endpoint: String,
    pub allowed_ips: Vec<String>,
    pub dns_servers: Vec<String>,
    pub device_id: Option<String>,
}

/// The views of a list of strings.
pub open spec fn strings_view(v: Seq<String>) -> Seq<Seq<char>> {
    v.map_values(|s: String| s@)
}

/// The fields as values.
pub open spec fn fields_view(n: WireGuardFields) -> NormalizedFields {
    NormalizedFields {
        private_key: n.private_key@,
        interface_addresses: strings_view(n.interface_addresses@),
        peer_public_key: n.peer_public_key@,
        peer_endpoint: n.peer_endpoint@,
        allowed_ips: strings_view(n.allowed_ips@),
        dns_servers: strings_view(n.dns_servers@),
        device_id: match n.device_id {
            Some(d) => Some(d@),
            None => None,
        },
    }
}

/// The JSON Pointer of a field of the object at `base`.
pub open spec fn field_pointer(base: Seq<char>, name: Seq<char>) -> Seq<char> {
    base + "/"@ + name
}

/// The JSON Pointer of an item of a list field of the object at `base`.
pub open spec fn item_pointer(base: Seq<char>, name: Seq<char>, i: nat) -> Seq<char> {
    base + "/"@ + name + "/"@ + decimal_digits(i)
}

/// A required string field.
pub open spec fn text_field(text: Seq<char>, base: Seq<char>, name: Seq<char>) -> Result<
    Seq<char>,
    Seq<char>,
> {
    match json_node(text, field_pointer(base, name)) {
        None => Err("missing field `"@ + name + "`"@),
        Some(JsonNode::Text(s)) => Ok(s),
        Some(_) => Err("invalid type for field `"@ + name + "`, expected a string"@),
    }
}

/// The text of an item of a list field, when it is a string.
pub open spec fn item_text(text: Seq<char>, base: Seq<char>, name: Seq<char>, i: nat) -> Option<
    Seq<char>,
> {
    match json_node(text, item_pointer(base, name, i)) {
        Some(JsonNode::Text(s)) => Some(s),
        _ => None,
    }
}

/// A required list-of-strings field.
pub open spec fn list_field(text: Seq<char>, base: Seq<char>, name: Seq<char>) -> Result<
    Seq<Seq<char>>,
    Seq<char>,
> {
    match json_node(text, field_pointer(base, name)) {
        None => Err("missing field `"@ + name + "`"@),
        Some(JsonNode::Array(n)) => if forall|i: nat| i < n ==> #[trigger] item_text(
            text,
            base,
            name,
            i,
        ) is Some {
            Ok(Seq::new(n, |i: int| item_text(text, base, name, i as nat).unwrap()))
        } else {
            Err("invalid type for an item of field `"@ + name + "`, expected a string"@)
        },
        Some(_) => Err("invalid type for field `"@ + name + "`, expected a sequence"@),
    }
}

/// An optional string field: missing or null is none.
pub open spec fn optional_text_field(text: Seq<char>, base: Seq<char>, name: Seq<char>) -> Result<
    Option<Seq<char>>,
    Seq<char>,
> {
    match json_node(text, field_pointer(base, name)) {
        None => Ok(None),
        Some(JsonNode::Null) => Ok(None),
        Some(JsonNode::Text(s)) => Ok(Some(s)),
        Some(_) => Err("invalid type for field `"@ + name + "`, expected a string"@),
    }
}

/// The fields of the JSON object at `base` in a text, checked in the order
/// `private_key`, `interface_addresses`, `peer_public_key`, `peer_endpoint`,
/// `allowed_ips`, `dns_servers`, `device_id`; or the first reason they cannot be
/// read. Fields of other names are ignored.
#[verifier::opaque]
pub open spec fn fields_at(text: Seq<char>, base: Seq<char>) -> Result<NormalizedFields, Seq<char>> {
    if !(json_node(text, base) matches Some(JsonNode::Object)) {
        Err("expected a JSON object"@)
    } else {
        match text_field(text, base, "private_key"@) {
            Err(e) => Err(e),
            Ok(private_key) => match list_field(text, base, "interface_addresses"@) {
                Err(e) => Err(e),
                Ok(interface_addresses) => match text_field(text, base, "peer_public_key"@) {
                    Err(e) => Err(e),
                    Ok(peer_public_key) => match text_field(text, base, "peer_endpoint"@) {
                        Err(e) => Err(e),
                        Ok(peer_endpoint) => match list_field(text, base, "allowed_ips"@) {
                            Err(e) => Err(e),
                            Ok(allowed_ips) => match list_field(text, base, "dns_servers"@) {
                                Err(e) => Err(e),
                                Ok(dns_servers) => match optional_text_field(
                                    text,
                                    base,
                                    "device_id"@,
                                ) {
                                    Err(e) => Err(e),
                                    Ok(device_id) => Ok(
                                        NormalizedFields {
                                            private_key,
                                            interface_addresses,
                                            peer_public_key,
                                            peer_endpoint,
                                            allowed_ips,
                                            dns_servers,
                                            device_id,
                                        },
                                    ),
                                },
                            },
                        },
                    },
                },
            },
        }
    }
}

fn pointer_of(base: &str, name: &str) -> (r: String)
    ensures
        r@ == field_pointer(base@, name@),
{
    let mut p: Vec<char> = Vec::new();
    push_str(&mut p, base);
    push_str(&mut p, "/");
    push_str(&mut p, name);
    string_from_chars(&p)
}

fn item_pointer_of(base: &str, name: &str, i: usize) -> (r: String)
    ensures
        r@ == item_pointer(base@, name@, i as nat),
{
    let mut p: Vec<char> = Vec::new();
    push_str(&mut p, base);
    push_str(&mut p, "/");
    push_str(&mut p, name);
    push_str(&mut p, "/");
    push_decimal(&mut p, i as u64);
    string_from_chars(&p)
}

fn quoted_field_message(head: &str, name: &str, tail: &str) -> (r: String)
    ensures
        r@ == head@ + name@ + tail@,
{
    let mut m: Vec<char> = Vec::new();
    push_str(&mut m, head);
    push_str(&mut m, name);
    push_str(&mut m, tail);
    string_from_chars(&m)
}

fn read_text_field(text: &str, base: &str, name: &str) -> (r: Result<String, String>)
    ensures
        match r {
            Ok(s) => text_field(text@, base@, name@) == Ok::<Seq<char>, Seq<char>>(s@),
            Err(e) => text_field(text@, base@, name@) == Err::<Seq<char>, Seq<char>>(e@),
        },
{
    match json_node_at(text, pointer_of(base, name).as_str()) {
        None => Err(quoted_field_message("missing field `", name, "`")),
        Some(JsonNodeKind::Text(s)) => Ok(s),
        Some(_) => Err(quoted_field_message("invalid type for field `", name, "`, expected a string")),
    }
}

fn read_list_field(text: &str, base: &str, name: &str) -> (r: Result<Vec<String>, String>)
    ensures
        match r {
            Ok(v) => list_field(text@, base@, name@) == Ok::<Seq<Seq<char>>, Seq<char>>(
                strings_view(v@),
            ),
            Err(e) => list_field(text@, base@, name@) == Err::<Seq<Seq<char>>, Seq<char>>(e@),
        },
{
    let n = match json_node_at(text, pointer_of(base, name).as_str()) {
        None => {
            return Err(quoted_field_message("missing field `", name, "`"));
        },
        Some(JsonNodeKind::Array(n)) => n,
        Some(_) => {
            return Err(
                quoted_field_message("invalid type for field `", name, "`, expected a sequence"),
            );
        },
    };
    let mut items: Vec<String> = Vec::new();
    let mut i: usize = 0;
    while i < n
        invariant
            i <= n,
            json_node(text@, field_pointer(base@, name@)) == Some(JsonNode::Array(n as nat)),
            items.len() == i,
            forall|k: int|
                0 <= k < i ==> item_text(text@, base@, name@, k as nat) == Some(
                    #[trigger] items@[k]@,
                ),
        decreases n - i,
    {
        match json_node_at(text, item_pointer_of(base, name, i).as_str()) {
            Some(JsonNodeKind::Text(s)) => {
                items.push(s);
            },
            _ => {
                assert(item_text(text@, base@, name@, i as nat) is None);
                return Err(
                    quoted_field_message(
                        "invalid type for an item of field `",
                        name,
                        "`, expected a string",
                    ),
                );
            },
        }
        i = i + 1;
    }
    proof {
        assert forall|k: nat| k < n implies #[trigger] item_text(text@, base@, name@, k) is Some by {
            assert(item_text(text@, base@, name@, k as int as nat) == Some(items@[k as int]@));
        }
        assert(strings_view(items@) =~= Seq::new(
            n as nat,
            |k: int| item_text(text@, base@, name@, k as nat).unwrap(),
        ));
    }
    Ok(items)
}

fn read_optional_text_field(text: &str, base: &str, name: &str) -> (r: Result<
    Option<String>,
    String,
>)
    ensures
        match r {
            Ok(Some(s)) => optional_text_field(text@, base@, name@) == Ok::<
                Option<Seq<char>>,
                Seq<char>,
            >(Some(s@)),
            Ok(None) => optional_text_field(text@, base@, name@) == Ok::<
                Option<Seq<char>>,
                Seq<char>,
            >(None),
            Err(e) => optional_text_field(text@, base@, name@) == Err::<
                Option<Seq<char>>,
                Seq<char>,
            >(e@),
        },
{
    match json_node_at(text, pointer_of(base, name).as_str()) {
        None => Ok(None),
        Some(JsonNodeKind::Null) => Ok(None),
        Some(JsonNodeKind::Text(s)) => Ok(Some(s)),
        Some(_) => Err(quoted_field_message("invalid type for field `", name, "`, expected a string")),
    }
}

/// Reads the WireGuard material fields of the JSON object at the JSON Pointer
/// `base` in a text, or the first reason they cannot be read.
pub fn read_fields(text: &str, base: &str) -> (r: Result<WireGuardFields, String>)
    ensures
        match r {
            Ok(n) => fields_at(text@, base@) == Ok::<NormalizedFields, Seq<char>>(fields_view(n)),
            Err(e) => fields_at(text@, base@) == Err::<NormalizedFields, Seq<char>>(e@),
        },
{
    proof {
        reveal(fields_at);
    }
    match json_node_at(text, base) {
        Some(JsonNodeKind::Object) => {},
        _ => {
            return Err(String::from_str("expected a JSON object"));
        },
    }
    let private_key = match read_text_field(text, base, "private_key") {
        Ok(v) => v,
        Err(e) => {
            return Err(e);
        },
    };
    let interface_addresses = match read_list_field(text, base, "interface_addresses") {
        Ok(v) => v,
        Err(e) => {
            return Err(e);
        },
    };
    let peer_public_key = match read_text_field(text, base, "peer_public_key") {
        Ok(v) => v,
        Err(e) => {
            return Err(e);
        },
    };
    let peer_endpoint = match read_text_field(text, base, "peer_endpoint") {
        Ok(v) => v,
        Err(e) => {
            return Err(e);
        },
    };
    let allowed_ips = match read_list_field(text, base, "allowed_ips") {
        Ok(v) => v,
        Err(e) => {
            return Err(e);
        },
    };
    let dns_servers = match read_list_field(text, base, "dns_servers") {
        Ok(v) => v,
        Err(e) => {
            return Err(e);
        },
    };
    let device_id = match read_optional_text_field(text, base, "device_id") {
        Ok(v) => v,
        Err(e) => {
            return Err(e);
        },
    };
    Ok(
        WireGuardFields {
            private_key,
            interface_addresses,
            peer_public_key,
            peer_endpoint,
            allowed_ips,
            dns_servers,
            device_id,
        },
    )
}

} // verus!
