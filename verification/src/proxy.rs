//! The Proxy Endpoints' protocol logic: SOCKS5 replies and UDP datagrams, HTTP
//! proxy request targets and credentials, and the answers each endpoint gives.
use vstd::prelude::*;
use vstd::string::StringSliceAdditionalSpecFns;
use vstd::utf8::{decode_utf8, encode_utf8, valid_utf8};

use crate::codec::{base64_decode, base64_standard_decode};
use crate::data_plane::DataPlaneTarget;
use crate::ip_text::split_on;
use crate::pool::{ConnectionLease, ProxyPool, leased, released};
use crate::proxy_auth::{AuthConfig, ProxyCredentials, ProxyRequestError, cursor_after, request_resolution, request_slot, resolve_proxy_request, route_of};
use crate::text::{IntErrorKind, ascii_lower_seq, is_ws, chars_of, decimal_digits, digit_value, digits_result, find_last, has_prefix, last_index_of, parse_uint, push_decimal, push_str, slice_chars, split_whitespace, starts_with, string_from_chars, to_ascii_lowercase, trim, trim_seq, uint_result, without_plus, ws_tokens};

verus! {

/// A SOCKS5 UDP datagram addressed to a target.
#[derive(Debug, Clone, PartialEq, Eq)]
pub struct Socks5UdpPacket {
    pub host: String,
    pub port: u16,
    pub payload: Vec<u8>,
}

/// The target of an HTTP proxy request.
#[derive(Debug, Clone, PartialEq, Eq)]
pub struct HttpTarget {
    pub host: String,
    pub port: u16,
}

/// The text of bytes that are valid UTF-8 (`String::from_utf8`): exactly when
/// the bytes are valid UTF-8, and then their decoding.
#[verifier::external_body]
pub(crate) fn utf8_text(bytes: &[u8]) -> (r: Option<String>)
    ensures
        r is Some <==> valid_utf8(bytes@),
        r matches Some(s) ==> s@ == decode_utf8(bytes@),
{
    String::from_utf8(bytes.to_vec()).ok()
}

/// The SOCKS5 reply code of a refused proxy request: a failed authentication is
/// `0x02`, a selector that cannot be served is `0x04`.
pub fn socks5_error_code(error: ProxyRequestError) -> (r: u8)
    ensures
        r == (if error is AuthenticationFailed {
            0x02u8
        } else {
            0x04u8
        }),
{
    match error {
        ProxyRequestError::AuthenticationFailed => 0x02,
        ProxyRequestError::InvalidSelector => 0x04,
        ProxyRequestError::SelectionFailed(_) => 0x04,
    }
}

/// Dotted-decimal text of four octets.
pub open spec fn ipv4_text(a: u8, b: u8, c: u8, d: u8) -> Seq<char> {
    decimal_digits(a as nat) + "."@ + decimal_digits(b as nat) + "."@ + decimal_digits(c as nat)
        + "."@ + decimal_digits(d as nat)
}

/// A big-endian port.
pub open spec fn be_port(hi: u8, lo: u8) -> u16 {
    (hi as int * 256 + lo as int) as u16
}

/// What a SOCKS5 UDP datagram carries: three zero bytes, then an IPv4 address
/// (type 1) or a length-prefixed UTF-8 host name (type 3), a big-endian port,
/// and the payload.
pub open spec fn udp_packet_of(p: Seq<u8>) -> Option<(Seq<char>, u16, Seq<u8>)> {
    if p.len() < 7 || p[0] != 0 || p[1] != 0 || p[2] != 0 {
        None
    } else if p[3] == 1 {
        if p.len() < 10 {
            None
        } else {
            Some((ipv4_text(p[4], p[5], p[6], p[7]), be_port(p[8], p[9]), p.skip(10)))
        }
    } else if p[3] == 3 {
        let host_end = 5 + p[4];
        if p.len() < host_end + 2 {
            None
        } else if !valid_utf8(p.subrange(5, host_end)) {
            None
        } else {
            Some(
                (
                    decode_utf8(p.subrange(5, host_end)),
                    be_port(p[host_end], p[host_end + 1]),
                    p.skip(host_end + 2),
                ),
            )
        }
    } else {
        None
    }
}

fn copy_bytes(bytes: &[u8], from: usize) -> (r: Vec<u8>)
    requires
        from <= bytes@.len(),
    ensures
        r@ == bytes@.skip(from as int),
{
    let mut out: Vec<u8> = Vec::new();
    let mut i: usize = from;
    while i < bytes.len()
        invariant
            from <= i <= bytes@.len(),
            out@ == bytes@.subrange(from as int, i as int),
        decreases bytes.len() - i,
    {
        out.push(bytes[i]);
        i = i + 1;
        assert(out@ =~= bytes@.subrange(from as int, i as int));
    }
    assert(bytes@.subrange(from as int, bytes@.len() as int) =~= bytes@.skip(from as int));
    out
}

/// Dotted-decimal text of four octets.
pub fn ipv4_string(a: u8, b: u8, c: u8, d: u8) -> (r: String)
    ensures
        r@ == ipv4_text(a, b, c, d),
{
    let mut t: Vec<char> = Vec::new();
    push_decimal(&mut t, a as u64);
    t.push('.');
    push_decimal(&mut t, b as u64);
    t.push('.');
    push_decimal(&mut t, c as u64);
    t.push('.');
    push_decimal(&mut t, d as u64);
    let r = string_from_chars(&t);
    proof {
        reveal_strlit(".");
        assert(r@ =~= ipv4_text(a, b, c, d));
    }
    r
}

/// Reads a SOCKS5 UDP datagram; anything else is dropped.
pub fn parse_socks5_udp_packet(packet: &[u8]) -> (r: Option<Socks5UdpPacket>)
    ensures
        match r {
            Some(u) => udp_packet_of(packet@) == Some((u.host@, u.port, u.payload@)),
            None => udp_packet_of(packet@) is None,
        },
{
    if packet.len() < 7 || packet[0] != 0 || packet[1] != 0 || packet[2] != 0 {
        return None;
    }
    if packet[3] == 1 {
        if packet.len() < 10 {
            return None;
        }
        let host = ipv4_string(packet[4], packet[5], packet[6], packet[7]);
        let port: u16 = (packet[8] as u16) * 256 + (packet[9] as u16);
        Some(Socks5UdpPacket { host, port, payload: copy_bytes(packet, 10) })
    } else if packet[3] == 3 {
        let host_end: usize = 5 + packet[4] as usize;
        if packet.len() < host_end + 2 {
            return None;
        }
        let mut name: Vec<u8> = Vec::new();
        let mut i: usize = 5;
        while i < host_end
            invariant
                5 <= i <= host_end,
                host_end + 2 <= packet@.len(),
                name@ == packet@.subrange(5, i as int),
            decreases host_end - i,
        {
            name.push(packet[i]);
            i = i + 1;
            assert(name@ =~= packet@.subrange(5, i as int));
        }
        let host = match utf8_text(name.as_slice()) {
            Some(h) => h,
            None => {
                return None;
            },
        };
        let port: u16 = (packet[host_end] as u16) * 256 + (packet[host_end + 1] as u16);
        Some(Socks5UdpPacket { host, port, payload: copy_bytes(packet, host_end + 2) })
    } else {
        None
    }
}

/// A line without one trailing carriage return.
pub open spec fn without_cr(line: Seq<char>) -> Seq<char> {
    if line.len() > 0 && line.last() == '\r' {
        line.drop_last()
    } else {
        line
    }
}

/// The lines of a text (`str::lines`): split at `\n`, each `\n`-terminated line
/// without a trailing `\r`, and no empty last line after a final `\n`.
pub open spec fn lines_of(s: Seq<char>) -> Seq<Seq<char>> {
    let p = split_on(s, '\n');
    let head = Seq::new((p.len() - 1) as nat, |i: int| without_cr(p[i]));
    if p.last().len() == 0 {
        head
    } else {
        head.push(p.last())
    }
}

/// Splits a text into lines.
pub fn text_lines(s: &Vec<char>) -> (r: Vec<Vec<char>>)
    ensures
        r@.map_values(|t: Vec<char>| t@) == lines_of(s@),
{
    let pieces = crate::ip_text::split_chars(s, '\n');
    let ghost p = split_on(s@, '\n');
    let n = pieces.len();
    let mut lines: Vec<Vec<char>> = Vec::new();
    let mut i: usize = 0;
    while i + 1 < n
        invariant
            i < n,
            n == pieces.len(),
            p == crate::ip_text::views(pieces@),
            lines@.map_values(|t: Vec<char>| t@) == Seq::new(i as nat, |k: int| without_cr(p[k])),
        decreases n - i,
    {
        let piece = &pieces[i];
        let line = if piece.len() > 0 && piece[piece.len() - 1] == '\r' {
            slice_chars(piece, 0, piece.len() - 1)
        } else {
            slice_chars(piece, 0, piece.len())
        };
        proof {
            assert(p[i as int] == pieces@[i as int]@);
            assert(line@ =~= without_cr(p[i as int]));
        }
        let ghost before = lines@.map_values(|t: Vec<char>| t@);
        lines.push(line);
        assert(lines@.map_values(|t: Vec<char>| t@) =~= before.push(line@));
        assert(lines@.map_values(|t: Vec<char>| t@) =~= Seq::new(
            (i + 1) as nat,
            |k: int| without_cr(p[k]),
        ));
        i = i + 1;
    }
    let last = &pieces[n - 1];
    proof {
        assert(p.len() == n);
        assert(p.last() == pieces@[n - 1]@);
        assert(i == n - 1);
    }
    let ghost before = lines@.map_values(|t: Vec<char>| t@);
    if last.len() > 0 {
        let l = slice_chars(last, 0, last.len());
        assert(l@ =~= p.last());
        lines.push(l);
        assert(lines@.map_values(|t: Vec<char>| t@) =~= before.push(l@));
    }
    assert(lines@.map_values(|t: Vec<char>| t@) =~= lines_of(s@));
    lines
}

/// The target named by an authority: the text around its last `:` when the
/// part after it is a port, nothing when it is not, or the whole text with the
/// default port when there is no `:`.
pub open spec fn host_port_of(value: Seq<char>, default_port: u16) -> Option<(Seq<char>, u16)> {
    match last_index_of(value, ':') {
        Some(i) => match uint_result(value.skip(i + 1), 65535) {
            Ok(port) => Some((value.take(i), port as u16)),
            Err(_) => None,
        },
        None => Some((value, default_port)),
    }
}

/// The value of the first `Host: ` header line.
pub open spec fn host_header(lines: Seq<Seq<char>>) -> Option<Seq<char>> {
    if exists|i: int| 0 <= i < lines.len() && has_prefix(lines[i], "Host: "@) {
        let i = choose|i: int|
            0 <= i < lines.len() && has_prefix(lines[i], "Host: "@) && forall|j: int|
                0 <= j < i ==> !has_prefix(lines[j], "Host: "@);
        Some(lines[i].skip(6))
    } else {
        None
    }
}

/// The target of an HTTP proxy request: from the URI of a `CONNECT` (port 443 by
/// default), from the authority of an absolute `http://` URI, or from the
/// `Host: ` header (port 80 by default).
pub open spec fn http_target_of(request: Seq<char>) -> Option<(Seq<char>, u16)> {
    let lines = lines_of(request);
    if lines.len() == 0 {
        None
    } else {
        let parts = ws_tokens(lines[0]);
        if parts.len() < 2 {
            None
        } else if ascii_lower_seq(parts[0]) == "connect"@ {
            host_port_of(parts[1], 443)
        } else if has_prefix(parts[1], "http://"@) {
            host_port_of(split_on(parts[1].skip(7), '/')[0], 80)
        } else {
            match host_header(lines) {
                Some(h) => host_port_of(trim_seq(h), 80),
                None => None,
            }
        }
    }
}

/// Reads an authority into a target.
pub fn parse_host_port(value: &str, default_port: u16) -> (r: Option<HttpTarget>)
    ensures
        match r {
            Some(t) => host_port_of(value@, default_port) == Some((t.host@, t.port)),
            None => host_port_of(value@, default_port) is None,
        },
{
    let v = chars_of(value);
    match find_last(&v, ':') {
        Some(i) => {
            let host = slice_chars(&v, 0, i);
            let port_text = slice_chars(&v, i + 1, v.len());
            proof {
                assert(host@ =~= v@.take(i as int));
                assert(port_text@ =~= v@.skip(i + 1));
            }
            match parse_uint(&port_text, 65535) {
                Ok(port) => Some(HttpTarget { host: string_from_chars(&host), port: port as u16 }),
                Err(_) => None,
            }
        },
        None => Some(HttpTarget { host: String::from_str(value), port: default_port }),
    }
}

fn find_host_header(lines: &Vec<Vec<char>>) -> (r: Option<Vec<char>>)
    ensures
        match r {
            Some(h) => host_header(lines@.map_values(|t: Vec<char>| t@)) == Some(h@),
            None => host_header(lines@.map_values(|t: Vec<char>| t@)) is None,
        },
{
    let ghost ls = lines@.map_values(|t: Vec<char>| t@);
    let prefix = chars_of("Host: ");
    proof {
        reveal_strlit("Host: ");
    }
    assert(prefix@.len() == 6);
    let mut i: usize = 0;
    while i < lines.len()
        invariant
            i <= lines.len(),
            prefix@ == "Host: "@,
            prefix@.len() == 6,
            ls == lines@.map_values(|t: Vec<char>| t@),
            forall|j: int| 0 <= j < i ==> !has_prefix(ls[j], "Host: "@),
        decreases lines.len() - i,
    {
        if starts_with(&lines[i], &prefix) {
            proof {
                assert(ls[i as int] == lines@[i as int]@);
                let c = choose|k: int|
                    0 <= k < ls.len() && has_prefix(ls[k], "Host: "@) && forall|j: int|
                        0 <= j < k ==> !has_prefix(ls[j], "Host: "@);
                assert(exists|k: int| 0 <= k < ls.len() && has_prefix(ls[k], "Host: "@));
                assert(c == i as int) by {
                    if c < i {
                    } else if c > i {
                    }
                }
            }
            let value = slice_chars(&lines[i], 6, lines[i].len());
            assert(value@ =~= ls[i as int].skip(6));
            return Some(value);
        }
        proof {
            assert(ls[i as int] == lines@[i as int]@);
        }
        i = i + 1;
    }
    None
}

/// Reads the target of an HTTP proxy request.
pub fn parse_http_target(request: &str) -> (r: Option<HttpTarget>)
    ensures
        match r {
            Some(t) => http_target_of(request@) == Some((t.host@, t.port)),
            None => http_target_of(request@) is None,
        },
{
    let req = chars_of(request);
    let lines = text_lines(&req);
    if lines.len() == 0 {
        return None;
    }
    let parts = split_whitespace(&lines[0]);
    proof {
        assert(lines@.map_values(|t: Vec<char>| t@)[0] == lines@[0]@);
    }
    if parts.len() < 2 {
        return None;
    }
    proof {
        assert(parts@.map_values(|t: Vec<char>| t@)[0] == parts@[0]@);
        assert(parts@.map_values(|t: Vec<char>| t@)[1] == parts@[1]@);
        reveal_strlit("connect");
        reveal_strlit("http://");
    }
    let method = to_ascii_lowercase(&parts[0]);
    let uri = &parts[1];
    if crate::text::chars_eq(&method, &chars_of("connect")) {
        let text = string_from_chars(uri);
        return parse_host_port(text.as_str(), 443);
    }
    if starts_with(uri, &chars_of("http://")) {
        let rest = slice_chars(uri, 7, uri.len());
        assert(rest@ =~= uri@.skip(7));
        let pieces = crate::ip_text::split_chars(&rest, '/');
        proof {
            assert(crate::ip_text::views(pieces@)[0] == pieces@[0]@);
        }
        let authority = string_from_chars(&pieces[0]);
        return parse_host_port(authority.as_str(), 80);
    }
    match find_host_header(&lines) {
        Some(h) => {
            let host = string_from_chars(&trim(&h));
            parse_host_port(host.as_str(), 80)
        },
        None => None,
    }
}

/// The prefix of the Basic proxy credentials header.
pub open spec fn basic_header_prefix() -> Seq<char> {
    "Proxy-Authorization: Basic "@
}

/// The same prefix in lower case.
pub open spec fn basic_header_prefix_lower() -> Seq<char> {
    "proxy-authorization: Basic "@
}

/// Whether a line carries Basic proxy credentials.
pub open spec fn is_auth_line(line: Seq<char>) -> bool {
    has_prefix(line, basic_header_prefix()) || has_prefix(line, basic_header_prefix_lower())
}

/// The value of the first line that carries Basic proxy credentials.
pub open spec fn auth_header(lines: Seq<Seq<char>>) -> Option<Seq<char>> {
    if exists|i: int| 0 <= i < lines.len() && is_auth_line(lines[i]) {
        let i = choose|i: int|
            0 <= i < lines.len() && is_auth_line(lines[i]) && forall|j: int|
                0 <= j < i ==> !is_auth_line(lines[j]);
        Some(lines[i].skip(27))
    } else {
        None
    }
}

/// The credentials of an HTTP proxy request: the first Basic proxy credentials
/// header, standard base64 of UTF-8 `username:password`, split at the last `:`.
pub open spec fn http_credentials_of(request: Seq<char>) -> Option<(Seq<char>, Seq<char>)> {
    match auth_header(lines_of(request)) {
        None => None,
        Some(h) => match base64_standard_decode(trim_seq(h)) {
            Err(_) => None,
            Ok(bytes) => if !valid_utf8(bytes) {
                None
            } else {
                let t = decode_utf8(bytes);
                match last_index_of(t, ':') {
                    None => None,
                    Some(i) => Some((t.take(i), t.skip(i + 1))),
                }
            },
        },
    }
}

fn find_auth_header(lines: &Vec<Vec<char>>) -> (r: Option<Vec<char>>)
    ensures
        match r {
            Some(h) => auth_header(lines@.map_values(|t: Vec<char>| t@)) == Some(h@),
            None => auth_header(lines@.map_values(|t: Vec<char>| t@)) is None,
        },
{
    let ghost ls = lines@.map_values(|t: Vec<char>| t@);
    let upper = chars_of("Proxy-Authorization: Basic ");
    let lower = chars_of("proxy-authorization: Basic ");
    proof {
        reveal_strlit("Proxy-Authorization: Basic ");
        reveal_strlit("proxy-authorization: Basic ");
    }
    assert(upper@.len() == 27 && lower@.len() == 27);
    let mut i: usize = 0;
    while i < lines.len()
        invariant
            i <= lines.len(),
            upper@ == basic_header_prefix(),
            lower@ == basic_header_prefix_lower(),
            upper@.len() == 27,
            lower@.len() == 27,
            ls == lines@.map_values(|t: Vec<char>| t@),
            forall|j: int| 0 <= j < i ==> !is_auth_line(ls[j]),
        decreases lines.len() - i,
    {
        proof {
            assert(ls[i as int] == lines@[i as int]@);
        }
        if starts_with(&lines[i], &upper) || starts_with(&lines[i], &lower) {
            proof {
                assert(is_auth_line(ls[i as int]));
                let c = choose|k: int|
                    0 <= k < ls.len() && is_auth_line(ls[k]) && forall|j: int|
                        0 <= j < k ==> !is_auth_line(ls[j]);
                assert(exists|k: int| 0 <= k < ls.len() && is_auth_line(ls[k]));
                assert(c == i as int) by {
                    if c < i {
                    } else if c > i {
                    }
                }
            }
            let value = slice_chars(&lines[i], 27, lines[i].len());
            assert(value@ =~= ls[i as int].skip(27));
            return Some(value);
        }
        i = i + 1;
    }
    None
}

/// Reads the Basic proxy credentials of an HTTP proxy request.
pub fn parse_http_credentials(request: &str) -> (r: Option<ProxyCredentials>)
    ensures
        match r {
            Some(c) => http_credentials_of(request@) == Some((c.username@, c.password@)),
            None => http_credentials_of(request@) is None,
        },
{
    let lines = text_lines(&chars_of(request));
    let header = match find_auth_header(&lines) {
        Some(h) => h,
        None => {
            return None;
        },
    };
    let value = string_from_chars(&trim(&header));
    let bytes = match base64_decode(value.as_str()) {
        Ok(b) => b,
        Err(_) => {
            return None;
        },
    };
    let text = match utf8_text(bytes.as_slice()) {
        Some(t) => t,
        None => {
            return None;
        },
    };
    let t = chars_of(text.as_str());
    match find_last(&t, ':') {
        None => None,
        Some(i) => {
            let user = slice_chars(&t, 0, i);
            let pass = slice_chars(&t, i + 1, t.len());
            assert(user@ =~= t@.take(i as int));
            assert(pass@ =~= t@.skip(i + 1));
            let username = string_from_chars(&user);
            let password = string_from_chars(&pass);
            Some(ProxyCredentials::new(username.as_str(), password.as_str()))
        },
    }
}

/// The reply to a request that failed Proxy Authentication.
pub open spec fn auth_required_reply() -> Seq<char> {
    "HTTP/1.1 407 Proxy Authentication Required\r\ncontent-length: 0\r\n\r\n"@
}

/// The reply when no WARP Instance can carry a request.
pub open spec fn bad_gateway_reply() -> Seq<char> {
    "HTTP/1.1 502 Bad Gateway\r\ncontent-length: 0\r\n\r\n"@
}

/// The reply that opens a `CONNECT` tunnel.
pub open spec fn tunnel_established_reply() -> Seq<char> {
    "HTTP/1.1 200 Connection Established\r\n\r\n"@
}

/// What the HTTP Proxy Endpoint does with a request.
pub enum HttpDecision {
    /// The request names no target: it is dropped without an answer.
    MissingTarget,
    /// Answer with this reply and close.
    Reply(String),
    /// Carry the request through the leased WARP Instance: a `CONNECT` tunnel, or
    /// a plain request whose answer goes back as one `200 OK` response.
    Forward { lease: ConnectionLease, target: DataPlaneTarget, tunnel: bool },
}

/// The credentials a request presents: its Basic credentials, else an empty
/// username and password.
pub open spec fn presented_credentials(request: Seq<char>) -> (Seq<char>, Seq<char>) {
    match http_credentials_of(request) {
        Some(c) => c,
        None => (seq![], seq![]),
    }
}

/// Decides an HTTP proxy request: its target must be named; its credentials
/// (empty when absent) go through Proxy Authentication and the Instance
/// Selector; a failed authentication is answered `407`, any other refusal
/// `502`; an accepted request is forwarded through the leased instance.
pub fn decide_http_request(pool: &mut ProxyPool, auth: &AuthConfig, request: &str) -> (r:
    HttpDecision)
    requires
        old(pool).has_headroom(),
    ensures
        final(pool).spec_config() == old(pool).spec_config(),
        http_target_of(request@) is None ==> r is MissingTarget && final(pool).spec_members()
            == old(pool).spec_members(),
        http_target_of(request@) matches Some(target) ==> {
            let (user, pass) = presented_credentials(request@);
            match r {
                HttpDecision::MissingTarget => false,
                HttpDecision::Reply(reply) => {
                    &&& final(pool).spec_members() == old(pool).spec_members()
                    &&& (!auth.accepts(pass) ==> reply@ == auth_required_reply())
                    &&& (auth.accepts(pass) ==> reply@ == bad_gateway_reply())
                },
                HttpDecision::Forward { lease, target: t, tunnel } => {
                    &&& auth.accepts(pass)
                    &&& route_of(user) is Ok
                    &&& leased(old(pool).spec_members(), final(pool).spec_members(), lease.spec_slot())
                    &&& t.instance_id@ == lease.spec_instance_id()
                    &&& t.host@ == target.0 && t.port == target.1
                    &&& tunnel == has_prefix(request@, "CONNECT "@)
                },
            }
        },
        !(r is Forward) ==> final(pool).spec_cursor() == old(pool).spec_cursor(),
        r matches HttpDecision::Forward { lease, .. } ==> final(pool).spec_cursor() == cursor_after(
            old(pool).spec_cursor(),
            presented_credentials(request@).0,
            lease.spec_slot(),
        ),
        http_target_of(request@) is Some ==> exists|res: Result<int, ProxyRequestError>|
            request_resolution(
                old(pool).spec_members(),
                old(pool).spec_config(),
                old(pool).spec_cursor(),
                *auth,
                presented_credentials(request@).0,
                presented_credentials(request@).1,
                res,
            ) && match r {
                HttpDecision::Forward { lease, .. } => res == Ok::<int, ProxyRequestError>(
                    lease.spec_slot(),
                ),
                _ => res is Err,
            },
{
    proof {
        reveal_strlit("");
    }
    let credentials = match parse_http_credentials(request) {
        Some(c) => c,
        None => ProxyCredentials::new("", ""),
    };
    assert(""@ =~= Seq::<char>::empty());
    assert(credentials.username@ == presented_credentials(request@).0);
    assert(credentials.password@ == presented_credentials(request@).1);
    let target = match parse_http_target(request) {
        Some(t) => t,
        None => {
            return HttpDecision::MissingTarget;
        },
    };
    let ghost password = credentials.password@;
    let resolved = resolve_proxy_request(pool, auth, credentials);
    let ghost witness = request_slot(resolved);
    match resolved {
        Ok(lease) => {
            proof {
                reveal_strlit("CONNECT ");
            }
            let tunnel = starts_with(&chars_of(request), &chars_of("CONNECT "));
            let instance_id = lease.instance_id();
            HttpDecision::Forward {
                lease,
                target: DataPlaneTarget { instance_id, host: target.host, port: target.port },
                tunnel,
            }
        },
        Err(ProxyRequestError::AuthenticationFailed) => HttpDecision::Reply(
            String::from_str("HTTP/1.1 407 Proxy Authentication Required\r\ncontent-length: 0\r\n\r\n"),
        ),
        Err(_) => HttpDecision::Reply(
            String::from_str("HTTP/1.1 502 Bad Gateway\r\ncontent-length: 0\r\n\r\n"),
        ),
    }
}

/// The `200 OK` response that carries a plain request's answer, with its length
/// in bytes.
pub open spec fn ok_response_text(body: Seq<char>, body_bytes: nat) -> Seq<char> {
    "HTTP/1.1 200 OK\r\ncontent-length: "@ + decimal_digits(body_bytes) + "\r\n\r\n"@ + body
}

/// The `200 OK` response for a plain request's answer.
pub fn http_ok_response(body: &str) -> (r: String)
    ensures
        r@ == ok_response_text(body@, (encode_utf8(body@).len() as usize) as nat),
{
    let mut t: Vec<char> = Vec::new();
    push_str(&mut t, "HTTP/1.1 200 OK\r\ncontent-length: ");
    push_decimal(&mut t, body.len() as u64);
    push_str(&mut t, "\r\n\r\n");
    push_str(&mut t, body);
    let r = string_from_chars(&t);
    proof {
        reveal_strlit("HTTP/1.1 200 OK\r\ncontent-length: ");
        reveal_strlit("\r\n\r\n");
        assert(r@ =~= ok_response_text(body@, (encode_utf8(body@).len() as usize) as nat));
    }
    r
}

/// The reply that opens a `CONNECT` tunnel.
pub fn http_tunnel_established() -> (r: &'static str)
    ensures
        r@ == tunnel_established_reply(),
{
    "HTTP/1.1 200 Connection Established\r\n\r\n"
}

/// The reply when the data plane cannot reach the target.
pub fn http_bad_gateway() -> (r: &'static str)
    ensures
        r@ == bad_gateway_reply(),
{
    "HTTP/1.1 502 Bad Gateway\r\ncontent-length: 0\r\n\r\n"
}

/// Whether `\r\n\r\n` starts at position `i`.
pub open spec fn blank_line_at(b: Seq<u8>, i: int) -> bool {
    0 <= i && i + 4 <= b.len() && b[i] == 13 && b[i + 1] == 10 && b[i + 2] == 13 && b[i + 3] == 10
}

/// Whether the bytes read so far hold the blank line that ends HTTP headers.
pub fn has_header_terminator(bytes: &[u8]) -> (r: bool)
    ensures
        r == exists|i: int| blank_line_at(bytes@, i),
{
    if bytes.len() < 4 {
        assert forall|j: int| !blank_line_at(bytes@, j) by {}
        return false;
    }
    let mut i: usize = 0;
    while i <= bytes.len() - 4
        invariant
            bytes@.len() >= 4,
            forall|j: int| 0 <= j < i ==> !blank_line_at(bytes@, j),
        decreases bytes.len() - i,
    {
        if bytes[i] == 13 && bytes[i + 1] == 10 && bytes[i + 2] == 13 && bytes[i + 3] == 10 {
            assert(blank_line_at(bytes@, i as int));
            return true;
        }
        i = i + 1;
    }
    assert forall|j: int| !blank_line_at(bytes@, j) by {
        if blank_line_at(bytes@, j) {
            assert(j < i);
        }
    }
    false
}

/// Where a SOCKS5 session stands.
#[derive(Debug, Clone, Copy, PartialEq, Eq, Structural)]
pub enum Socks5Phase {
    Version,
    MethodCount,
    Methods,
    AuthVersion,
    UsernameLength,
    Username,
    PasswordLength,
    Password,
    Request,
    HostV4,
    HostLength,
    HostName,
    Port,
    Resolving,
    Connecting,
    OpeningUdp,
    Relaying,
    Done,
}

/// What a SOCKS5 session needs next, once its reply bytes are written.
pub enum Socks5Next {
    /// Read exactly this many bytes and hand them to `receive`.
    Read(usize),
    /// Resolve the request with `resolve`.
    Resolve,
    /// Connect to the target through the data plane and report with
    /// `tcp_connected`.
    ConnectTcp(DataPlaneTarget),
    /// Bind a local UDP relay and open a UDP session on this instance, then
    /// report with `udp_opened`.
    OpenUdp(String),
    /// Relay the TCP stream, then call `finish`.
    RelayTcp,
    /// Relay datagrams until the client closes, then call `finish`.
    RelayUdp,
    /// Close the connection.
    Close,
    /// Drop the connection as a protocol error.
    Fail,
}

/// The reply bytes to write and what comes next.
pub struct Socks5Action {
    pub reply: Vec<u8>,
    pub next: Socks5Next,
}

/// How the UDP side of an association came up.
#[derive(Debug, Clone, Copy, PartialEq, Eq, Structural)]
pub enum UdpSetup {
    /// The local relay socket could not be bound.
    RelayBindFailed,
    /// The data plane refused the UDP session.
    SessionFailed,
    /// The relay listens on this local port.
    Ready(u16),
}

/// One SOCKS5 connection's protocol state.
pub struct Socks5Session {
    phase: Socks5Phase,
    expected: usize,
    method: u8,
    username: Vec<u8>,
    credentials: ProxyCredentials,
    command: u8,
    host: String,
    port: u16,
    lease: Option<ConnectionLease>,
}

/// What comes next, as values.
pub enum SpecNext {
    Read(nat),
    Resolve,
    ConnectTcp(Seq<char>, Seq<char>, u16),
    OpenUdp(Seq<char>),
    RelayTcp,
    RelayUdp,
    Close,
    Fail,
}

/// What comes next, as values.
pub open spec fn next_view(n: Socks5Next) -> SpecNext {
    match n {
        Socks5Next::Read(k) => SpecNext::Read(k as nat),
        Socks5Next::Resolve => SpecNext::Resolve,
        Socks5Next::ConnectTcp(t) => SpecNext::ConnectTcp(t.instance_id@, t.host@, t.port),
        Socks5Next::OpenUdp(id) => SpecNext::OpenUdp(id@),
        Socks5Next::RelayTcp => SpecNext::RelayTcp,
        Socks5Next::RelayUdp => SpecNext::RelayUdp,
        Socks5Next::Close => SpecNext::Close,
        Socks5Next::Fail => SpecNext::Fail,
    }
}

/// A phase that waits for bytes.
pub open spec fn reading_phase(p: Socks5Phase) -> bool {
    !(p is Resolving || p is Connecting || p is OpeningUdp || p is Relaying || p is Done)
}

/// The reply to a refused or failed request: version 5, a reply code, and an
/// empty IPv4 address and port.
pub open spec fn socks5_failure_reply(code: u8) -> Seq<u8> {
    seq![5u8, code, 0u8, 1u8, 0u8, 0u8, 0u8, 0u8, 0u8, 0u8]
}

/// The reply that grants a connection bound on `127.0.0.1:port`.
pub open spec fn socks5_success_reply(port: u16) -> Seq<u8> {
    seq![5u8, 0u8, 0u8, 1u8, 127u8, 0u8, 0u8, 1u8, (port / 256) as u8, (port % 256) as u8]
}

/// One step of the SOCKS5 handshake on the bytes a reading phase asked for: the
/// next phase, the reply bytes and what comes next. The method offered is
/// username/password (`0x02`) when a shared secret is required, else no
/// authentication (`0x00`); a client that does not offer it is refused with
/// `0xff`; only CONNECT (`0x01`) and UDP ASSOCIATE (`0x03`) are served, to IPv4
/// or domain-name targets.
pub open spec fn socks5_step(phase: Socks5Phase, b: Seq<u8>, password_required: bool) -> (
    Socks5Phase,
    Seq<u8>,
    SpecNext,
) {
    let method: u8 = if password_required {
        2
    } else {
        0
    };
    match phase {
        Socks5Phase::Version => if b[0] != 5 {
            (Socks5Phase::Done, seq![], SpecNext::Fail)
        } else {
            (Socks5Phase::MethodCount, seq![], SpecNext::Read(1))
        },
        Socks5Phase::MethodCount => (Socks5Phase::Methods, seq![], SpecNext::Read(b[0] as nat)),
        Socks5Phase::Methods => if !b.contains(method) {
            (Socks5Phase::Done, seq![5u8, 0xffu8], SpecNext::Close)
        } else if method == 2 {
            (Socks5Phase::AuthVersion, seq![5u8, 2u8], SpecNext::Read(1))
        } else {
            (Socks5Phase::Request, seq![5u8, 0u8], SpecNext::Read(4))
        },
        Socks5Phase::AuthVersion => if b[0] != 1 {
            (Socks5Phase::Done, seq![], SpecNext::Fail)
        } else {
            (Socks5Phase::UsernameLength, seq![], SpecNext::Read(1))
        },
        Socks5Phase::UsernameLength => (Socks5Phase::Username, seq![], SpecNext::Read(b[0] as nat)),
        Socks5Phase::Username => (Socks5Phase::PasswordLength, seq![], SpecNext::Read(1)),
        Socks5Phase::PasswordLength => (Socks5Phase::Password, seq![], SpecNext::Read(b[0] as nat)),
        Socks5Phase::Request => if b[0] != 5 || !(b[1] == 1 || b[1] == 3) {
            (Socks5Phase::Done, socks5_failure_reply(7), SpecNext::Close)
        } else if b[3] == 1 {
            (Socks5Phase::HostV4, seq![], SpecNext::Read(4))
        } else if b[3] == 3 {
            (Socks5Phase::HostLength, seq![], SpecNext::Read(1))
        } else {
            (Socks5Phase::Done, seq![], SpecNext::Fail)
        },
        Socks5Phase::HostV4 => (Socks5Phase::Port, seq![], SpecNext::Read(2)),
        Socks5Phase::HostLength => (Socks5Phase::HostName, seq![], SpecNext::Read(b[0] as nat)),
        Socks5Phase::HostName => if valid_utf8(b) {
            (Socks5Phase::Port, seq![], SpecNext::Read(2))
        } else {
            (Socks5Phase::Done, seq![], SpecNext::Fail)
        },
        Socks5Phase::Port => (Socks5Phase::Resolving, seq![], SpecNext::Resolve),
        _ => (phase, seq![], SpecNext::Fail),
    }
}

impl Socks5Session {
    /// Where the session stands.
    pub closed spec fn spec_phase(self) -> Socks5Phase {
        self.phase
    }

    /// How many bytes the session asked for.
    pub closed spec fn spec_expected(self) -> nat {
        self.expected as nat
    }

    /// The session asked for as many bytes as its phase reads.
    pub closed spec fn wf(self) -> bool {
        match self.phase {
            Socks5Phase::Version => self.expected == 1,
            Socks5Phase::MethodCount => self.expected == 1,
            Socks5Phase::AuthVersion => self.expected == 1,
            Socks5Phase::UsernameLength => self.expected == 1,
            Socks5Phase::PasswordLength => self.expected == 1,
            Socks5Phase::HostLength => self.expected == 1,
            Socks5Phase::Request => self.expected == 4,
            Socks5Phase::HostV4 => self.expected == 4,
            Socks5Phase::Port => self.expected == 2,
            _ => true,
        }
    }

    /// The credentials the client presented (empty without authentication).
    pub closed spec fn spec_credentials(self) -> (Seq<char>, Seq<char>) {
        (self.credentials.username@, self.credentials.password@)
    }

    /// The username bytes the client sent.
    pub closed spec fn spec_username(self) -> Seq<u8> {
        self.username@
    }

    /// The requested command.
    pub closed spec fn spec_command(self) -> u8 {
        self.command
    }

    /// The requested target host.
    pub closed spec fn spec_host(self) -> Seq<char> {
        self.host@
    }

    /// The requested target port.
    pub closed spec fn spec_port(self) -> u16 {
        self.port
    }

    /// The lease the session holds.
    pub closed spec fn spec_lease(self) -> Option<ConnectionLease> {
        self.lease
    }

    /// A new session, waiting for the client's version byte.
    pub fn new() -> (r: (Self, Socks5Action))
        ensures
            r.0.spec_phase() == Socks5Phase::Version,
            r.0.spec_expected() == 1,
            r.0.wf(),
            r.0.spec_lease() is None,
            r.1.reply@ == Seq::<u8>::empty(),
            next_view(r.1.next) == SpecNext::Read(1),
    {
        (
            Socks5Session {
                phase: Socks5Phase::Version,
                expected: 1,
                method: 0,
                username: Vec::new(),
                credentials: ProxyCredentials::new("", ""),
                command: 0,
                host: String::new(),
                port: 0,
                lease: None,
            },
            Socks5Action { reply: Vec::new(), next: Socks5Next::Read(1) },
        )
    }

    /// Takes the bytes a reading phase asked for and advances the handshake as
    /// `socks5_step` says; the password phase also answers `[1, 0]` and keeps
    /// the credentials (both must be UTF-8), the request phase keeps the
    /// command, the host phases keep the host (IPv4 as dotted decimal) and the
    /// port phase keeps the big-endian port.
    pub fn receive(&mut self, bytes: &[u8], auth: &AuthConfig) -> (r: Socks5Action)
        requires
            old(self).wf(),
            reading_phase(old(self).spec_phase()),
            bytes@.len() == old(self).spec_expected(),
        ensures
            final(self).wf(),
            old(self).spec_phase() != Socks5Phase::Password ==> {
                let (phase, reply, next) = socks5_step(
                    old(self).spec_phase(),
                    bytes@,
                    auth.spec_secret() is Some,
                );
                &&& final(self).spec_phase() == phase
                &&& r.reply@ == reply
                &&& next_view(r.next) == next
            },
            old(self).spec_phase() == Socks5Phase::Password ==> {
                &&& r.reply@ == seq![1u8, 0u8]
                &&& final(self).spec_phase() == Socks5Phase::Request ==> next_view(r.next)
                    == SpecNext::Read(4)
                &&& final(self).spec_phase() != Socks5Phase::Request ==> (final(self).spec_phase()
                    == Socks5Phase::Done && next_view(r.next) == SpecNext::Fail)
            },
            r.next matches Socks5Next::Read(k) ==> final(self).spec_expected() == k,
            reading_phase(final(self).spec_phase()) ==> r.next is Read,
            final(self).spec_lease() == old(self).spec_lease(),
            old(self).spec_phase() == Socks5Phase::Methods && !(auth.spec_secret() is Some)
                && final(self).spec_phase() == Socks5Phase::Request ==> final(self).spec_credentials()
                == (Seq::<char>::empty(), Seq::<char>::empty()),
            final(self).spec_phase() == Socks5Phase::Resolving ==> final(self).spec_port()
                == be_port(bytes@[0], bytes@[1]),
            old(self).spec_phase() == Socks5Phase::Username ==> final(self).spec_username() == bytes@,
            old(self).spec_phase() != Socks5Phase::Username ==> final(self).spec_username() == old(
                self,
            ).spec_username(),
            old(self).spec_phase() == Socks5Phase::Password && final(self).spec_phase()
                == Socks5Phase::Request ==> final(self).spec_credentials() == (
                decode_utf8(old(self).spec_username()),
                decode_utf8(bytes@),
            ),
            old(self).spec_phase() == Socks5Phase::Password ==> (final(self).spec_phase()
                == Socks5Phase::Request <==> valid_utf8(old(self).spec_username()) && valid_utf8(
                bytes@,
            )),
            old(self).spec_phase() == Socks5Phase::Request && (final(self).spec_phase()
                == Socks5Phase::HostV4 || final(self).spec_phase() == Socks5Phase::HostLength)
                ==> final(self).spec_command() == bytes@[1],
            old(self).spec_phase() == Socks5Phase::HostV4 ==> final(self).spec_host() == ipv4_text(
                bytes@[0],
                bytes@[1],
                bytes@[2],
                bytes@[3],
            ),
            old(self).spec_phase() == Socks5Phase::HostName && final(self).spec_phase()
                == Socks5Phase::Port ==> final(self).spec_host() == decode_utf8(bytes@),
            old(self).spec_phase() != Socks5Phase::Request ==> final(self).spec_command() == old(
                self,
            ).spec_command(),
            !(old(self).spec_phase() == Socks5Phase::HostV4 || old(self).spec_phase()
                == Socks5Phase::HostName) ==> final(self).spec_host() == old(self).spec_host(),
            !(old(self).spec_phase() == Socks5Phase::Password || old(self).spec_phase()
                == Socks5Phase::Methods) ==> final(self).spec_credentials() == old(
                self,
            ).spec_credentials(),
            old(self).spec_phase() != Socks5Phase::Port ==> final(self).spec_port() == old(
                self,
            ).spec_port(),
    {
        let password_required = auth.requires_password();
        let method: u8 = if password_required {
            2
        } else {
            0
        };
        let (phase, reply, next): (Socks5Phase, Vec<u8>, Socks5Next) = match self.phase {
            Socks5Phase::Version => if bytes[0] != 5 {
                (Socks5Phase::Done, Vec::new(), Socks5Next::Fail)
            } else {
                (Socks5Phase::MethodCount, Vec::new(), Socks5Next::Read(1))
            },
            Socks5Phase::MethodCount => (Socks5Phase::Methods, Vec::new(), Socks5Next::Read(bytes[0] as usize)),
            Socks5Phase::Methods => {
                let mut offered = false;
                let mut i: usize = 0;
                while i < bytes.len()
                    invariant
                        i <= bytes@.len(),
                        offered == exists|k: int| 0 <= k < i && bytes@[k] == method,
                    decreases bytes.len() - i,
                {
                    if bytes[i] == method {
                        offered = true;
                    }
                    i = i + 1;
                }
                proof {
                    if offered {
                        let k = choose|k: int| 0 <= k < bytes@.len() && bytes@[k] == method;
                        assert(bytes@.contains(method));
                    }
                }
                if !offered {
                    (Socks5Phase::Done, vec![5u8, 0xffu8], Socks5Next::Close)
                } else if method == 2 {
                    (Socks5Phase::AuthVersion, vec![5u8, 2u8], Socks5Next::Read(1))
                } else {
                    self.credentials = ProxyCredentials::new("", "");
                    proof {
                        reveal_strlit("");
                        assert(""@ =~= Seq::<char>::empty());
                    }
                    (Socks5Phase::Request, vec![5u8, 0u8], Socks5Next::Read(4))
                }
            },
            Socks5Phase::AuthVersion => if bytes[0] != 1 {
                (Socks5Phase::Done, Vec::new(), Socks5Next::Fail)
            } else {
                (Socks5Phase::UsernameLength, Vec::new(), Socks5Next::Read(1))
            },
            Socks5Phase::UsernameLength => (Socks5Phase::Username, Vec::new(), Socks5Next::Read(bytes[0] as usize)),
            Socks5Phase::Username => {
                self.username = copy_bytes(bytes, 0);
                (Socks5Phase::PasswordLength, Vec::new(), Socks5Next::Read(1))
            },
            Socks5Phase::PasswordLength => (Socks5Phase::Password, Vec::new(), Socks5Next::Read(bytes[0] as usize)),
            Socks5Phase::Password => {
                let username = utf8_text(self.username.as_slice());
                let password = utf8_text(bytes);
                match (username, password) {
                    (Some(u), Some(p)) => {
                        self.credentials = ProxyCredentials::new(u.as_str(), p.as_str());
                        (Socks5Phase::Request, vec![1u8, 0u8], Socks5Next::Read(4))
                    },
                    _ => (Socks5Phase::Done, vec![1u8, 0u8], Socks5Next::Fail),
                }
            },
            Socks5Phase::Request => {
                if bytes[0] != 5 || !(bytes[1] == 1 || bytes[1] == 3) {
                    (Socks5Phase::Done, vec![5u8, 7u8, 0u8, 1u8, 0u8, 0u8, 0u8, 0u8, 0u8, 0u8], Socks5Next::Close)
                } else {
                    self.command = bytes[1];
                    if bytes[3] == 1 {
                        (Socks5Phase::HostV4, Vec::new(), Socks5Next::Read(4))
                    } else if bytes[3] == 3 {
                        (Socks5Phase::HostLength, Vec::new(), Socks5Next::Read(1))
                    } else {
                        (Socks5Phase::Done, Vec::new(), Socks5Next::Fail)
                    }
                }
            },
            Socks5Phase::HostV4 => {
                self.host = ipv4_string(bytes[0], bytes[1], bytes[2], bytes[3]);
                (Socks5Phase::Port, Vec::new(), Socks5Next::Read(2))
            },
            Socks5Phase::HostLength => (Socks5Phase::HostName, Vec::new(), Socks5Next::Read(bytes[0] as usize)),
            Socks5Phase::HostName => match utf8_text(bytes) {
                Some(h) => {
                    self.host = h;
                    (Socks5Phase::Port, Vec::new(), Socks5Next::Read(2))
                },
                None => (Socks5Phase::Done, Vec::new(), Socks5Next::Fail),
            },
            Socks5Phase::Port => {
                self.port = (bytes[0] as u16) * 256 + (bytes[1] as u16);
                (Socks5Phase::Resolving, Vec::new(), Socks5Next::Resolve)
            },
            _ => (self.phase, Vec::new(), Socks5Next::Fail),
        };
        self.phase = phase;
        if let Socks5Next::Read(k) = next {
            self.expected = k;
        }
        Socks5Action { reply, next }
    }
}

impl Socks5Session {
    /// Resolves the request through Proxy Authentication and the Instance
    /// Selector: a refusal is answered with its SOCKS5 code and closes; a CONNECT
    /// then connects to the target through the leased instance, a UDP
    /// ASSOCIATE opens a UDP session on it.
    pub fn resolve(&mut self, pool: &mut ProxyPool, auth: &AuthConfig) -> (r: Socks5Action)
        requires
            old(self).spec_phase() == Socks5Phase::Resolving,
            old(self).spec_lease() is None,
            old(pool).has_headroom(),
        ensures
            final(self).wf(),
            final(pool).spec_config() == old(pool).spec_config(),
            final(self).spec_host() == old(self).spec_host(),
            final(self).spec_port() == old(self).spec_port(),
            final(self).spec_command() == old(self).spec_command(),
            exists|res: Result<int, ProxyRequestError>|
                request_resolution(
                    old(pool).spec_members(),
                    old(pool).spec_config(),
                    old(pool).spec_cursor(),
                    *auth,
                    old(self).spec_credentials().0,
                    old(self).spec_credentials().1,
                    res,
                ) && match final(self).spec_lease() {
                    Some(lease) => res == Ok::<int, ProxyRequestError>(lease.spec_slot()),
                    None => res matches Err(e) && r.reply@ == socks5_failure_reply(
                        if e is AuthenticationFailed {
                            2u8
                        } else {
                            4u8
                        },
                    ),
                },
            !auth.accepts(old(self).spec_credentials().1) ==> {
                &&& r.reply@ == socks5_failure_reply(2)
                &&& next_view(r.next) == SpecNext::Close
                &&& final(self).spec_phase() == Socks5Phase::Done
            },
            match final(self).spec_lease() {
                None => final(pool).spec_cursor() == old(pool).spec_cursor(),
                Some(lease) => final(pool).spec_cursor() == cursor_after(
                    old(pool).spec_cursor(),
                    old(self).spec_credentials().0,
                    lease.spec_slot(),
                ),
            },
            match final(self).spec_lease() {
                None => {
                    &&& final(pool).spec_members() == old(pool).spec_members()
                    &&& final(self).spec_phase() == Socks5Phase::Done
                    &&& next_view(r.next) == SpecNext::Close
                    &&& (r.reply@ == socks5_failure_reply(2) || r.reply@ == socks5_failure_reply(4))
                    &&& (r.reply@ == socks5_failure_reply(2) <==> !auth.accepts(
                        old(self).spec_credentials().1,
                    ))
                },
                Some(lease) => {
                    &&& auth.accepts(old(self).spec_credentials().1)
                    &&& route_of(old(self).spec_credentials().0) is Ok
                    &&& leased(old(pool).spec_members(), final(pool).spec_members(), lease.spec_slot())
                    &&& r.reply@ == Seq::<u8>::empty()
                    &&& old(self).spec_command() == 1 ==> {
                        &&& final(self).spec_phase() == Socks5Phase::Connecting
                        &&& next_view(r.next) == SpecNext::ConnectTcp(
                            lease.spec_instance_id(),
                            old(self).spec_host(),
                            old(self).spec_port(),
                        )
                    }
                    &&& old(self).spec_command() != 1 ==> {
                        &&& final(self).spec_phase() == Socks5Phase::OpeningUdp
                        &&& next_view(r.next) == SpecNext::OpenUdp(lease.spec_instance_id())
                    }
                },
            },
    {
        let credentials = ProxyCredentials::new(
            self.credentials.username.as_str(),
            self.credentials.password.as_str(),
        );
        let ghost members = pool.spec_members();
        let ghost pool_config = pool.spec_config();
        let ghost cursor = pool.spec_cursor();
        let ghost creds = self.spec_credentials();
        let resolved = resolve_proxy_request(pool, auth, credentials);
        let ghost witness = request_slot(resolved);
        assert(request_resolution(members, pool_config, cursor, *auth, creds.0, creds.1, witness));
        match resolved {
            Err(error) => {
                let code = socks5_error_code(error);
                self.phase = Socks5Phase::Done;
                Socks5Action {
                    reply: vec![5u8, code, 0u8, 1u8, 0u8, 0u8, 0u8, 0u8, 0u8, 0u8],
                    next: Socks5Next::Close,
                }
            },
            Ok(lease) => {
                let instance_id = lease.instance_id();
                if self.command == 1 {
                    let target = DataPlaneTarget {
                        instance_id,
                        host: crate::text::copy_string(&self.host),
                        port: self.port,
                    };
                    self.lease = Some(lease);
                    self.phase = Socks5Phase::Connecting;
                    Socks5Action { reply: Vec::new(), next: Socks5Next::ConnectTcp(target) }
                } else {
                    self.lease = Some(lease);
                    self.phase = Socks5Phase::OpeningUdp;
                    Socks5Action { reply: Vec::new(), next: Socks5Next::OpenUdp(instance_id) }
                }
            },
        }
    }

    /// Hands the held lease back to the pool, if any.
    fn release_lease(&mut self, pool: &mut ProxyPool)
        ensures
            final(self).spec_lease() is None,
            final(self).spec_phase() == old(self).spec_phase(),
            final(self).spec_expected() == old(self).spec_expected(),
            final(pool).spec_config() == old(pool).spec_config(),
            match old(self).spec_lease() {
                Some(lease) => released(old(pool).spec_members(), final(pool).spec_members(), lease.spec_slot()),
                None => final(pool).spec_members() == old(pool).spec_members(),
            },
    {
        let mut held: Option<ConnectionLease> = None;
        std::mem::swap(&mut held, &mut self.lease);
        if let Some(lease) = held {
            pool.release(lease);
        }
    }

    /// Reports whether the data plane connected to the target: connected
    /// grants the request on `127.0.0.1:0` and relays; otherwise the request
    /// fails with `0x05` and the lease is handed back.
    pub fn tcp_connected(&mut self, connected: bool, pool: &mut ProxyPool) -> (r: Socks5Action)
        requires
            old(self).spec_phase() == Socks5Phase::Connecting,
        ensures
            final(self).wf(),
            final(pool).spec_config() == old(pool).spec_config(),
            connected ==> {
                &&& r.reply@ == socks5_success_reply(0)
                &&& next_view(r.next) == SpecNext::RelayTcp
                &&& final(self).spec_phase() == Socks5Phase::Relaying
                &&& final(self).spec_lease() == old(self).spec_lease()
                &&& final(pool).spec_members() == old(pool).spec_members()
            },
            !connected ==> {
                &&& r.reply@ == socks5_failure_reply(5)
                &&& next_view(r.next) == SpecNext::Close
                &&& final(self).spec_phase() == Socks5Phase::Done
                &&& final(self).spec_lease() is None
                &&& old(self).spec_lease() matches Some(lease) ==> released(
                    old(pool).spec_members(),
                    final(pool).spec_members(),
                    lease.spec_slot(),
                )
            },
    {
        if connected {
            self.phase = Socks5Phase::Relaying;
            Socks5Action {
                reply: vec![5u8, 0u8, 0u8, 1u8, 127u8, 0u8, 0u8, 1u8, 0u8, 0u8],
                next: Socks5Next::RelayTcp,
            }
        } else {
            self.release_lease(pool);
            self.phase = Socks5Phase::Done;
            Socks5Action {
                reply: vec![5u8, 5u8, 0u8, 1u8, 0u8, 0u8, 0u8, 0u8, 0u8, 0u8],
                next: Socks5Next::Close,
            }
        }
    }

    /// Reports how the UDP side came up: a relay on a local port grants the
    /// association with that port and relays; a refused session fails the
    /// request with `0x05`; a relay that could not be bound drops the
    /// connection. Either failure hands the lease back.
    pub fn udp_opened(&mut self, setup: UdpSetup, pool: &mut ProxyPool) -> (r: Socks5Action)
        requires
            old(self).spec_phase() == Socks5Phase::OpeningUdp,
        ensures
            final(self).wf(),
            final(pool).spec_config() == old(pool).spec_config(),
            setup matches UdpSetup::Ready(port) ==> {
                &&& r.reply@ == socks5_success_reply(port)
                &&& next_view(r.next) == SpecNext::RelayUdp
                &&& final(self).spec_phase() == Socks5Phase::Relaying
                &&& final(self).spec_lease() == old(self).spec_lease()
                &&& final(pool).spec_members() == old(pool).spec_members()
            },
            !(setup is Ready) ==> {
                &&& final(self).spec_phase() == Socks5Phase::Done
                &&& final(self).spec_lease() is None
                &&& setup is SessionFailed ==> r.reply@ == socks5_failure_reply(5) && next_view(
                    r.next,
                ) == SpecNext::Close
                &&& setup is RelayBindFailed ==> r.reply@ == Seq::<u8>::empty() && next_view(
                    r.next,
                ) == SpecNext::Fail
                &&& old(self).spec_lease() matches Some(lease) ==> released(
                    old(pool).spec_members(),
                    final(pool).spec_members(),
                    lease.spec_slot(),
                )
            },
    {
        match setup {
            UdpSetup::Ready(port) => {
                self.phase = Socks5Phase::Relaying;
                let hi: u8 = (port / 256) as u8;
                let lo: u8 = (port % 256) as u8;
                Socks5Action {
                    reply: vec![5u8, 0u8, 0u8, 1u8, 127u8, 0u8, 0u8, 1u8, hi, lo],
                    next: Socks5Next::RelayUdp,
                }
            },
            UdpSetup::SessionFailed => {
                self.release_lease(pool);
                self.phase = Socks5Phase::Done;
                Socks5Action {
                    reply: vec![5u8, 5u8, 0u8, 1u8, 0u8, 0u8, 0u8, 0u8, 0u8, 0u8],
                    next: Socks5Next::Close,
                }
            },
            UdpSetup::RelayBindFailed => {
                self.release_lease(pool);
                self.phase = Socks5Phase::Done;
                Socks5Action { reply: Vec::new(), next: Socks5Next::Fail }
            },
        }
    }

    /// Ends the session, whatever its phase: the held lease, if any, is handed
    /// back to the pool.
    pub fn finish(&mut self, pool: &mut ProxyPool)
        ensures
            final(self).spec_phase() == Socks5Phase::Done,
            final(self).spec_lease() is None,
            final(pool).spec_config() == old(pool).spec_config(),
            match old(self).spec_lease() {
                Some(lease) => released(old(pool).spec_members(), final(pool).spec_members(), lease.spec_slot()),
                None => final(pool).spec_members() == old(pool).spec_members(),
            },
    {
        self.release_lease(pool);
        self.phase = Socks5Phase::Done;
    }
}

/// A text without the separator is one piece.
proof fn lemma_split_whole(a: Seq<char>, sep: char)
    requires
        forall|j: int| 0 <= j < a.len() ==> a[j] != sep,
    ensures
        split_on(a, sep) == seq![a],
    decreases a.len(),
{
    if a.len() > 0 {
        lemma_split_whole(a.drop_last(), sep);
        assert(a.drop_last().push(a.last()) =~= a);
    } else {
        assert(a =~= seq![]);
    }
}

/// The first piece of a text is everything before its first separator.
proof fn lemma_split_first(a: Seq<char>, t: Seq<char>, sep: char)
    requires
        forall|j: int| 0 <= j < a.len() ==> a[j] != sep,
        t.len() == 0 || t[0] == sep,
    ensures
        split_on(a + t, sep).len() >= 1,
        split_on(a + t, sep)[0] == a,
        t.len() > 0 ==> split_on(a + t, sep).len() >= 2,
    decreases t.len(),
{
    if t.len() == 0 {
        assert(a + t =~= a);
        lemma_split_whole(a, sep);
    } else {
        let s = a + t;
        let shorter = t.drop_last();
        assert(s.drop_last() =~= a + shorter);
        if shorter.len() > 0 {
            assert(shorter[0] == t[0]);
        }
        lemma_split_first(a, shorter, sep);
        assert(s.last() == t.last());
        if t.len() == 1 {
            assert(t.last() == sep);
        }
    }
}

/// The last `:` of a host, a `:` and digits is the one before the digits.
proof fn lemma_last_colon(host: Seq<char>, digits: Seq<char>)
    requires
        forall|j: int| 0 <= j < digits.len() ==> digits[j] != ':',
    ensures
        last_index_of(host + seq![':'] + digits, ':') == Some(host.len() as int),
        (host + seq![':'] + digits).take(host.len() as int) == host,
        (host + seq![':'] + digits).skip(host.len() as int + 1) == digits,
{
    let u = host + seq![':'] + digits;
    let n = host.len() as int;
    assert(u[n] == ':');
    assert forall|j: int| n < j < u.len() implies u[j] != ':' by {
        assert(u[j] == digits[j - n - 1]);
    }
    let i = choose|i: int|
        0 <= i < u.len() && u[i] == ':' && forall|j: int| i < j < u.len() ==> u[j] != ':';
    assert(i == n);
    assert(u.take(n) =~= host);
    assert(u.skip(n + 1) =~= digits);
}

/// The decimal digits of a number are ASCII digits, and reading them back gives
/// the number when it is within the bound.
proof fn lemma_digits_read_back(n: nat, max: nat)
    requires
        n <= max,
    ensures
        decimal_digits(n).len() > 0,
        forall|j: int| 0 <= j < decimal_digits(n).len() ==> '0' <= #[trigger] decimal_digits(n)[j] <= '9',
        digits_result(decimal_digits(n), max) == Ok::<nat, IntErrorKind>(n),
    decreases n,
{
    let d = decimal_digits(n);
    if n < 10 {
        let c = (('0' as u32) + n) as char;
        assert(d == seq![c]);
        assert(d.drop_last() =~= Seq::<char>::empty());
        assert(digit_value(c) == n);
        assert(digits_result(d.drop_last(), max) == Ok::<nat, IntErrorKind>(0));
        assert(d.last() == c);
        assert('0' <= c && c <= '9');
    } else {
        lemma_digits_read_back(n / 10, max);
        let c = (('0' as u32) + (n % 10)) as char;
        assert(d == decimal_digits(n / 10).push(c));
        assert(d.drop_last() =~= decimal_digits(n / 10));
        assert(digit_value(c) == n % 10);
        assert((n / 10) * 10 + n % 10 == n);
        assert(digits_result(d.drop_last(), max) == Ok::<nat, IntErrorKind>(n / 10));
        assert(d.last() == c);
        assert('0' <= c && c <= '9');
        assert forall|j: int| 0 <= j < d.len() implies '0' <= #[trigger] d[j] <= '9' by {
            if j < d.len() - 1 {
                assert(d[j] == decimal_digits(n / 10)[j]);
            }
        }
    }
}

/// A port written in decimal reads back as that port.
proof fn lemma_port_read_back(port: u16)
    ensures
        uint_result(decimal_digits(port as nat), 65535) == Ok::<nat, IntErrorKind>(port as nat),
        forall|j: int|
            0 <= j < decimal_digits(port as nat).len() ==> #[trigger] decimal_digits(port as nat)[j]
                != ':' && decimal_digits(port as nat)[j] != '/',
{
    let d = decimal_digits(port as nat);
    lemma_digits_read_back(port as nat, 65535);
    assert('0' <= d[0] <= '9');
    assert(d != seq!['+']);
    assert(without_plus(d) == d);
}

/// The target of a request whose line is not a `CONNECT` and names an absolute
/// `http://` URI is read from the URI's authority.
proof fn lemma_absolute_branch(request: Seq<char>, authority: Seq<char>, tail: Seq<char>)
    requires
        lines_of(request).len() > 0,
        ws_tokens(lines_of(request)[0]).len() >= 2,
        ascii_lower_seq(ws_tokens(lines_of(request)[0])[0]) != "connect"@,
        ws_tokens(lines_of(request)[0])[1] == "http://"@ + authority + tail,
        forall|j: int| 0 <= j < authority.len() ==> authority[j] != '/',
        tail.len() == 0 || tail[0] == '/',
    ensures
        http_target_of(request) == host_port_of(authority, 80),
{
    reveal_strlit("http://");
    let uri = ws_tokens(lines_of(request)[0])[1];
    assert(uri =~= "http://"@ + (authority + tail));
    assert(uri.take(7) =~= "http://"@);
    assert(has_prefix(uri, "http://"@));
    assert(uri.skip(7) =~= authority + tail);
    lemma_split_first(authority, tail, '/');
    assert(split_on(uri.skip(7), '/')[0] == authority);
}

/// An authority `host:port` reads as that host and port.
proof fn lemma_host_and_port(host: Seq<char>, port: u16, default_port: u16)
    requires
        forall|j: int| 0 <= j < host.len() ==> host[j] != ':',
    ensures
        host_port_of(host + seq![':'] + decimal_digits(port as nat), default_port) == Some(
            (host, port),
        ),
{
    let d = decimal_digits(port as nat);
    lemma_port_read_back(port);
    lemma_last_colon(host, d);
    let a = host + seq![':'] + d;
    assert(last_index_of(a, ':') == Some(host.len() as int));
    assert(uint_result(a.skip(host.len() as int + 1), 65535) == Ok::<nat, IntErrorKind>(
        port as nat,
    ));
}

/// The host and port of an absolute `http://` request line: a target
/// `http://host:port/...` (or with nothing after the port) names that host and
/// port, whatever the rest of the request holds.
pub proof fn law_absolute_uri_target_keeps_port(
    request: Seq<char>,
    host: Seq<char>,
    port: u16,
    tail: Seq<char>,
)
    requires
        lines_of(request).len() > 0,
        ws_tokens(lines_of(request)[0]).len() >= 2,
        ascii_lower_seq(ws_tokens(lines_of(request)[0])[0]) != "connect"@,
        ws_tokens(lines_of(request)[0])[1] == "http://"@ + host + seq![':'] + decimal_digits(
            port as nat,
        ) + tail,
        forall|j: int| 0 <= j < host.len() ==> host[j] != ':' && host[j] != '/',
        tail.len() == 0 || tail[0] == '/',
    ensures
        http_target_of(request) == Some((host, port)),
{
    let d = decimal_digits(port as nat);
    lemma_port_read_back(port);
    let authority = host + seq![':'] + d;
    assert(ws_tokens(lines_of(request)[0])[1] =~= "http://"@ + authority + tail);
    assert forall|j: int| 0 <= j < authority.len() implies authority[j] != '/' by {
        if j < host.len() {
            assert(authority[j] == host[j]);
        } else if j > host.len() {
            assert(authority[j] == d[j - host.len() - 1]);
        }
    }
    lemma_absolute_branch(request, authority, tail);
    lemma_host_and_port(host, port, 80);
}

/// The default port of an absolute `http://` request line: a target
/// `http://host/...` whose authority has no `:` names that host and port 80.
pub proof fn law_absolute_uri_target_default_port(request: Seq<char>, host: Seq<char>, tail: Seq<char>)
    requires
        lines_of(request).len() > 0,
        ws_tokens(lines_of(request)[0]).len() >= 2,
        ascii_lower_seq(ws_tokens(lines_of(request)[0])[0]) != "connect"@,
        ws_tokens(lines_of(request)[0])[1] == "http://"@ + host + tail,
        forall|j: int| 0 <= j < host.len() ==> host[j] != ':' && host[j] != '/',
        tail.len() == 0 || tail[0] == '/',
    ensures
        http_target_of(request) == Some((host, 80u16)),
{
    lemma_absolute_branch(request, host, tail);
    assert(!(exists|i: int| 0 <= i < host.len() && host[i] == ':'));
}

/// A text without white space.
pub open spec fn no_ws(s: Seq<char>) -> bool {
    forall|j: int| 0 <= j < s.len() ==> !is_ws(#[trigger] s[j])
}

proof fn lemma_ws_single(w: Seq<char>)
    requires
        w.len() > 0,
        no_ws(w),
    ensures
        ws_tokens(w) == seq![w],
    decreases w.len(),
{
    assert(!is_ws(w[w.len() - 1]));
    if w.len() == 1 {
        assert(w.drop_last() =~= Seq::<char>::empty());
        assert(ws_tokens(w.drop_last()) =~= Seq::<Seq<char>>::empty());
        assert(w =~= seq![w[0]]);
        assert(ws_tokens(w) =~= Seq::<Seq<char>>::empty().push(seq![w[0]]));
    } else {
        lemma_ws_single(w.drop_last());
        assert(!is_ws(w[w.len() - 2]));
        assert(w.drop_last().push(w.last()) =~= w);
        assert(seq![w.drop_last()].update(0, w.drop_last().push(w.last())) =~= seq![w]);
    }
}

proof fn lemma_ws_append(s: Seq<char>, w: Seq<char>)
    requires
        w.len() > 0,
        no_ws(w),
    ensures
        ws_tokens(s + seq![' '] + w) == ws_tokens(s).push(w),
    decreases w.len(),
{
    let x = s + seq![' '] + w;
    if w.len() == 1 {
        assert(x.drop_last() =~= s + seq![' ']);
        assert((s + seq![' ']).drop_last() =~= s);
        assert(ws_tokens(s + seq![' ']) == ws_tokens(s));
        assert(x[x.len() - 2] == ' ');
        assert(w =~= seq![w[0]]);
    } else {
        assert(x.drop_last() =~= s + seq![' '] + w.drop_last());
        lemma_ws_append(s, w.drop_last());
        assert(x[x.len() - 2] == w[w.len() - 2]);
        assert(w.drop_last().push(w.last()) =~= w);
        assert(ws_tokens(s).push(w.drop_last()).update(
            ws_tokens(s).len() as int,
            w.drop_last().push(w.last()),
        ) =~= ws_tokens(s).push(w));
    }
}

/// The request line of `M U V` is the three tokens.
proof fn lemma_three_tokens(m: Seq<char>, u: Seq<char>, v: Seq<char>)
    requires
        m.len() > 0 && no_ws(m),
        u.len() > 0 && no_ws(u),
        v.len() > 0 && no_ws(v),
    ensures
        ws_tokens(m + seq![' '] + u + seq![' '] + v) == seq![m, u, v],
{
    lemma_ws_single(m);
    lemma_ws_append(m, u);
    lemma_ws_append(m + seq![' '] + u, v);
    assert(seq![m].push(u).push(v) =~= seq![m, u, v]);
}

/// The first line of `L\r\n...` is `L` when `L` has no line break.
proof fn lemma_first_line(line: Seq<char>, rest: Seq<char>)
    requires
        forall|j: int| 0 <= j < line.len() ==> line[j] != '\n',
    ensures
        lines_of(line + seq!['\r', '\n'] + rest).len() > 0,
        lines_of(line + seq!['\r', '\n'] + rest)[0] == line,
{
    let a = line.push('\r');
    let t = seq!['\n'] + rest;
    assert(line + seq!['\r', '\n'] + rest =~= a + t);
    assert forall|j: int| 0 <= j < a.len() implies a[j] != '\n' by {
        if j < line.len() {
            assert(a[j] == line[j]);
        }
    }
    lemma_split_first(a, t, '\n');
    assert(a.drop_last() =~= line);
}

/// A request line `M http://host:port/... V` followed by a line break and
/// anything names `host` and `port` as its target, for every method other than
/// `CONNECT`, every host without `:`, `/` or white space, and every port.
pub proof fn law_absolute_uri_request_keeps_port(
    method: Seq<char>,
    host: Seq<char>,
    port: u16,
    path: Seq<char>,
    version: Seq<char>,
    rest: Seq<char>,
)
    requires
        method.len() > 0 && no_ws(method),
        ascii_lower_seq(method) != "connect"@,
        no_ws(host),
        forall|j: int| 0 <= j < host.len() ==> host[j] != ':' && host[j] != '/',
        no_ws(path),
        path.len() == 0 || path[0] == '/',
        version.len() > 0 && no_ws(version),
    ensures
        http_target_of(
            method + " http://"@ + host + ":"@ + decimal_digits(port as nat) + path + " "@ + version
                + "\r\n"@ + rest,
        ) == Some((host, port)),
{
    reveal_strlit(" http://");
    reveal_strlit("http://");
    reveal_strlit(":");
    reveal_strlit(" ");
    reveal_strlit("\r\n");
    let d = decimal_digits(port as nat);
    lemma_digits_read_back(port as nat, 65535);
    let uri = "http://"@ + host + seq![':'] + d + path;
    assert forall|j: int| 0 <= j < uri.len() implies !is_ws(#[trigger] uri[j]) by {
        if j < 7 {
        } else if j < 7 + host.len() {
            assert(uri[j] == host[j - 7]);
        } else if j == 7 + host.len() {
        } else if j < 8 + host.len() + d.len() {
            assert(uri[j] == d[j - 8 - host.len()]);
        } else {
            assert(uri[j] == path[j - 8 - host.len() - d.len()]);
        }
    }
    let line = method + seq![' '] + uri + seq![' '] + version;
    assert forall|j: int| 0 <= j < line.len() implies line[j] != '\n' by {
        if j < method.len() {
            assert(line[j] == method[j]);
            assert(!is_ws(method[j]));
        } else if j == method.len() {
        } else if j < method.len() + 1 + uri.len() {
            assert(line[j] == uri[j - method.len() - 1]);
            assert(!is_ws(uri[j - method.len() - 1]));
        } else if j == method.len() + 1 + uri.len() {
        } else {
            assert(line[j] == version[j - method.len() - 2 - uri.len()]);
            assert(!is_ws(version[j - method.len() - 2 - uri.len()]));
        }
    }
    let request = method + " http://"@ + host + ":"@ + d + path + " "@ + version + "\r\n"@ + rest;
    assert(request =~= line + seq!['\r', '\n'] + rest);
    lemma_first_line(line, rest);
    lemma_three_tokens(method, uri, version);
    assert(uri =~= "http://"@ + host + seq![':'] + d + path);
    law_absolute_uri_target_keeps_port(request, host, port, path);
}

/// A request line `M http://host/... V` whose host has no port names `host` and
/// port 80 as its target, for every method other than `CONNECT`.
pub proof fn law_absolute_uri_request_default_port(
    method: Seq<char>,
    host: Seq<char>,
    path: Seq<char>,
    version: Seq<char>,
    rest: Seq<char>,
)
    requires
        method.len() > 0 && no_ws(method),
        ascii_lower_seq(method) != "connect"@,
        host.len() > 0 && no_ws(host),
        forall|j: int| 0 <= j < host.len() ==> host[j] != ':' && host[j] != '/',
        no_ws(path),
        path.len() == 0 || path[0] == '/',
        version.len() > 0 && no_ws(version),
    ensures
        http_target_of(method + " http://"@ + host + path + " "@ + version + "\r\n"@ + rest)
            == Some((host, 80u16)),
{
    reveal_strlit(" http://");
    reveal_strlit("http://");
    reveal_strlit(" ");
    reveal_strlit("\r\n");
    let uri = "http://"@ + host + path;
    assert forall|j: int| 0 <= j < uri.len() implies !is_ws(#[trigger] uri[j]) by {
        if j < 7 {
        } else if j < 7 + host.len() {
            assert(uri[j] == host[j - 7]);
        } else {
            assert(uri[j] == path[j - 7 - host.len()]);
        }
    }
    let line = method + seq![' '] + uri + seq![' '] + version;
    assert forall|j: int| 0 <= j < line.len() implies line[j] != '\n' by {
        if j < method.len() {
            assert(line[j] == method[j]);
            assert(!is_ws(method[j]));
        } else if j == method.len() {
        } else if j < method.len() + 1 + uri.len() {
            assert(line[j] == uri[j - method.len() - 1]);
            assert(!is_ws(uri[j - method.len() - 1]));
        } else if j == method.len() + 1 + uri.len() {
        } else {
            assert(line[j] == version[j - method.len() - 2 - uri.len()]);
            assert(!is_ws(version[j - method.len() - 2 - uri.len()]));
        }
    }
    let request = method + " http://"@ + host + path + " "@ + version + "\r\n"@ + rest;
    assert(request =~= line + seq!['\r', '\n'] + rest);
    lemma_first_line(line, rest);
    lemma_three_tokens(method, uri, version);
    law_absolute_uri_target_default_port(request, host, path);
}

} // verus!
