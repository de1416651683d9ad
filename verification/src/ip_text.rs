//! Textual IP addresses as `std::net::IpAddr`'s parser accepts them: dotted
//! decimal IPv4 without leading zeros, and IPv6 groups of one to four hex digits
//! with at most one `::` and an optional dotted IPv4 tail.
use vstd::prelude::*;

use crate::config::IpAddress;
use crate::text::{all_digits, decimal_value};

verus! {

/// The pieces of `s` between the occurrences of `sep`, as `str::split` gives
/// them (an empty text is one empty piece).
pub open spec fn split_on(s: Seq<char>, sep: char) -> Seq<Seq<char>>
    decreases s.len(),
{
    if s.len() == 0 {
        seq![seq![]]
    } else {
        let prev = split_on(s.drop_last(), sep);
        if s.last() == sep {
            prev.push(seq![])
        } else {
            prev.update(prev.len() - 1, prev.last().push(s.last()))
        }
    }
}

/// One IPv4 octet: one to three decimal digits, no leading zero unless the octet
/// is `0`, at most 255.
pub open spec fn octet_of(t: Seq<char>) -> Option<u8> {
    if 1 <= t.len() <= 3 && all_digits(t) && (t.len() == 1 || t[0] != '0') && decimal_value(t)
        <= 255 {
        Some(decimal_value(t) as u8)
    } else {
        None
    }
}

/// A dotted-decimal IPv4 address: exactly four octets.
pub open spec fn ipv4_of(s: Seq<char>) -> Option<Seq<u8>> {
    let p = split_on(s, '.');
    if p.len() == 4 && octet_of(p[0]) is Some && octet_of(p[1]) is Some && octet_of(p[2]) is Some
        && octet_of(p[3]) is Some {
        Some(
            seq![
                octet_of(p[0]).unwrap(),
                octet_of(p[1]).unwrap(),
                octet_of(p[2]).unwrap(),
                octet_of(p[3]).unwrap(),
            ],
        )
    } else {
        None
    }
}

/// Whether a character is an ASCII hex digit, either case.
pub open spec fn is_hex(c: char) -> bool {
    ('0' <= c && c <= '9') || ('a' <= c && c <= 'f') || ('A' <= c && c <= 'F')
}

/// The value of an ASCII hex digit.
pub open spec fn hex_digit_value(c: char) -> int {
    if '0' <= c && c <= '9' {
        (c as int) - ('0' as int)
    } else if 'a' <= c && c <= 'f' {
        (c as int) - ('a' as int) + 10
    } else {
        (c as int) - ('A' as int) + 10
    }
}

/// The number that a string of hex digits denotes.
pub open spec fn hex_value(s: Seq<char>) -> nat
    decreases s.len(),
{
    if s.len() == 0 {
        0
    } else {
        (hex_value(s.drop_last()) * 16 + hex_digit_value(s.last())) as nat
    }
}

/// One IPv6 group: one to four hex digits.
pub open spec fn hex_group_of(t: Seq<char>) -> Option<u16> {
    if 1 <= t.len() <= 4 && (forall|i: int| 0 <= i < t.len() ==> is_hex(#[trigger] t[i])) {
        Some(hex_value(t) as u16)
    } else {
        None
    }
}

/// Groups that are all hex groups.
pub open spec fn plain_groups(pieces: Seq<Seq<char>>) -> Option<Seq<u16>>
    decreases pieces.len(),
{
    if pieces.len() == 0 {
        Some(seq![])
    } else {
        match (plain_groups(pieces.drop_last()), hex_group_of(pieces.last())) {
            (Some(g), Some(x)) => Some(g.push(x)),
            _ => None,
        }
    }
}

/// Groups whose last piece may be a dotted IPv4 address standing for two groups.
pub open spec fn groups_with_ipv4(pieces: Seq<Seq<char>>) -> Option<Seq<u16>> {
    if pieces.len() > 0 && ipv4_of(pieces.last()) is Some {
        let o = ipv4_of(pieces.last()).unwrap();
        match plain_groups(pieces.drop_last()) {
            Some(g) => Some(g.push((o[0] * 256 + o[1]) as u16).push((o[2] * 256 + o[3]) as u16)),
            None => None,
        }
    } else {
        plain_groups(pieces)
    }
}

/// Whether `::` starts at position `i`.
pub open spec fn colon_pair_at(s: Seq<char>, i: int) -> bool {
    0 <= i && i + 1 < s.len() && s[i] == ':' && s[i + 1] == ':'
}

/// The position of the first `::`.
pub open spec fn double_colon_at(s: Seq<char>) -> Option<int> {
    if exists|i: int| colon_pair_at(s, i) {
        Some(
            choose|i: int|
                colon_pair_at(s, i) && forall|j: int| 0 <= j < i ==> !colon_pair_at(s, j),
        )
    } else {
        None
    }
}

/// IPv6 text without `::`: exactly eight groups.
#[verifier::opaque]
pub open spec fn ipv6_full(s: Seq<char>) -> Option<Seq<u16>> {
    match groups_with_ipv4(split_on(s, ':')) {
        Some(g) => if g.len() == 8 {
            Some(g)
        } else {
            None
        },
        None => None,
    }
}

/// The groups before `::`.
pub open spec fn head_groups(left: Seq<char>) -> Option<Seq<u16>> {
    if left.len() == 0 {
        Some(seq![])
    } else {
        plain_groups(split_on(left, ':'))
    }
}

/// The groups after `::`.
pub open spec fn tail_groups(right: Seq<char>) -> Option<Seq<u16>> {
    if right.len() == 0 {
        Some(seq![])
    } else {
        groups_with_ipv4(split_on(right, ':'))
    }
}

/// IPv6 text around one `::`: the groups before and after it (seven at most
/// together) with zero groups filling the gap.
#[verifier::opaque]
pub open spec fn ipv6_compressed(left: Seq<char>, right: Seq<char>) -> Option<Seq<u16>> {
    match (head_groups(left), tail_groups(right)) {
        (Some(a), Some(b)) => if a.len() + b.len() <= 7 {
            Some(a + Seq::new((8 - a.len() - b.len()) as nat, |k: int| 0u16) + b)
        } else {
            None
        },
        _ => None,
    }
}

/// An IPv6 address: eight groups, or the groups around the first `::`.
pub open spec fn ipv6_of(s: Seq<char>) -> Option<Seq<u16>> {
    match double_colon_at(s) {
        None => ipv6_full(s),
        Some(i) => ipv6_compressed(s.take(i), s.skip(i + 2)),
    }
}

/// The address `str::parse::<IpAddr>` reads: IPv4 when the text is dotted
/// decimal, else IPv6.
pub open spec fn ip_of(s: Seq<char>) -> Option<IpAddress> {
    match ipv4_of(s) {
        Some(o) => Some(IpAddress::V4(o[0], o[1], o[2], o[3])),
        None => match ipv6_of(s) {
            Some(g) => Some(IpAddress::V6(g[0], g[1], g[2], g[3], g[4], g[5], g[6], g[7])),
            None => None,
        },
    }
}

/// The views of a list of character vectors.
pub open spec fn views(v: Seq<Vec<char>>) -> Seq<Seq<char>> {
    v.map_values(|p: Vec<char>| p@)
}

/// Splits a text at every `sep`.
pub fn split_chars(s: &Vec<char>, sep: char) -> (r: Vec<Vec<char>>)
    ensures
        views(r@) == split_on(s@, sep),
        r.len() >= 1,
{
    let mut pieces: Vec<Vec<char>> = Vec::new();
    pieces.push(Vec::new());
    let mut i: usize = 0;
    while i < s.len()
        invariant
            i <= s.len(),
            pieces.len() >= 1,
            views(pieces@) == split_on(s@.take(i as int), sep),
        decreases s.len() - i,
    {
        let c = s[i];
        proof {
            let t = s@.take(i + 1);
            assert(t.drop_last() =~= s@.take(i as int));
            assert(t.last() == c);
        }
        if c == sep {
            pieces.push(Vec::new());
            proof {
                assert(views(pieces@) =~= split_on(s@.take(i as int), sep).push(seq![]));
            }
        } else {
            let last = pieces.len() - 1;
            let mut piece = pieces.remove(last);
            let ghost before = pieces@;
            piece.push(c);
            pieces.push(piece);
            proof {
                let prev = split_on(s@.take(i as int), sep);
                assert(views(pieces@) =~= prev.update(prev.len() - 1, prev.last().push(c)));
            }
        }
        i = i + 1;
    }
    assert(s@.take(s.len() as int) =~= s@);
    pieces
}

/// Parses one IPv4 octet.
pub fn parse_octet(t: &Vec<char>) -> (r: Option<u8>)
    ensures
        r == octet_of(t@),
{
    if t.len() < 1 || t.len() > 3 {
        return None;
    }
    if t.len() > 1 && t[0] == '0' {
        return None;
    }
    let mut value: u32 = 0;
    let mut i: usize = 0;
    while i < t.len()
        invariant
            i <= t.len() <= 3,
            all_digits(t@.take(i as int)),
            value == decimal_value(t@.take(i as int)),
            value < (if i == 0 {
                1int
            } else if i == 1 {
                10int
            } else if i == 2 {
                100int
            } else {
                1000int
            }),
        decreases t.len() - i,
    {
        let c = t[i];
        if c < '0' || c > '9' {
            assert(!all_digits(t@));
            return None;
        }
        proof {
            let s = t@.take(i + 1);
            assert(s.drop_last() =~= t@.take(i as int));
            assert(s.last() == c);
        }
        value = value * 10 + ((c as u32) - ('0' as u32));
        i = i + 1;
    }
    assert(t@.take(t.len() as int) =~= t@);
    if value > 255 {
        return None;
    }
    Some(value as u8)
}

/// Parses dotted-decimal IPv4.
pub fn parse_ipv4(s: &Vec<char>) -> (r: Option<(u8, u8, u8, u8)>)
    ensures
        match r {
            Some(o) => ipv4_of(s@) == Some(seq![o.0, o.1, o.2, o.3]),
            None => ipv4_of(s@) is None,
        },
{
    let pieces = split_chars(s, '.');
    if pieces.len() != 4 {
        return None;
    }
    proof {
        assert(views(pieces@)[0] == pieces@[0]@);
        assert(views(pieces@)[1] == pieces@[1]@);
        assert(views(pieces@)[2] == pieces@[2]@);
        assert(views(pieces@)[3] == pieces@[3]@);
    }
    let a = match parse_octet(&pieces[0]) {
        Some(v) => v,
        None => {
            return None;
        },
    };
    let b = match parse_octet(&pieces[1]) {
        Some(v) => v,
        None => {
            return None;
        },
    };
    let c = match parse_octet(&pieces[2]) {
        Some(v) => v,
        None => {
            return None;
        },
    };
    let d = match parse_octet(&pieces[3]) {
        Some(v) => v,
        None => {
            return None;
        },
    };
    Some((a, b, c, d))
}

fn hex_digit_of(c: char) -> (r: Option<u32>)
    ensures
        r is Some <==> is_hex(c),
        r matches Some(v) ==> v == hex_digit_value(c) && v < 16,
{
    if '0' <= c && c <= '9' {
        Some((c as u32) - ('0' as u32))
    } else if 'a' <= c && c <= 'f' {
        Some((c as u32) - ('a' as u32) + 10)
    } else if 'A' <= c && c <= 'F' {
        Some((c as u32) - ('A' as u32) + 10)
    } else {
        None
    }
}

proof fn lemma_hex_value_bound(s: Seq<char>)
    requires
        forall|i: int| 0 <= i < s.len() ==> is_hex(#[trigger] s[i]),
    ensures
        hex_value(s) < vstd::arithmetic::power2::pow2(4 * s.len()),
    decreases s.len(),
{
    vstd::arithmetic::power2::lemma2_to64();
    if s.len() > 0 {
        let p = s.drop_last();
        assert forall|i: int| 0 <= i < p.len() implies is_hex(#[trigger] p[i]) by {
            assert(p[i] == s[i]);
        }
        lemma_hex_value_bound(p);
        assert(is_hex(s[s.len() - 1]));
        vstd::arithmetic::power2::lemma_pow2_adds(4 * p.len(), 4);
        let a = hex_value(p);
        let b = vstd::arithmetic::power2::pow2(4 * p.len());
        assert(a * 16 + 15 < b * 16) by (nonlinear_arith)
            requires
                a < b,
        ;
    }
}

/// Parses one IPv6 group.
pub fn parse_hex_group(t: &Vec<char>) -> (r: Option<u16>)
    ensures
        r == hex_group_of(t@),
{
    if t.len() < 1 || t.len() > 4 {
        return None;
    }
    let mut value: u32 = 0;
    let mut i: usize = 0;
    while i < t.len()
        invariant
            i <= t.len() <= 4,
            forall|k: int| 0 <= k < i ==> is_hex(#[trigger] t@[k]),
            value == hex_value(t@.take(i as int)),
            value < 0x10000,
        decreases t.len() - i,
    {
        let c = t[i];
        let digit = match hex_digit_of(c) {
            Some(v) => v,
            None => {
                assert(!is_hex(t@[i as int]));
                return None;
            },
        };
        proof {
            let s = t@.take(i + 1);
            assert(s.drop_last() =~= t@.take(i as int));
            assert(s.last() == c);
            assert forall|k: int| 0 <= k < s.len() implies is_hex(#[trigger] s[k]) by {
                assert(s[k] == t@[k]);
            }
            lemma_hex_value_bound(s);
            vstd::arithmetic::power2::lemma2_to64();
            assert(vstd::arithmetic::power2::pow2(4 * s.len()) <= 0x10000) by {
                if s.len() == 1 {
                } else if s.len() == 2 {
                } else if s.len() == 3 {
                } else {
                }
            }
        }
        value = value * 16 + digit;
        i = i + 1;
    }
    assert(t@.take(t.len() as int) =~= t@);
    Some(value as u16)
}

proof fn lemma_plain_groups_prefix(s: Seq<Seq<char>>, k: int)
    requires
        0 <= k <= s.len(),
        plain_groups(s.take(k)) is None,
    ensures
        plain_groups(s) is None,
    decreases s.len() - k,
{
    if k < s.len() {
        let t = s.take(k + 1);
        assert(t.drop_last() =~= s.take(k));
        lemma_plain_groups_prefix(s, k + 1);
    } else {
        assert(s.take(k) =~= s);
    }
}

/// Parses pieces that must all be hex groups.
fn parse_plain_groups(pieces: &Vec<Vec<char>>, count: usize) -> (r: Option<Vec<u16>>)
    requires
        count <= pieces.len(),
    ensures
        match r {
            Some(g) => plain_groups(views(pieces@).take(count as int)) == Some(g@),
            None => plain_groups(views(pieces@).take(count as int)) is None,
        },
{
    let mut groups: Vec<u16> = Vec::new();
    let mut i: usize = 0;
    while i < count
        invariant
            i <= count <= pieces.len(),
            plain_groups(views(pieces@).take(i as int)) == Some(groups@),
        decreases count - i,
    {
        let ghost t = views(pieces@).take(i + 1);
        proof {
            assert(t.drop_last() =~= views(pieces@).take(i as int));
            assert(t.last() == pieces@[i as int]@);
        }
        match parse_hex_group(&pieces[i]) {
            Some(x) => {
                groups.push(x);
            },
            None => {
                proof {
                    let all = views(pieces@).take(count as int);
                    assert(all.take(i + 1) =~= t);
                    lemma_plain_groups_prefix(all, i + 1);
                }
                return None;
            },
        }
        i = i + 1;
    }
    Some(groups)
}

/// Parses pieces whose last one may be dotted IPv4.
fn parse_groups_with_ipv4(pieces: &Vec<Vec<char>>) -> (r: Option<Vec<u16>>)
    ensures
        match r {
            Some(g) => groups_with_ipv4(views(pieces@)) == Some(g@),
            None => groups_with_ipv4(views(pieces@)) is None,
        },
{
    let n = pieces.len();
    assert(views(pieces@).take(n as int) =~= views(pieces@));
    if n > 0 {
        let tail = parse_ipv4(&pieces[n - 1]);
        proof {
            assert(views(pieces@).last() == pieces@[n - 1]@);
            assert(views(pieces@).drop_last() =~= views(pieces@).take(n - 1));
        }
        if let Some((a, b, c, d)) = tail {
            match parse_plain_groups(pieces, n - 1) {
                Some(mut groups) => {
                    let hi: u16 = (a as u16) * 256 + (b as u16);
                    let lo: u16 = (c as u16) * 256 + (d as u16);
                    groups.push(hi);
                    groups.push(lo);
                    return Some(groups);
                },
                None => {
                    return None;
                },
            }
        }
    }
    parse_plain_groups(pieces, n)
}

fn find_double_colon(s: &Vec<char>) -> (r: Option<usize>)
    ensures
        match r {
            Some(i) => double_colon_at(s@) == Some(i as int) && i + 1 < s.len(),
            None => double_colon_at(s@) is None,
        },
{
    let mut i: usize = 0;
    while i < s.len()
        invariant
            i <= s.len(),
            forall|j: int| 0 <= j < i ==> !colon_pair_at(s@, j),
        decreases s.len() - i,
    {
        if i + 1 < s.len() && s[i] == ':' && s[i + 1] == ':' {
            assert(colon_pair_at(s@, i as int));
            let ghost c = choose|k: int|
                colon_pair_at(s@, k) && forall|j: int| 0 <= j < k ==> !colon_pair_at(s@, j);
            assert(c == i as int) by {
                if c < i {
                } else if c > i {
                }
            }
            return Some(i);
        }
        i = i + 1;
    }
    assert forall|k: int| !colon_pair_at(s@, k) by {
        if colon_pair_at(s@, k) {
            assert(k < i);
        }
    }
    None
}

fn parse_head(left: &Vec<char>) -> (r: Option<Vec<u16>>)
    ensures
        match r {
            Some(g) => head_groups(left@) == Some(g@),
            None => head_groups(left@) is None,
        },
{
    if left.len() == 0 {
        Some(Vec::new())
    } else {
        let pieces = split_chars(left, ':');
        let r = parse_plain_groups(&pieces, pieces.len());
        assert(views(pieces@).take(pieces.len() as int) =~= views(pieces@));
        r
    }
}

fn parse_tail(right: &Vec<char>) -> (r: Option<Vec<u16>>)
    ensures
        match r {
            Some(g) => tail_groups(right@) == Some(g@),
            None => tail_groups(right@) is None,
        },
{
    if right.len() == 0 {
        Some(Vec::new())
    } else {
        let pieces = split_chars(right, ':');
        parse_groups_with_ipv4(&pieces)
    }
}

/// The head groups, zero groups for the gap, then the tail groups.
fn assemble(a: Vec<u16>, b: &Vec<u16>) -> (r: Vec<u16>)
    requires
        a.len() + b.len() <= 7,
    ensures
        r@ == a@ + Seq::new((8 - a.len() - b.len()) as nat, |k: int| 0u16) + b@,
        r.len() == 8,
{
    let gap: usize = 8 - a.len() - b.len();
    let mut g: Vec<u16> = a;
    let ghost a_view = g@;
    let mut k: usize = 0;
    while k < gap
        invariant
            k <= gap,
            g@ == a_view + Seq::new(k as nat, |j: int| 0u16),
        decreases gap - k,
    {
        g.push(0);
        k = k + 1;
        assert(g@ =~= a_view + Seq::new(k as nat, |j: int| 0u16));
    }
    let ghost mid = g@;
    let mut t: usize = 0;
    while t < b.len()
        invariant
            t <= b.len(),
            g@ == mid + b@.take(t as int),
        decreases b.len() - t,
    {
        g.push(b[t]);
        t = t + 1;
        assert(g@ =~= mid + b@.take(t as int));
    }
    assert(b@.take(b.len() as int) =~= b@);
    g
}

fn parse_ipv6_full(s: &Vec<char>) -> (r: Option<Vec<u16>>)
    ensures
        match r {
            Some(g) => ipv6_full(s@) == Some(g@) && g.len() == 8,
            None => ipv6_full(s@) is None,
        },
{
    proof {
        reveal(ipv6_full);
    }
    let pieces = split_chars(s, ':');
    match parse_groups_with_ipv4(&pieces) {
        Some(g) => if g.len() == 8 {
            Some(g)
        } else {
            None
        },
        None => None,
    }
}

fn parse_ipv6_compressed(left: &Vec<char>, right: &Vec<char>) -> (r: Option<Vec<u16>>)
    ensures
        match r {
            Some(g) => ipv6_compressed(left@, right@) == Some(g@) && g.len() == 8,
            None => ipv6_compressed(left@, right@) is None,
        },
{
    proof {
        reveal(ipv6_compressed);
    }
    let head = parse_head(left);
    let tail = parse_tail(right);
    match (head, tail) {
        (Some(a), Some(b)) => {
            if a.len() <= 7 && b.len() <= 7 - a.len() {
                Some(assemble(a, &b))
            } else {
                None
            }
        },
        _ => None,
    }
}

/// Parses IPv6 text into its eight groups.
pub fn parse_ipv6(s: &Vec<char>) -> (r: Option<Vec<u16>>)
    ensures
        match r {
            Some(g) => ipv6_of(s@) == Some(g@) && g.len() == 8,
            None => ipv6_of(s@) is None,
        },
{
    match find_double_colon(s) {
        None => parse_ipv6_full(s),
        Some(i) => {
            let left = crate::text::slice_chars(s, 0, i);
            let right = crate::text::slice_chars(s, i + 2, s.len());
            proof {
                assert(left@ =~= s@.take(i as int));
                assert(right@ =~= s@.skip(i + 2));
            }
            parse_ipv6_compressed(&left, &right)
        },
    }
}

/// Parses an IP address the way `str::parse::<IpAddr>` does.
pub fn parse_ip(text: &Vec<char>) -> (r: Option<IpAddress>)
    ensures
        r == ip_of(text@),
{
    match parse_ipv4(text) {
        Some((a, b, c, d)) => Some(IpAddress::V4(a, b, c, d)),
        None => match parse_ipv6(text) {
            Some(g) => Some(IpAddress::V6(g[0], g[1], g[2], g[3], g[4], g[5], g[6], g[7])),
            None => None,
        },
    }
}

} // verus!
