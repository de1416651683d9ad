//! Writing compact JSON text: string literals escaped as `serde_json` escapes
//! them, and arrays of strings.
use vstd::prelude::*;

use crate::text::chars_of;

verus! {

/// The lowercase hexadecimal digit of a value below 16.
pub open spec fn hex_lower(v: int) -> char {
    if v < 10 {
        (('0' as int) + v) as char
    } else {
        (('a' as int) + v - 10) as char
    }
}

/// How one character appears inside a JSON string literal: quote and backslash
/// are escaped, the control characters with a short escape use it, the other
/// control characters below U+0020 become `\u00XX`, everything else stands as is.
pub open spec fn escape_char(c: char) -> Seq<char> {
    if c == '"' {
        seq!['\\', '"']
    } else if c == '\\' {
        seq!['\\', '\\']
    } else if c == '\u{8}' {
        seq!['\\', 'b']
    } else if c == '\t' {
        seq!['\\', 't']
    } else if c == '\n' {
        seq!['\\', 'n']
    } else if c == '\u{c}' {
        seq!['\\', 'f']
    } else if c == '\r' {
        seq!['\\', 'r']
    } else if (c as int) < 0x20 {
        seq!['\\', 'u', '0', '0', hex_lower((c as int) / 16), hex_lower((c as int) % 16)]
    } else {
        seq![c]
    }
}

/// The escaped characters of a string.
pub open spec fn escaped(s: Seq<char>) -> Seq<char>
    decreases s.len(),
{
    if s.len() == 0 {
        seq![]
    } else {
        escaped(s.drop_last()) + escape_char(s.last())
    }
}

/// The JSON string literal of a string.
pub open spec fn json_string(s: Seq<char>) -> Seq<char> {
    seq!['"'] + escaped(s) + seq!['"']
}

/// The JSON array of string literals, compact.
pub open spec fn json_string_items(items: Seq<Seq<char>>) -> Seq<char>
    decreases items.len(),
{
    if items.len() == 0 {
        seq![]
    } else if items.len() == 1 {
        json_string(items[0])
    } else {
        json_string_items(items.drop_last()) + seq![','] + json_string(items.last())
    }
}

/// The compact JSON array of string literals.
pub open spec fn json_string_array(items: Seq<Seq<char>>) -> Seq<char> {
    seq!['['] + json_string_items(items) + seq![']']
}

fn hex_digit(v: u32) -> (r: char)
    requires
        v < 16,
    ensures
        r == hex_lower(v as int),
{
    if v < 10 {
        ((v as u8) + 48) as char
    } else {
        ((v as u8) + 87) as char
    }
}

fn push_escaped_char(acc: &mut Vec<char>, c: char)
    ensures
        final(acc)@ == old(acc)@ + escape_char(c),
{
    let ghost start = acc@;
    let code = c as u32;
    if c == '"' {
        acc.push('\\');
        acc.push('"');
    } else if c == '\\' {
        acc.push('\\');
        acc.push('\\');
    } else if code == 8 {
        acc.push('\\');
        acc.push('b');
    } else if c == '\t' {
        acc.push('\\');
        acc.push('t');
    } else if c == '\n' {
        acc.push('\\');
        acc.push('n');
    } else if code == 12 {
        acc.push('\\');
        acc.push('f');
    } else if c == '\r' {
        acc.push('\\');
        acc.push('r');
    } else if code < 0x20 {
        acc.push('\\');
        acc.push('u');
        acc.push('0');
        acc.push('0');
        acc.push(hex_digit(code / 16));
        acc.push(hex_digit(code % 16));
    } else {
        acc.push(c);
    }
    assert(acc@ =~= start + escape_char(c));
}

/// Appends the JSON string literal of `s`.
pub fn push_json_string(acc: &mut Vec<char>, s: &str)
    ensures
        final(acc)@ == old(acc)@ + json_string(s@),
{
    let chars = chars_of(s);
    let ghost start = acc@;
    acc.push('"');
    let mut i: usize = 0;
    while i < chars.len()
        invariant
            i <= chars.len(),
            chars@ == s@,
            acc@ == start + seq!['"'] + escaped(chars@.take(i as int)),
        decreases chars.len() - i,
    {
        let ghost before = acc@;
        push_escaped_char(acc, chars[i]);
        proof {
            let t = chars@.take(i + 1);
            assert(t.drop_last() =~= chars@.take(i as int));
            assert(t.last() == chars@[i as int]);
        }
        i = i + 1;
    }
    assert(chars@.take(chars.len() as int) =~= chars@);
    acc.push('"');
    assert(acc@ =~= start + json_string(s@));
}

/// Appends the compact JSON array of the string literals of `items`.
pub fn push_json_string_array(acc: &mut Vec<char>, items: &Vec<&str>)
    ensures
        final(acc)@ == old(acc)@ + json_string_array(items@.map_values(|s: &str| s@)),
{
    let ghost start = acc@;
    let ghost views = items@.map_values(|s: &str| s@);
    acc.push('[');
    let mut i: usize = 0;
    while i < items.len()
        invariant
            i <= items.len(),
            views == items@.map_values(|s: &str| s@),
            acc@ == start + seq!['['] + json_string_items(views.take(i as int)),
        decreases items.len() - i,
    {
        proof {
            let t = views.take(i + 1);
            assert(t.drop_last() =~= views.take(i as int));
            assert(t.last() == items@[i as int]@);
        }
        if i > 0 {
            acc.push(',');
        }
        push_json_string(acc, items[i]);
        proof {
            let t = views.take(i + 1);
            if i == 0 {
                assert(t.len() == 1);
            }
        }
        i = i + 1;
    }
    assert(views.take(items.len() as int) =~= views);
    acc.push(']');
    assert(acc@ =~= start + json_string_array(views));
}

/// Appends the compact JSON array of the string literals of `items`.
pub fn push_json_string_list(acc: &mut Vec<char>, items: &Vec<String>)
    ensures
        final(acc)@ == old(acc)@ + json_string_array(items@.map_values(|s: String| s@)),
{
    let ghost start = acc@;
    let ghost views = items@.map_values(|s: String| s@);
    acc.push('[');
    let mut i: usize = 0;
    while i < items.len()
        invariant
            i <= items.len(),
            views == items@.map_values(|s: String| s@),
            acc@ == start + seq!['['] + json_string_items(views.take(i as int)),
        decreases items.len() - i,
    {
        proof {
            let t = views.take(i + 1);
            assert(t.drop_last() =~= views.take(i as int));
            assert(t.last() == items@[i as int]@);
        }
        if i > 0 {
            acc.push(',');
        }
        push_json_string(acc, items[i].as_str());
        proof {
            let t = views.take(i + 1);
            if i == 0 {
                assert(t.len() == 1);
            }
        }
        i = i + 1;
    }
    assert(views.take(items.len() as int) =~= views);
    acc.push(']');
    assert(acc@ =~= start + json_string_array(views));
}

} // verus!
