//! Private Observability: redaction of sensitive-looking text and warnings about
//! files that other users can read.
use vstd::prelude::*;

use crate::text::{
    ascii_lower_seq, chars_of, contains, contains_seq, occurs_at, opt_view, to_ascii_lowercase,
};

verus! {

/// A security concern about the local installation.
#[derive(Debug, Clone, PartialEq, Eq)]
pub enum SecurityWarning {
    FilePermissionsTooBroad { path: String },
}

/// The marker that replaces redacted text.
pub open spec fn redacted_marker() -> Seq<char> {
    seq!['[', 'r', 'e', 'd', 'a', 'c', 't', 'e', 'd', ']']
}

/// The lowercase words whose presence marks a text as sensitive.
pub open spec fn secret_patterns() -> Seq<Seq<char>> {
    seq![
        seq!['s', 'e', 'c', 'r', 'e', 't'],
        seq!['t', 'o', 'k', 'e', 'n'],
        seq!['p', 'r', 'i', 'v', 'a', 't', 'e', '_', 'k', 'e', 'y'],
        seq![
            'r', 'e', 'g', 'i', 's', 't', 'r', 'a', 't', 'i', 'o', 'n', '_', 'm', 'a', 't', 'e',
            'r', 'i', 'a', 'l',
        ],
    ]
}

/// A text is sensitive when its ASCII-lowercased form contains a secret pattern.
pub open spec fn is_sensitive(s: Seq<char>) -> bool {
    exists|i: int|
        0 <= i < secret_patterns().len() && contains_seq(
            ascii_lower_seq(s),
            #[trigger] secret_patterns()[i],
        )
}

/// What a text becomes once it is made safe to show.
pub open spec fn redacted_text(s: Seq<char>) -> Seq<char> {
    if is_sensitive(s) {
        redacted_marker()
    } else {
        s
    }
}

/// The optional text made safe to show.
pub open spec fn redacted_opt(s: Option<Seq<char>>) -> Option<Seq<char>> {
    match s {
        Some(t) => Some(redacted_text(t)),
        None => None,
    }
}

/// A fresh `String` holding the redaction marker.
pub fn redacted_marker_string() -> (r: String)
    ensures
        r@ == redacted_marker(),
{
    let r = String::from_str("[redacted]");
    proof {
        reveal_strlit("[redacted]");
    }
    r
}

fn secret_pattern_chars(i: usize) -> (r: Vec<char>)
    requires
        i < 4,
    ensures
        r@ == secret_patterns()[i as int],
{
    if i == 0 {
        let r = vec!['s', 'e', 'c', 'r', 'e', 't'];
        assert(r@ == secret_patterns()[0]);
        r
    } else if i == 1 {
        let r = vec!['t', 'o', 'k', 'e', 'n'];
        assert(r@ == secret_patterns()[1]);
        r
    } else if i == 2 {
        let r = vec!['p', 'r', 'i', 'v', 'a', 't', 'e', '_', 'k', 'e', 'y'];
        assert(r@ == secret_patterns()[2]);
        r
    } else {
        let r = vec![
            'r', 'e', 'g', 'i', 's', 't', 'r', 'a', 't', 'i', 'o', 'n', '_', 'm', 'a', 't', 'e',
            'r', 'i', 'a', 'l',
        ];
        assert(r@ == secret_patterns()[3]);
        r
    }
}

/// Whether a text looks sensitive.
pub fn looks_sensitive(input: &str) -> (r: bool)
    ensures
        r == is_sensitive(input@),
{
    let chars = chars_of(input);
    let lower = to_ascii_lowercase(&chars);
    let mut i: usize = 0;
    while i < 4
        invariant
            i <= 4,
            lower@ == ascii_lower_seq(input@),
            forall|k: int| 0 <= k < i ==> !contains_seq(lower@, #[trigger] secret_patterns()[k]),
        decreases 4 - i,
    {
        let pattern = secret_pattern_chars(i);
        if contains(&lower, &pattern) {
            return true;
        }
        i = i + 1;
    }
    assert(secret_patterns().len() == 4);
    false
}

/// Replaces a text that looks sensitive by `[redacted]`; other texts are kept as
/// they are.
pub fn redact_sensitive(input: &str) -> (r: String)
    ensures
        r@ == redacted_text(input@),
{
    if looks_sensitive(input) {
        redacted_marker_string()
    } else {
        String::from_str(input)
    }
}

/// Redacts an optional text.
pub fn redact_optional(input: &Option<String>) -> (r: Option<String>)
    ensures
        opt_view(r) == redacted_opt(opt_view(*input)),
{
    match input {
        Some(text) => Some(redact_sensitive(text.as_str())),
        None => None,
    }
}

/// The permission bits that grant group or other users any access.
pub open spec fn too_broad(mode: u32) -> bool {
    mode % 64 != 0
}

/// Warnings about a file whose permission bits are `mode` (`None` when the file's
/// metadata could not be read; no warning is given then).
pub fn file_permission_warnings(path: &str, mode: Option<u32>) -> (r: Vec<SecurityWarning>)
    ensures
        match mode {
            Some(m) => if too_broad(m) {
                r.len() == 1 && (r[0] matches SecurityWarning::FilePermissionsTooBroad { path: p }
                    && p@ == path@)
            } else {
                r.len() == 0
            },
            None => r.len() == 0,
        },
{
    match mode {
        Some(m) => {
            assert((m & 0o077u32 != 0) == (m % 64 != 0)) by (bit_vector);
            if m & 0o077 != 0 {
                vec![SecurityWarning::FilePermissionsTooBroad { path: String::from_str(path) }]
            } else {
                Vec::new()
            }
        },
        None => Vec::new(),
    }
}

/// The redaction marker holds no secret word.
proof fn lemma_marker_not_sensitive()
    ensures
        !is_sensitive(redacted_marker()),
{
    let m = redacted_marker();
    assert(ascii_lower_seq(m) =~= m);
    assert forall|k: int| 0 <= k < secret_patterns().len() implies !contains_seq(
        ascii_lower_seq(m),
        #[trigger] secret_patterns()[k],
    ) by {
        let p = secret_patterns()[k];
        assert forall|j: int| !occurs_at(m, p, j) by {
            if occurs_at(m, p, j) {
                assert(m.subrange(j, j + p.len())[0] == m[j]);
                assert(m[j] == p[0]);
                if k == 0 {
                    assert(0 <= j <= 4);
                    assert(m[j] != 's');
                } else if k == 1 {
                    assert(0 <= j <= 5);
                    assert(m[j] != 't');
                }
            }
        }
    }
}

/// Redaction hides every secret word: what status output shows in place of a
/// text is never itself sensitive, and a text without secret words is shown
/// unchanged.
pub proof fn law_redacted_text_is_not_sensitive(s: Seq<char>)
    ensures
        !is_sensitive(redacted_text(s)),
        !is_sensitive(s) ==> redacted_text(s) == s,
        forall|i: int|
            0 <= i < secret_patterns().len() ==> !contains_seq(
                ascii_lower_seq(redacted_text(s)),
                #[trigger] secret_patterns()[i],
            ),
{
    lemma_marker_not_sensitive();
}

/// Redaction law: redacting twice is redacting once.
pub proof fn law_redaction_is_idempotent(s: Seq<char>)
    ensures
        redacted_text(redacted_text(s)) == redacted_text(s),
{
    lemma_marker_not_sensitive();
}

} // verus!
