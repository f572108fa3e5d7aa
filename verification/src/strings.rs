//! Character-level helpers for the name handling the lowering needs:
//! equality, ASCII-case-insensitive equality, prefix tests, and stripping of
//! the global-namespace marker from a qualified name.

use vstd::prelude::*;

verus! {

/// The code point a character compares as under ASCII lower-casing.
pub open spec fn spec_lower_code(c: char) -> int {
    if 'A' <= c && c <= 'Z' {
        c as int + 32
    } else {
        c as int
    }
}

/// Two character sequences are equal up to ASCII case.
pub open spec fn spec_eq_ignore_ascii_case(a: Seq<char>, b: Seq<char>) -> bool {
    a.len() == b.len() && forall|i: int|
        0 <= i < a.len() ==> spec_lower_code(a[i]) == spec_lower_code(#[trigger] b[i])
}

/// `p` is a prefix of `s`.
pub open spec fn spec_has_prefix(s: Seq<char>, p: Seq<char>) -> bool {
    p.len() <= s.len() && s.subrange(0, p.len() as int) == p
}

/// A qualified name with its single leading global-namespace backslash
/// removed; any other name is kept as written.
pub open spec fn spec_strip_global_ns(s: Seq<char>) -> Seq<char> {
    if s.len() >= 1 && s[0] == '\\' {
        s.subrange(1, s.len() as int)
    } else {
        s
    }
}

/// Character-by-character string equality.
pub fn str_eq(a: &str, b: &str) -> (r: bool)
    ensures
        r == (a@ == b@),
{
    let alen = a.unicode_len();
    let blen = b.unicode_len();
    if alen != blen {
        return false;
    }
    let mut i: usize = 0;
    while i < alen
        invariant
            alen == a@.len(),
            alen == b@.len(),
            0 <= i <= alen,
            forall|j: int| 0 <= j < i ==> a@[j] == b@[j],
        decreases alen - i,
    {
        if a.get_char(i) != b.get_char(i) {
            return false;
        }
        i += 1;
    }
    proof {
        assert(a@ =~= b@);
    }
    true
}

/// String equality up to ASCII case.
pub fn str_eq_ignore_ascii_case(a: &str, b: &str) -> (r: bool)
    ensures
        r == spec_eq_ignore_ascii_case(a@, b@),
{
    let alen = a.unicode_len();
    let blen = b.unicode_len();
    if alen != blen {
        return false;
    }
    let mut i: usize = 0;
    while i < alen
        invariant
            alen == a@.len(),
            alen == b@.len(),
            0 <= i <= alen,
            forall|j: int| 0 <= j < i ==> spec_lower_code(a@[j]) == spec_lower_code(#[trigger] b@[j]),
        decreases alen - i,
    {
        let ca = a.get_char(i);
        let cb = b.get_char(i);
        let code_a: u32 = if 'A' <= ca && ca <= 'Z' {
            ca as u32 + 32
        } else {
            ca as u32
        };
        let code_b: u32 = if 'A' <= cb && cb <= 'Z' {
            cb as u32 + 32
        } else {
            cb as u32
        };
        if code_a != code_b {
            return false;
        }
        i += 1;
    }
    true
}

/// Whether `p` is a prefix of `s`.
pub fn str_has_prefix(s: &str, p: &str) -> (r: bool)
    ensures
        r == spec_has_prefix(s@, p@),
{
    let slen = s.unicode_len();
    let plen = p.unicode_len();
    if plen > slen {
        return false;
    }
    let head = s.substring_char(0, plen);
    str_eq(head, p)
}

/// The name with its single leading global-namespace backslash removed.
pub fn strip_global_ns(s: &str) -> (r: String)
    ensures
        r@ == spec_strip_global_ns(s@),
{
    let len = s.unicode_len();
    if len >= 1 && s.get_char(0) == '\\' {
        s.substring_char(1, len).to_owned()
    } else {
        s.to_owned()
    }
}

} // verus!
