//! The JSON values that requests carry, as the gateway inspects them.
use vstd::prelude::*;

verus! {

/// A JSON number, by the form in which it was written.
#[derive(Debug, PartialEq)]
pub enum JsonNumber {
    /// A non-negative integer that fits in 64 bits.
    Unsigned(u64),
    /// A negative integer that fits in 64 bits.
    Negative(i64),
    /// Any other number (a fraction, an exponent, or out of range), as written.
    Decimal(String),
}

/// A JSON value.
#[derive(Debug, PartialEq)]
pub enum JsonValue {
    Null,
    Bool(bool),
    Number(JsonNumber),
    String(String),
    Array(Vec<JsonValue>),
    Object(Vec<JsonMember>),
}

/// One `key: value` member of a JSON object, in the order written.
#[derive(Debug, PartialEq)]
pub struct JsonMember {
    pub key: String,
    pub value: JsonValue,
}

/// An ASCII hexadecimal digit, of either case.
pub open spec fn is_hex_digit(c: char) -> bool {
    ('0' <= c && c <= '9') || ('a' <= c && c <= 'f') || ('A' <= c && c <= 'F')
}

/// Whether the text starts with the `0x` prefix.
pub open spec fn has_hex_prefix(s: Seq<char>) -> bool {
    s.len() >= 2 && s[0] == '0' && s[1] == 'x'
}

/// The digits of a hexadecimal text, without its `0x` prefix if it has one.
pub open spec fn hex_body(s: Seq<char>) -> Seq<char> {
    if has_hex_prefix(s) {
        s.subrange(2, s.len() as int)
    } else {
        s
    }
}

/// The text encodes exactly `n_bytes` bytes in hexadecimal: an optional `0x`
/// prefix followed by two digits per byte.
pub open spec fn is_fixed_hex(s: Seq<char>, n_bytes: nat) -> bool {
    let d = hex_body(s);
    &&& d.len() == 2 * n_bytes
    &&& forall|i: int| 0 <= i < d.len() ==> #[trigger] is_hex_digit(d[i])
}

pub fn hex_digit(c: char) -> (r: bool)
    ensures
        r == is_hex_digit(c),
{
    ('0' <= c && c <= '9') || ('a' <= c && c <= 'f') || ('A' <= c && c <= 'F')
}

/// Whether `s` holds exactly `n_bytes` bytes in hexadecimal, `0x` prefix optional.
pub fn fixed_hex(s: &str, n_bytes: usize) -> (r: bool)
    ensures
        r == is_fixed_hex(s@, n_bytes as nat),
{
    let len = s.unicode_len();
    let start: usize = if len >= 2 && s.get_char(0) == '0' && s.get_char(1) == 'x' {
        2
    } else {
        0
    };
    let ghost d = hex_body(s@);
    assert(d =~= s@.subrange(start as int, len as int));
    if n_bytes > (usize::MAX - start) / 2 || len != start + 2 * n_bytes {
        return false;
    }
    let mut i: usize = start;
    while i < len
        invariant
            start <= i <= len,
            len == s@.len(),
            len == start + 2 * n_bytes,
            d =~= s@.subrange(start as int, len as int),
            forall|k: int| 0 <= k < i - start ==> #[trigger] is_hex_digit(d[k]),
        decreases len - i,
    {
        if !hex_digit(s.get_char(i)) {
            assert(d[i - start] == s@[i as int]);
            return false;
        }
        i = i + 1;
    }
    true
}

/// Whether two texts are the same characters.
pub fn str_eq(a: &str, b: &str) -> (r: bool)
    ensures
        r == (a@ == b@),
{
    let n = a.unicode_len();
    if n != b.unicode_len() {
        return false;
    }
    let mut i: usize = 0;
    while i < n
        invariant
            i <= n,
            n == a@.len(),
            n == b@.len(),
            forall|k: int| 0 <= k < i ==> a@[k] == b@[k],
        decreases n - i,
    {
        if a.get_char(i) != b.get_char(i) {
            return false;
        }
        i = i + 1;
    }
    assert(a@ =~= b@);
    true
}

} // verus!
