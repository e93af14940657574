//! JSON framing for request bodies and field extraction from response
//! envelopes.
//!
//! Outbound bodies are small objects of string fields; they are built
//! here byte by byte against a full specification of the framing,
//! including string escaping. Inbound envelopes are decoded through
//! `serde_json`, behind trusted items whose results are named.

use vstd::prelude::*;
use vstd::string::StringExecFns;
use vstd::string::StringSliceAdditionalSpecFns;

verus! {

/// ASCII code of the hexadecimal digit for `d` (lower case).
pub open spec fn spec_hex_digit(d: u8) -> u8
    recommends
        d < 16,
{
    if d < 10 {
        (0x30 + d) as u8
    } else {
        (0x57 + d) as u8
    }
}

/// JSON string escaping of one byte: quote and backslash get a
/// backslash escape, control bytes get a `\u00XX` escape, every other
/// byte (including UTF-8 continuation bytes) passes through unchanged.
pub open spec fn spec_escape_byte(b: u8) -> Seq<u8> {
    if b == 0x22 {
        seq![0x5cu8, 0x22u8]
    } else if b == 0x5c {
        seq![0x5cu8, 0x5cu8]
    } else if b < 0x20 {
        seq![0x5cu8, 0x75u8, 0x30u8, 0x30u8, spec_hex_digit(b / 16), spec_hex_digit(b % 16)]
    } else {
        seq![b]
    }
}

/// JSON string escaping of a byte sequence.
pub open spec fn spec_escape_bytes(s: Seq<u8>) -> Seq<u8>
    decreases s.len(),
{
    if s.len() == 0 {
        Seq::empty()
    } else {
        spec_escape_bytes(s.drop_last()) + spec_escape_byte(s.last())
    }
}

/// One `"key":"value"` member of a JSON object, both parts escaped.
pub open spec fn spec_json_member(key: Seq<u8>, val: Seq<u8>) -> Seq<u8> {
    seq![0x22u8] + spec_escape_bytes(key) + seq![0x22u8, 0x3au8, 0x22u8] + spec_escape_bytes(val)
        + seq![0x22u8]
}

/// A JSON object of exactly two string members.
pub open spec fn spec_json_object2(k1: Seq<u8>, v1: Seq<u8>, k2: Seq<u8>, v2: Seq<u8>) -> Seq<u8> {
    seq![0x7bu8] + spec_json_member(k1, v1) + seq![0x2cu8] + spec_json_member(k2, v2)
        + seq![0x7du8]
}

/// Executable counterpart of [`spec_hex_digit`].
fn hex_digit(d: u8) -> (r: u8)
    requires
        d < 16,
    ensures
        r == spec_hex_digit(d),
{
    if d < 10 {
        0x30 + d
    } else {
        0x57 + d
    }
}

/// Append the JSON string escaping of `s` to `out`.
fn push_escaped(out: &mut Vec<u8>, s: &[u8])
    ensures
        final(out)@ == old(out)@ + spec_escape_bytes(s@),
{
    let mut i: usize = 0;
    while i < s.len()
        invariant
            i <= s@.len(),
            out@ == old(out)@ + spec_escape_bytes(s@.subrange(0, i as int)),
        decreases s@.len() - i,
    {
        let b = s[i];
        if b == 0x22 {
            out.push(0x5c);
            out.push(0x22);
        } else if b == 0x5c {
            out.push(0x5c);
            out.push(0x5c);
        } else if b < 0x20 {
            out.push(0x5c);
            out.push(0x75);
            out.push(0x30);
            out.push(0x30);
            out.push(hex_digit(b / 16));
            out.push(hex_digit(b % 16));
        } else {
            out.push(b);
        }
        proof {
            let pre = s@.subrange(0, i as int);
            let post = s@.subrange(0, i as int + 1);
            assert(post.drop_last() =~= pre);
            assert(post.last() == s@[i as int]);
            assert(out@ =~= old(out)@ + (spec_escape_bytes(pre) + spec_escape_byte(s@[i as int])));
        }
        i = i + 1;
    }
    proof {
        assert(s@.subrange(0, s@.len() as int) =~= s@);
    }
}

/// Append one `"key":"value"` member to `out`.
fn push_member(out: &mut Vec<u8>, key: &str, val: &str)
    ensures
        final(out)@ == old(out)@ + spec_json_member(key.spec_bytes(), val.spec_bytes()),
{
    out.push(0x22);
    push_escaped(out, key.as_bytes());
    out.push(0x22);
    out.push(0x3a);
    out.push(0x22);
    push_escaped(out, val.as_bytes());
    out.push(0x22);
    proof {
        assert(out@ =~= old(out)@ + spec_json_member(key.spec_bytes(), val.spec_bytes()));
    }
}

/// Build the UTF-8 bytes of a JSON object with exactly two string
/// members, in the given order, with both keys and values escaped.
pub fn json_object2(k1: &str, v1: &str, k2: &str, v2: &str) -> (r: Vec<u8>)
    ensures
        r@ == spec_json_object2(k1.spec_bytes(), v1.spec_bytes(), k2.spec_bytes(), v2.spec_bytes()),
{
    let mut out: Vec<u8> = Vec::new();
    out.push(0x7b);
    push_member(&mut out, k1, v1);
    out.push(0x2c);
    push_member(&mut out, k2, v2);
    out.push(0x7d);
    proof {
        assert(out@ =~= spec_json_object2(
            k1.spec_bytes(),
            v1.spec_bytes(),
            k2.spec_bytes(),
            v2.spec_bytes(),
        ));
    }
    out
}

/// The top-level string field named `key` of the JSON document `body`,
/// as `serde_json` reads it: `Some` exactly when `body` is valid JSON
/// whose top level is an object holding a string under `key`.
pub uninterp spec fn spec_json_str_field(body: Seq<u8>, key: Seq<char>) -> Option<Seq<char>>;

/// The top-level boolean field named `key` of the JSON document
/// `body`, as `serde_json` reads it.
pub uninterp spec fn spec_json_bool_field(body: Seq<u8>, key: Seq<char>) -> Option<bool>;

/// Relies on `serde_json::from_slice`, `Value::get` and
/// `Value::as_str`: the result is the top-level string field of the
/// document under the given key, a function of the bytes and the key
/// alone; `None` when the document does not parse, its top level is
/// not an object, the field is absent, or it is not a string.
#[verifier::external_body]
pub(crate) fn json_str_field(body: &[u8], key: &str) -> (r: Option<String>)
    ensures
        match r {
            Some(s) => spec_json_str_field(body@, key@) == Some(s@),
            None => spec_json_str_field(body@, key@) is None,
        },
{
    match serde_json::from_slice::<serde_json::Value>(body) {
        Ok(v) => match v.get(key) {
            Some(f) => f.as_str().map(|s| s.to_string()),
            None => None,
        },
        Err(_) => None,
    }
}

/// Relies on `serde_json::from_slice`, `Value::get` and
/// `Value::as_bool`: the result is the top-level boolean field of the
/// document under the given key, a function of the bytes and the key
/// alone; `None` when the document does not parse, its top level is
/// not an object, the field is absent, or it is not a boolean.
#[verifier::external_body]
pub(crate) fn json_bool_field(body: &[u8], key: &str) -> (r: Option<bool>)
    ensures
        r == spec_json_bool_field(body@, key@),
{
    match serde_json::from_slice::<serde_json::Value>(body) {
        Ok(v) => match v.get(key) {
            Some(f) => f.as_bool(),
            None => None,
        },
        Err(_) => None,
    }
}

/// The character of a decimal digit.
pub open spec fn spec_digit_char(d: int) -> char
    recommends
        0 <= d < 10,
{
    if d == 0 {
        '0'
    } else if d == 1 {
        '1'
    } else if d == 2 {
        '2'
    } else if d == 3 {
        '3'
    } else if d == 4 {
        '4'
    } else if d == 5 {
        '5'
    } else if d == 6 {
        '6'
    } else if d == 7 {
        '7'
    } else if d == 8 {
        '8'
    } else {
        '9'
    }
}

/// The decimal text of a non-negative integer, without leading zeros.
pub open spec fn spec_decimal(n: int) -> Seq<char>
    recommends
        n >= 0,
    decreases n,
{
    if n < 10 {
        seq![spec_digit_char(n)]
    } else {
        spec_decimal(n / 10).push(spec_digit_char(n % 10))
    }
}

/// Append the decimal text of `n` to `out`.
fn push_decimal(out: &mut String, n: u16)
    ensures
        final(out)@ == old(out)@ + spec_decimal(n as int),
    decreases n,
{
    if n >= 10 {
        push_decimal(out, n / 10);
    }
    let d = n % 10;
    let digit: &str = if d == 0 {
        "0"
    } else if d == 1 {
        "1"
    } else if d == 2 {
        "2"
    } else if d == 3 {
        "3"
    } else if d == 4 {
        "4"
    } else if d == 5 {
        "5"
    } else if d == 6 {
        "6"
    } else if d == 7 {
        "7"
    } else if d == 8 {
        "8"
    } else {
        "9"
    };
    proof {
        reveal_strlit("0");
        reveal_strlit("1");
        reveal_strlit("2");
        reveal_strlit("3");
        reveal_strlit("4");
        reveal_strlit("5");
        reveal_strlit("6");
        reveal_strlit("7");
        reveal_strlit("8");
        reveal_strlit("9");
        assert(digit@ =~= seq![spec_digit_char(d as int)]);
    }
    out.append(digit);
    proof {
        assert(out@ =~= old(out)@ + spec_decimal(n as int));
    }
}

/// The text of a failure envelope: the decoded `message` field when
/// the body carries one, else a fallback naming the raw HTTP status.
pub open spec fn spec_failure_text(status: int, body: Seq<u8>) -> Seq<char> {
    match spec_json_str_field(body, "message"@) {
        Some(m) => m,
        None => "HTTP status "@ + spec_decimal(status),
    }
}

/// Decode the `message` field of a failure envelope, falling back to
/// the raw HTTP status code when the body carries no such field.
pub fn failure_text(status: u16, body: &[u8]) -> (r: String)
    ensures
        r@ == spec_failure_text(status as int, body@),
{
    match json_str_field(body, "message") {
        Some(m) => m,
        None => {
            let mut out = String::from_str("HTTP status ");
            push_decimal(&mut out, status);
            out
        },
    }
}

} // verus!
