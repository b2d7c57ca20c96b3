//! The JSON piece of the protocol that the library frames itself: the `Connect` payload.

use vstd::prelude::*;
use crate::error::Error;
use vstd::utf8::encode_scalar;

verus! {

/// The lower-case hexadecimal digit of a value below 16, as an ASCII byte.
pub open spec fn hex_digit(v: int) -> u8 {
    if v < 10 {
        (48 + v) as u8
    } else {
        (87 + v) as u8
    }
}

/// How a JSON string writes one character: `"` and `\` behind a backslash; backspace, tab,
/// line feed, form feed and carriage return as `\b`, `\t`, `\n`, `\f`, `\r`; any other
/// control character below U+0020 as `\u00` and two lower-case hex digits; every other
/// character as its UTF-8 bytes.
pub open spec fn json_char_text(c: char) -> Seq<u8> {
    if c == '"' {
        seq![92u8, 34u8]
    } else if c == '\\' {
        seq![92u8, 92u8]
    } else if c == '\u{8}' {
        seq![92u8, 98u8]
    } else if c == '\t' {
        seq![92u8, 116u8]
    } else if c == '\n' {
        seq![92u8, 110u8]
    } else if c == '\u{c}' {
        seq![92u8, 102u8]
    } else if c == '\r' {
        seq![92u8, 114u8]
    } else if (c as int) < 32 {
        seq![92u8, 117u8, 48u8, 48u8, hex_digit(c as int / 16), hex_digit(c as int % 16)]
    } else {
        encode_scalar(c as u32)
    }
}

/// The escaped characters of a JSON string, one after another.
pub open spec fn json_escaped(s: Seq<char>) -> Seq<u8>
    decreases s.len(),
{
    if s.len() == 0 {
        Seq::<u8>::empty()
    } else {
        json_char_text(s[0]) + json_escaped(s.drop_first())
    }
}

/// The JSON text of the string `s` as UTF-8 bytes: its escaped characters between quotes.
pub open spec fn json_string_encoding(s: Seq<char>) -> Seq<u8> {
    seq![34u8] + json_escaped(s) + seq![34u8]
}

/// Serializes a string as a JSON string (`serde_json::to_vec` on a `str`, which writes it with
/// the compact formatter's `format_escaped_str`): the escaped text between quotes. Writing a
/// string into a `Vec` does not fail.
#[verifier::external_body]
fn encode_json_string(s: &str) -> (r: Result<Vec<u8>, String>)
    ensures
        r is Ok,
        r matches Ok(b) ==> b@ == json_string_encoding(s@),
{
    serde_json::to_vec(s).map_err(|e| e.to_string())
}

/// The bytes of `{"authToken":` that open the `Connect` payload.
pub open spec fn auth_token_prefix() -> Seq<u8> {
    seq![
        123u8, 34u8, 97u8, 117u8, 116u8, 104u8, 84u8, 111u8, 107u8, 101u8, 110u8, 34u8, 58u8,
    ]
}

/// The `Connect` payload for an auth token: the JSON object `{"authToken": <token>}`.
pub open spec fn connect_payload_bytes(auth_token: Seq<char>) -> Seq<u8> {
    auth_token_prefix() + json_string_encoding(auth_token) + seq![125u8]
}

/// Builds the JSON payload of the `Connect` message: `{"authToken":"<SVCUID>"}`.
pub fn connect_payload(auth_token: &str) -> (r: Result<Vec<u8>, Error>)
    ensures
        r matches Ok(b) && b@ == connect_payload_bytes(auth_token@),
{
    let mut encoded = match encode_json_string(auth_token) {
        Ok(b) => b,
        Err(text) => {
            return Err(Error::Payload(text));
        },
    };
    let mut out: Vec<u8> = vec![123u8, 34u8, 97u8, 117u8, 116u8, 104u8, 84u8, 111u8, 107u8, 101u8, 110u8, 34u8, 58u8];
    assert(out@ =~= auth_token_prefix());
    out.append(&mut encoded);
    out.push(125u8);
    assert(out@ =~= connect_payload_bytes(auth_token@));
    Ok(out)
}

} // verus!
