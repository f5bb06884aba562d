//! Putting `path:line` on the terminal's clipboard with the OSC 52 escape
//! sequence, whose payload is standard base64.
use crate::chars::{decimal_chars, push_chars, push_str, string_of};
use crate::chars;
use base64::Engine;
use vstd::prelude::*;
use vstd::string::StringSliceAdditionalSpecFns;

verus! {

/// The character of the standard base64 alphabet for a 6-bit value.
pub open spec fn b64_char(v: int) -> char {
    if v < 26 {
        (v + 'A' as int) as char
    } else if v < 52 {
        (v - 26 + 'a' as int) as char
    } else if v < 62 {
        (v - 52 + '0' as int) as char
    } else if v == 62 {
        '+'
    } else {
        '/'
    }
}

/// Standard base64 (RFC 4648, with `=` padding): each three bytes become four
/// characters.
pub open spec fn base64(b: Seq<u8>) -> Seq<char>
    decreases b.len(),
{
    if b.len() == 0 {
        seq![]
    } else if b.len() == 1 {
        seq![b64_char((b[0] / 4) as int), b64_char((b[0] % 4) * 16), '=', '=']
    } else if b.len() == 2 {
        seq![
            b64_char((b[0] / 4) as int),
            b64_char((b[0] % 4) * 16 + b[1] / 16),
            b64_char((b[1] % 16) * 4),
            '=',
        ]
    } else {
        seq![
            b64_char((b[0] / 4) as int),
            b64_char((b[0] % 4) * 16 + b[1] / 16),
            b64_char((b[1] % 16) * 4 + b[2] / 64),
            b64_char((b[2] % 64) as int),
        ] + base64(b.skip(3))
    }
}

/// Encodes `bytes` with the `base64` crate's `STANDARD` engine, which the crate
/// documents as the standard alphabet with padding; the contract states that
/// encoding in full.
#[verifier::external_body]
fn base64_standard(bytes: &[u8]) -> (r: String)
    ensures
        r@ == base64(bytes@),
{
    base64::engine::general_purpose::STANDARD.encode(bytes)
}

/// The OSC 52 sequence that sets the clipboard to `text`: `ESC ] 52 ; c ;`, the
/// base64 of its UTF-8 bytes, and `BEL`.
pub open spec fn spec_osc52(text: Seq<char>) -> Seq<char> {
    seq!['\u{1b}', ']', '5', '2', ';', 'c', ';'] + base64(vstd::utf8::encode_utf8(text)) + seq![
        '\u{7}',
    ]
}

/// The OSC 52 sequence that puts `text` on the clipboard.
pub fn osc52_sequence(text: &str) -> (r: String)
    ensures
        r@ == spec_osc52(text@),
{
    let encoded = base64_standard(text.as_bytes());
    let mut v: Vec<char> = Vec::new();
    v.push('\u{1b}');
    v.push(']');
    v.push('5');
    v.push('2');
    v.push(';');
    v.push('c');
    v.push(';');
    push_str(&mut v, encoded.as_str());
    v.push('\u{7}');
    assert(v@ =~= spec_osc52(text@));
    string_of(&v)
}

/// `<prefix><path>:<line>`.
pub open spec fn spec_location(prefix: Seq<char>, path: Seq<char>, line: u32) -> Seq<char> {
    prefix + path + seq![':'] + chars::decimal(line as nat)
}

fn location(prefix: &str, path: &str, line: u32) -> (r: String)
    ensures
        r@ == spec_location(prefix@, path@, line),
{
    let mut v: Vec<char> = Vec::new();
    push_str(&mut v, prefix);
    push_str(&mut v, path);
    v.push(':');
    let d = decimal_chars(line as u64);
    push_chars(&mut v, &d);
    assert(v@ =~= spec_location(prefix@, path@, line));
    string_of(&v)
}

/// What is copied for `path` at `line`: ` <path>:<line>`.
pub fn copy_payload(path: &str, line: u32) -> (r: String)
    ensures
        r@ == spec_location(" "@, path@, line),
{
    location(" ", path, line)
}

/// The confirmation shown after copying: `Copied: ` and the payload when the
/// sequence reached the terminal, else a note that writing failed.
pub fn copy_message(payload: &str, written: bool) -> (r: String)
    ensures
        written ==> r@ == "Copied: "@ + payload@,
        !written ==> r@ == "OSC 52: failed to write to /dev/tty"@,
{
    if written {
        let mut v: Vec<char> = Vec::new();
        push_str(&mut v, "Copied: ");
        push_str(&mut v, payload);
        string_of(&v)
    } else {
        "OSC 52: failed to write to /dev/tty".to_owned()
    }
}

} // verus!
