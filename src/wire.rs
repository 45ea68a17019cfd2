//! The JSON body that carries one reading to the remote endpoint.
use vstd::prelude::*;
use vstd::string::*;
use crate::reading::Reading;
use crate::text::{decimal, digit_char, digit_str, push_decimal, push_signed_decimal, signed_decimal};

verus! {

/// The escape sequence of one character inside a JSON string: quote,
/// backslash and the control characters are escaped, all else stands as is.
pub open spec fn json_escape_char(c: char) -> Seq<char> {
    if c == '"' {
        seq!['\\', '"']
    } else if c == '\\' {
        seq!['\\', '\\']
    } else if c == '\u{8}' {
        seq!['\\', 'b']
    } else if c == '\t' {
        seq!['\\', 't']
    } else if c == '\n' {
        seq!['\\', 'n']
    } else if c == '\u{c}' {
        seq!['\\', 'f']
    } else if c == '\r' {
        seq!['\\', 'r']
    } else if (c as u32) < 0x20 {
        seq!['\\', 'u', '0', '0', hex_digit_char((c as u32) / 16), hex_digit_char((c as u32) % 16)]
    } else {
        seq![c]
    }
}

/// A lower-case hexadecimal digit.
pub open spec fn hex_digit_char(d: u32) -> char {
    if d < 10 {
        digit_char(d as nat)
    } else if d == 10 {
        'a'
    } else if d == 11 {
        'b'
    } else if d == 12 {
        'c'
    } else if d == 13 {
        'd'
    } else if d == 14 {
        'e'
    } else {
        'f'
    }
}

pub open spec fn json_escape(s: Seq<char>) -> Seq<char>
    decreases s.len(),
{
    if s.len() == 0 {
        Seq::<char>::empty()
    } else {
        json_escape(s.drop_last()) + json_escape_char(s.last())
    }
}

/// `s` as a JSON string literal.
pub open spec fn json_quoted(s: Seq<char>) -> Seq<char> {
    seq!['"'] + json_escape(s) + seq!['"']
}

/// Relies on `serde_json::to_string` for a `str`: the string in double quotes
/// with quote, backslash and control characters escaped. Writing into memory
/// cannot fail, so the error arm is never taken.
#[verifier::external_body]
fn json_string(s: &str) -> (r: String)
    ensures
        r@ == json_quoted(s@),
{
    match serde_json::to_string(s) {
        Ok(t) => t,
        Err(_) => String::new(),
    }
}

/// A value in hundredths written as a JSON number the shortest way that
/// keeps one digit after the point: 2150 is `21.5`, 101325 is `1013.25`,
/// 2100 is `21.0` and -5 is `-0.05`.
pub open spec fn hundredths_text(v: int) -> Seq<char> {
    let a = if v < 0 { -v } else { v };
    let sign = if v < 0 { seq!['-'] } else { Seq::<char>::empty() };
    let whole = decimal((a / 100) as nat);
    let frac = a % 100;
    let tail = if frac % 10 == 0 {
        seq![digit_char((frac / 10) as nat)]
    } else {
        seq![digit_char((frac / 10) as nat), digit_char((frac % 10) as nat)]
    };
    sign + whole + seq!['.'] + tail
}

pub open spec fn bool_text(b: bool) -> Seq<char> {
    if b {
        "true"@
    } else {
        "false"@
    }
}

pub open spec fn optional_count_text(v: Option<u16>) -> Seq<char> {
    match v {
        Some(n) => decimal(n as nat),
        None => "null"@,
    }
}

/// The body posted for a reading: one JSON object with the fields in this
/// order and no white space.
pub open spec fn payload_text(r: Reading) -> Seq<char> {
    "{\"temperature\":"@ + hundredths_text(r.temperature as int)
        + ",\"humidity\":"@ + hundredths_text(r.humidity as int)
        + ",\"pressure\":"@ + hundredths_text(r.pressure as int)
        + ",\"voc\":"@ + optional_count_text(r.voc)
        + ",\"time_synced\":"@ + bool_text(r.time_synced)
        + ",\"timestamp_unix_s\":"@ + signed_decimal(r.timestamp_unix_s as int)
        + ",\"timezone\":"@ + json_quoted(r.timezone@)
        + "}"@
}

fn push_hundredths(s: &mut String, v: i32)
    ensures
        final(s)@ == old(s)@ + hundredths_text(v as int),
{
    let wide = v as i64;
    let a: u64 = if wide < 0 { (-wide) as u64 } else { wide as u64 };
    if wide < 0 {
        proof { reveal_strlit("-"); }
        s.append("-");
    }
    push_decimal(s, a / 100);
    proof { reveal_strlit("."); }
    s.append(".");
    let frac = a % 100;
    s.append(digit_str(frac / 10));
    if frac % 10 != 0 {
        s.append(digit_str(frac % 10));
    }
    assert(s@ =~= old(s)@ + hundredths_text(v as int));
}

/// Writes the body posted for `r`.
pub fn encode_payload(r: &Reading) -> (body: String)
    ensures
        body@ == payload_text(*r),
{
    let mut s = String::new();
    s.append("{\"temperature\":");
    push_hundredths(&mut s, r.temperature);
    s.append(",\"humidity\":");
    push_hundredths(&mut s, r.humidity);
    s.append(",\"pressure\":");
    push_hundredths(&mut s, r.pressure);
    s.append(",\"voc\":");
    match r.voc {
        Some(n) => push_decimal(&mut s, n as u64),
        None => s.append("null"),
    }
    s.append(",\"time_synced\":");
    if r.time_synced {
        s.append("true");
    } else {
        s.append("false");
    }
    s.append(",\"timestamp_unix_s\":");
    push_signed_decimal(&mut s, r.timestamp_unix_s);
    s.append(",\"timezone\":");
    let quoted = json_string(r.timezone.as_str());
    s.append(quoted.as_str());
    s.append("}");
    assert(s@ =~= payload_text(*r));
    s
}

} // verus!
