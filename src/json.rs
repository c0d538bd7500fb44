//! The JSON text of errors and of the `{payload, error}` envelope.
use vstd::prelude::*;
use crate::error::{AcmError, kind_name};
use crate::text::{hex_char, hex_digit, string_from_chars};

verus! {

/// How JSON writes one character inside a string literal: quote, backslash
/// and control characters are escaped (the common ones by a letter, the rest
/// as `\u00XX`), everything else stands for itself.
pub open spec fn escape_char(c: char) -> Seq<char> {
    if c == '"' {
        seq!['\\', '"']
    } else if c == '\\' {
        seq!['\\', '\\']
    } else if c == '\x08' {
        seq!['\\', 'b']
    } else if c == '\t' {
        seq!['\\', 't']
    } else if c == '\n' {
        seq!['\\', 'n']
    } else if c == '\x0c' {
        seq!['\\', 'f']
    } else if c == '\r' {
        seq!['\\', 'r']
    } else if (c as u32) < 0x20 {
        seq!['\\', 'u', '0', '0', hex_char((c as u32 / 16) as nat), hex_char((c as u32 % 16) as nat)]
    } else {
        seq![c]
    }
}

/// The escaped characters of a string, in order.
pub open spec fn escaped(s: Seq<char>) -> Seq<char>
    decreases s.len(),
{
    if s.len() == 0 {
        Seq::empty()
    } else {
        escaped(s.drop_last()) + escape_char(s.last())
    }
}

/// The JSON literal of a string: quoted and escaped.
pub open spec fn json_string_of(s: Seq<char>) -> Seq<char> {
    seq!['"'] + escaped(s) + seq!['"']
}

fn push_escaped(out: &mut Vec<char>, c: char)
    ensures
        final(out)@ == old(out)@ + escape_char(c),
{
    if c == '"' {
        out.push('\\');
        out.push('"');
    } else if c == '\\' {
        out.push('\\');
        out.push('\\');
    } else if c == '\x08' {
        out.push('\\');
        out.push('b');
    } else if c == '\t' {
        out.push('\\');
        out.push('t');
    } else if c == '\n' {
        out.push('\\');
        out.push('n');
    } else if c == '\x0c' {
        out.push('\\');
        out.push('f');
    } else if c == '\r' {
        out.push('\\');
        out.push('r');
    } else if (c as u32) < 0x20 {
        let code = c as u32;
        out.push('\\');
        out.push('u');
        out.push('0');
        out.push('0');
        out.push(hex_digit((code / 16) as u8));
        out.push(hex_digit((code % 16) as u8));
    } else {
        out.push(c);
    }
    assert(final(out)@ =~= old(out)@ + escape_char(c));
}

/// The JSON literal of `s`.
pub fn json_string(s: &str) -> (r: String)
    ensures
        r@ == json_string_of(s@),
{
    let n = s.unicode_len();
    let mut chars: Vec<char> = Vec::new();
    chars.push('"');
    let mut i: usize = 0;
    assert(s@.take(0) =~= Seq::<char>::empty());
    while i < n
        invariant
            n == s@.len(),
            i <= n,
            chars@ == seq!['"'] + escaped(s@.take(i as int)),
        decreases n - i,
    {
        let c = s.get_char(i);
        push_escaped(&mut chars, c);
        assert(s@.take(i + 1).drop_last() =~= s@.take(i as int));
        assert(s@.take(i + 1).last() == c);
        assert(chars@ =~= seq!['"'] + escaped(s@.take(i + 1)));
        i = i + 1;
    }
    chars.push('"');
    assert(s@.take(n as int) =~= s@);
    assert(chars@ =~= json_string_of(s@));
    string_from_chars(&chars)
}

/// `null`, or the JSON literal of the string.
pub open spec fn json_option(s: Option<Seq<char>>) -> Seq<char> {
    match s {
        Some(t) => json_string_of(t),
        None => "null"@,
    }
}

/// The JSON object of an error: `{"kind":...,"message":...,"cause":...}`.
pub open spec fn error_json(kind: Seq<char>, message: Seq<char>, cause: Option<Seq<char>>) -> Seq<char> {
    "{\"kind\":"@ + json_string_of(kind) + ",\"message\":"@ + json_string_of(message)
        + ",\"cause\":"@ + json_option(cause) + "}"@
}

/// The view of an optional string.
pub open spec fn view_option(s: Option<String>) -> Option<Seq<char>> {
    match s {
        Some(t) => Some(t@),
        None => None,
    }
}

/// The JSON object of `e`.
pub fn to_json(e: &AcmError) -> (r: String)
    ensures
        r@ == error_json(kind_name(e.kind), e.message@, view_option(e.cause)),
{
    let mut out = String::from_str("{\"kind\":");
    let kind = json_string(e.kind.name().as_str());
    out.append(kind.as_str());
    out.append(",\"message\":");
    let message = json_string(e.message.as_str());
    out.append(message.as_str());
    out.append(",\"cause\":");
    match &e.cause {
        Some(c) => {
            let cause = json_string(c.as_str());
            out.append(cause.as_str());
        },
        None => {
            out.append("null");
        },
    }
    out.append("}");
    out
}

/// The envelope of an answer: `{"payload":...,"error":...}`, with `null` for
/// whichever is absent.
pub open spec fn envelope_json(payload: Option<Seq<char>>, error: Option<Seq<char>>) -> Seq<char> {
    "{\"payload\":"@ + (match payload { Some(p) => p, None => "null"@ })
        + ",\"error\":"@ + (match error { Some(e) => e, None => "null"@ }) + "}"@
}

/// The envelope around an already serialised payload, or around an error.
pub fn envelope(payload: Option<&str>, error: Option<&AcmError>) -> (r: String)
    ensures
        r@ == envelope_json(
            match payload { Some(p) => Some(p@), None => None },
            match error { Some(e) => Some(error_json(kind_name(e.kind), e.message@, view_option(e.cause))), None => None },
        ),
{
    let mut out = String::from_str("{\"payload\":");
    match payload {
        Some(p) => out.append(p),
        None => out.append("null"),
    }
    out.append(",\"error\":");
    match error {
        Some(e) => {
            let j = to_json(e);
            out.append(j.as_str());
        },
        None => out.append("null"),
    }
    out.append("}");
    out
}

} // verus!
