//! The model of an HTTP exchange with the child process, and the fixed
//! request/response texts of the control protocol: the prompt payload that is
//! posted to the child and the messages built from its health reply.

use vstd::prelude::*;
use vstd::string::StrSliceExecFns;
use vstd::string::StringExecFns;
use crate::digits::spec_digit_char;

verus! {

/// What the host observed when it issued one HTTP request to the child.
///
/// The supervisor never performs network I/O itself: the host makes the
/// request and hands the outcome over in this form.
#[derive(Debug)]
pub enum HttpReply {
    /// The request failed before any status was received (connection
    /// refused, timeout, ...), with the transport error's description.
    Failed(String),
    /// A response arrived with this status code; reading its body as text
    /// may itself have failed.
    Response { status: u16, body: Result<String, String> },
}

/// An HTTP status code in the success range.
pub open spec fn spec_status_success(status: u16) -> bool {
    200 <= status < 300
}

/// Whether `status` counts as an HTTP success.
pub fn status_is_success(status: u16) -> (r: bool)
    ensures
        r == spec_status_success(status),
{
    200 <= status && status < 300
}

/// The fixed local endpoint the health check probes.
pub fn health_url() -> (r: String)
    ensures
        r@ == "http://localhost:8080/api/health"@,
{
    "http://localhost:8080/api/health".to_owned()
}

/// The fixed local endpoint the prompt payload is posted to.
pub fn prompt_url() -> (r: String)
    ensures
        r@ == "http://localhost:8080/api/prompt"@,
{
    "http://localhost:8080/api/prompt".to_owned()
}

/// The view of an optional string.
pub open spec fn opt_text(o: Option<String>) -> Option<Seq<char>> {
    match o {
        Some(s) => Some(s@),
        None => None,
    }
}

/// The success message of a health check: echoes the status field reported
/// by the child when one was present, and is generic otherwise.
pub open spec fn health_message_text(status_field: Option<Seq<char>>) -> Seq<char> {
    match status_field {
        Some(s) => "OpenCode health check: "@ + s,
        None => "OpenCode health check successful"@,
    }
}

/// Builds the health-check success message from the status field extracted
/// from the child's reply body.
pub fn health_message(status_field: Option<String>) -> (r: String)
    ensures
        r@ == health_message_text(opt_text(status_field)),
{
    match status_field {
        Some(s) => "OpenCode health check: ".to_owned().concat(s.as_str()),
        None => "OpenCode health check successful".to_owned(),
    }
}

/// The lower-case hexadecimal digit character for `d` (meaningful for
/// `d < 16`).
pub open spec fn spec_hex_char(d: nat) -> char {
    if d < 10 {
        spec_digit_char(d)
    } else if d == 10 {
        'a'
    } else if d == 11 {
        'b'
    } else if d == 12 {
        'c'
    } else if d == 13 {
        'd'
    } else if d == 14 {
        'e'
    } else {
        'f'
    }
}

/// How one character appears inside a JSON string literal: quotes,
/// backslashes and control characters are escaped, every other character
/// stands for itself.
pub open spec fn escaped_char_text(c: char) -> Seq<char> {
    if c == '"' {
        seq!['\\', '"']
    } else if c == '\\' {
        seq!['\\', '\\']
    } else if c == '\u{08}' {
        seq!['\\', 'b']
    } else if c == '\t' {
        seq!['\\', 't']
    } else if c == '\n' {
        seq!['\\', 'n']
    } else if c == '\u{0c}' {
        seq!['\\', 'f']
    } else if c == '\r' {
        seq!['\\', 'r']
    } else if (c as nat) < 32 {
        seq!['\\', 'u', '0', '0', spec_hex_char((c as nat) / 16), spec_hex_char((c as nat) % 16)]
    } else {
        seq![c]
    }
}

/// The JSON escaping of the first `i` characters of `s`.
pub open spec fn escaped_prefix(s: Seq<char>, i: int) -> Seq<char>
    decreases i,
{
    if i <= 0 {
        Seq::empty()
    } else {
        escaped_prefix(s, i - 1) + escaped_char_text(s[i - 1])
    }
}

/// The JSON escaping of a whole character sequence.
pub open spec fn escaped_text(s: Seq<char>) -> Seq<char> {
    escaped_prefix(s, s.len() as int)
}

/// The JSON body posted to the child's prompt endpoint: an object with a
/// single `prompt` member holding the escaped prompt text.
pub open spec fn prompt_payload_text(prompt: Seq<char>) -> Seq<char> {
    "{\"prompt\":\""@ + escaped_text(prompt) + "\"}"@
}

fn hex_char(d: u64) -> (c: char)
    requires
        d < 16,
    ensures
        c == spec_hex_char(d as nat),
{
    if d == 0 {
        '0'
    } else if d == 1 {
        '1'
    } else if d == 2 {
        '2'
    } else if d == 3 {
        '3'
    } else if d == 4 {
        '4'
    } else if d == 5 {
        '5'
    } else if d == 6 {
        '6'
    } else if d == 7 {
        '7'
    } else if d == 8 {
        '8'
    } else if d == 9 {
        '9'
    } else if d == 10 {
        'a'
    } else if d == 11 {
        'b'
    } else if d == 12 {
        'c'
    } else if d == 13 {
        'd'
    } else if d == 14 {
        'e'
    } else {
        'f'
    }
}

fn push_escaped_char(s: &mut String, c: char)
    ensures
        final(s)@ == old(s)@ + escaped_char_text(c),
{
    if c == '"' {
        s.push('\\');
        s.push('"');
    } else if c == '\\' {
        s.push('\\');
        s.push('\\');
    } else if c == '\u{08}' {
        s.push('\\');
        s.push('b');
    } else if c == '\t' {
        s.push('\\');
        s.push('t');
    } else if c == '\n' {
        s.push('\\');
        s.push('n');
    } else if c == '\u{0c}' {
        s.push('\\');
        s.push('f');
    } else if c == '\r' {
        s.push('\\');
        s.push('r');
    } else if (c as u32) < 32 {
        s.push('\\');
        s.push('u');
        s.push('0');
        s.push('0');
        let code: u64 = (c as u32) as u64;
        let hi = hex_char(code / 16);
        s.push(hi);
        let lo = hex_char(code % 16);
        s.push(lo);
    } else {
        s.push(c);
    }
    proof {
        assert(s@ =~= old(s)@ + escaped_char_text(c));
    }
}

fn push_escaped(s: &mut String, t: &str)
    ensures
        final(s)@ == old(s)@ + escaped_text(t@),
{
    let len: usize = t.unicode_len();
    let mut i: usize = 0;
    while i < len
        invariant
            len == t@.len(),
            i <= len,
            s@ == old(s)@ + escaped_prefix(t@, i as int),
        decreases len - i,
    {
        let c = t.get_char(i);
        push_escaped_char(s, c);
        proof {
            assert(s@ =~= old(s)@ + escaped_prefix(t@, i as int + 1));
        }
        i = i + 1;
    }
}

/// Builds the JSON payload `{"prompt": <text>}` for the child's prompt
/// endpoint, escaping the prompt text as JSON requires.
pub fn prompt_payload(prompt: &str) -> (r: String)
    ensures
        r@ == prompt_payload_text(prompt@),
{
    let mut s = "{\"prompt\":\"".to_owned();
    push_escaped(&mut s, prompt);
    s.append("\"}");
    proof {
        assert(s@ =~= prompt_payload_text(prompt@));
    }
    s
}

} // verus!
