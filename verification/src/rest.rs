//! The REST side of the session lifecycle: the exact JSON bodies of the
//! three lifecycle calls, and the decisions taken on their responses.
//!
//! The transport itself lives outside the crate; it hands back the parsed
//! envelope fields (`code`, `message`, data) as plain values.

use vstd::prelude::*;
use vstd::string::StringExecFns;

use crate::errors::LiveError;
use crate::text::{dec_i64, push_char, spec_dec_chars, spec_hex_digit_char};

verus! {

/// How one character is written inside a JSON string literal: quote,
/// backslash and control characters are escaped the way the canonical
/// JSON serializer writes them; everything else stands as itself.
pub open spec fn spec_json_escape_char(c: char) -> Seq<char> {
    if c == '"' {
        seq!['\\', '"']
    } else if c == '\\' {
        seq!['\\', '\\']
    } else if c == '\u{8}' {
        seq!['\\', 'b']
    } else if c == '\t' {
        seq!['\\', 't']
    } else if c == '\n' {
        seq!['\\', 'n']
    } else if c == '\u{c}' {
        seq!['\\', 'f']
    } else if c == '\r' {
        seq!['\\', 'r']
    } else if (c as int) < 32 {
        seq!['\\', 'u', '0', '0', spec_hex_digit_char((c as int) / 16), spec_hex_digit_char(
            (c as int) % 16,
        )]
    } else {
        seq![c]
    }
}

/// The body of a JSON string literal holding the given text.
pub open spec fn spec_json_escaped(s: Seq<char>) -> Seq<char>
    decreases s.len(),
{
    if s.len() == 0 {
        Seq::empty()
    } else {
        spec_json_escaped(s.drop_last()) + spec_json_escape_char(s.last())
    }
}

fn append_json_escaped_char(out: &mut String, c: char)
    ensures
        final(out)@ == old(out)@ + spec_json_escape_char(c),
{
    let code = c as u32;
    if c == '"' {
        push_char(out, '\\');
        push_char(out, '"');
    } else if c == '\\' {
        push_char(out, '\\');
        push_char(out, '\\');
    } else if code == 8 {
        push_char(out, '\\');
        push_char(out, 'b');
    } else if code == 9 {
        push_char(out, '\\');
        push_char(out, 't');
    } else if code == 10 {
        push_char(out, '\\');
        push_char(out, 'n');
    } else if code == 12 {
        push_char(out, '\\');
        push_char(out, 'f');
    } else if code == 13 {
        push_char(out, '\\');
        push_char(out, 'r');
    } else if code < 32 {
        push_char(out, '\\');
        push_char(out, 'u');
        push_char(out, '0');
        push_char(out, '0');
        let hi = (code / 16) as u8;
        let lo = (code % 16) as u8;
        push_char(out, if hi < 10 { (48 + hi) as char } else { (87 + hi) as char });
        push_char(out, if lo < 10 { (48 + lo) as char } else { (87 + lo) as char });
    } else {
        push_char(out, c);
    }
    assert(final(out)@ =~= old(out)@ + spec_json_escape_char(c));
}

/// Appends `s` escaped as the body of a JSON string literal.
fn append_json_escaped(out: &mut String, s: &str)
    ensures
        final(out)@ == old(out)@ + spec_json_escaped(s@),
{
    let n = s.unicode_len();
    let mut i: usize = 0;
    while i < n
        invariant
            n == s@.len(),
            i <= n,
            out@ =~= old(out)@ + spec_json_escaped(s@.take(i as int)),
        decreases n - i,
    {
        let c = s.get_char(i);
        append_json_escaped_char(out, c);
        i = i + 1;
        proof {
            assert(s@.take(i as int).drop_last() =~= s@.take(i as int - 1));
            assert(out@ =~= old(out)@ + spec_json_escaped(s@.take(i as int)));
        }
    }
    proof {
        assert(s@.take(n as int) =~= s@);
    }
}

/// The body of the session-start call: `{"code":…,"app_id":…}`.
pub open spec fn spec_start_body(code: Seq<char>, app_id: int) -> Seq<char> {
    "{\"code\":\""@ + spec_json_escaped(code) + "\",\"app_id\":"@ + spec_dec_chars(app_id) + "}"@
}

/// Builds the JSON body of the session-start call.
pub fn start_request_body(code: &str, app_id: i64) -> (r: String)
    ensures
        r@ == spec_start_body(code@, app_id as int),
{
    let mut out = String::new();
    out.append("{\"code\":\"");
    append_json_escaped(&mut out, code);
    out.append("\",\"app_id\":");
    let n = dec_i64(app_id);
    out.append(n.as_str());
    out.append("}");
    proof {
        assert(out@ =~= spec_start_body(code@, app_id as int));
    }
    out
}

/// The body of the keep-alive call: `{"game_id":…}`.
pub open spec fn spec_heartbeat_body(game_id: Seq<char>) -> Seq<char> {
    "{\"game_id\":\""@ + spec_json_escaped(game_id) + "\"}"@
}

/// Builds the JSON body of the keep-alive call.
pub fn heartbeat_request_body(game_id: &str) -> (r: String)
    ensures
        r@ == spec_heartbeat_body(game_id@),
{
    let mut out = String::new();
    out.append("{\"game_id\":\"");
    append_json_escaped(&mut out, game_id);
    out.append("\"}");
    proof {
        assert(out@ =~= spec_heartbeat_body(game_id@));
    }
    out
}

/// The body of the session-end call: `{"app_id":…,"game_id":…}`.
pub open spec fn spec_end_body(app_id: int, game_id: Seq<char>) -> Seq<char> {
    "{\"app_id\":"@ + spec_dec_chars(app_id) + ",\"game_id\":\""@ + spec_json_escaped(game_id)
        + "\"}"@
}

/// Builds the JSON body of the session-end call.
pub fn end_request_body(app_id: i64, game_id: &str) -> (r: String)
    ensures
        r@ == spec_end_body(app_id as int, game_id@),
{
    let mut out = String::new();
    out.append("{\"app_id\":");
    let n = dec_i64(app_id);
    out.append(n.as_str());
    out.append(",\"game_id\":\"");
    append_json_escaped(&mut out, game_id);
    out.append("\"}");
    proof {
        assert(out@ =~= spec_end_body(app_id as int, game_id@));
    }
    out
}

/// Decides on a session-start response envelope: a non-zero `code` is
/// fatal and becomes the API error carrying that code and message.
pub fn accept_start_code(code: i64, message: String) -> (r: Result<(), LiveError>)
    ensures
        code == 0 ==> r is Ok,
        code != 0 ==> r == Err::<(), LiveError>(LiveError::Api { code, message }),
{
    if code == 0 {
        Ok(())
    } else {
        Err(LiveError::Api { code, message })
    }
}

/// Decides on a keep-alive or session-end response envelope: a non-zero
/// `code` only warrants a logged warning, never an error.
pub fn keepalive_warns(code: i64) -> (r: bool)
    ensures
        r == (code != 0),
{
    code != 0
}

} // verus!
