//! What the client makes of an HTTP response before decoding it: whether the
//! status is a success, the message of a failed request, the size limit of
//! text bodies, and the rendering of build logs.
use vstd::prelude::*;
use crate::text::{
    join, join_spec, lemma_trim_idempotent, nat_decimal, push_decimal, push_str, trim, trim_spec,
};
use vstd::utf8::{decode_utf8, encode_utf8, is_char_boundary};

verus! {

/// The longest stretch of a failed response's body, in bytes, that goes into
/// an error message.
pub const SUMMARY_LIMIT: usize = 2048;

/// The largest text body, in bytes, that the client reads.
pub const MAX_TEXT_BODY_BYTES: u64 = 8388608;

/// The hint given with an authentication or authorization failure.
pub const AUTH_HINT: &'static str =
    "Hint: set CNB_TOKEN (env/--token) or configure $XDG_CONFIG_HOME/cnb/auth.json";

/// The canonical reason phrase of the status `code`
/// (`StatusCode::canonical_reason`), where it has one.
pub uninterp spec fn canonical_reason_of(code: u16) -> Option<Seq<char>>;

/// The reason phrase of the status `code`, where it has one
/// (`StatusCode::from_u16` and `StatusCode::canonical_reason`).
#[verifier::external_body]
fn canonical_reason(code: u16) -> (r: Option<&'static str>)
    requires
        100 <= code <= 999,
    ensures
        match r {
            Some(s) => canonical_reason_of(code) == Some(s@),
            None => canonical_reason_of(code) is None,
        },
{
    match reqwest::StatusCode::from_u16(code) {
        Ok(status) => status.canonical_reason(),
        Err(_) => None,
    }
}

/// Whether a status code reports success: 200 up to 299.
pub open spec fn is_success_spec(code: u16) -> bool {
    200 <= code < 300
}

/// Whether the status `code` reports success (`StatusCode::is_success`).
pub fn is_success(code: u16) -> (r: bool)
    ensures
        r == is_success_spec(code),
{
    200 <= code && code < 300
}

/// The hint that goes with a status: one for 401 and 403, none otherwise.
pub open spec fn auth_hint_spec(code: u16) -> Option<Seq<char>> {
    if code == 401 || code == 403 {
        Some(AUTH_HINT@)
    } else {
        None
    }
}

/// The hint that goes with the status `code` in an error message.
pub fn auth_hint(code: u16) -> (r: Option<&'static str>)
    ensures
        match r {
            Some(h) => auth_hint_spec(code) == Some(h@),
            None => auth_hint_spec(code) is None,
        },
{
    if code == 401 || code == 403 {
        Some(AUTH_HINT)
    } else {
        None
    }
}

/// How a status is displayed: its number, a space, and its reason phrase.
pub open spec fn status_display(code: u16) -> Seq<char> {
    nat_decimal(code as nat) + " "@ + match canonical_reason_of(code) {
        Some(r) => r,
        None => "<unknown status code>"@,
    }
}

/// The display of the status `code`.
pub fn status_text(code: u16) -> (r: String)
    requires
        100 <= code <= 999,
    ensures
        r@ == status_display(code),
{
    let mut s = String::new();
    push_decimal(&mut s, code as u64);
    push_str(&mut s, " ");
    match canonical_reason(code) {
        Some(reason) => push_str(&mut s, reason),
        None => push_str(&mut s, "<unknown status code>"),
    }
    s
}

/// Whether `summarize_body` can cut the trimmed `body` at its byte limit:
/// either it fits, or the limit falls on a character boundary. (Its length
/// in bytes fits in `usize`, as that of any string in memory does.)
pub open spec fn summary_cut_ok(body: Seq<char>) -> bool {
    let bytes = encode_utf8(trim_spec(body));
    &&& bytes.len() <= usize::MAX
    &&& bytes.len() <= SUMMARY_LIMIT || is_char_boundary(bytes, SUMMARY_LIMIT as int)
}

/// The part of a failed response's body that goes into an error message:
/// the body without surrounding whitespace, cut after `SUMMARY_LIMIT` bytes
/// with a marker where it is longer.
pub open spec fn summary_spec(body: Seq<char>) -> Seq<char> {
    let t = trim_spec(body);
    let bytes = encode_utf8(t);
    if t.len() == 0 {
        Seq::empty()
    } else if bytes.len() <= SUMMARY_LIMIT {
        t
    } else {
        decode_utf8(bytes.subrange(0, SUMMARY_LIMIT as int)) + "\u{2026}(truncated)"@
    }
}

/// Summarizing a body whose trimmed form fits in `SUMMARY_LIMIT` bytes gives
/// a summary that summarizes to itself.
pub proof fn lemma_summary_idempotent(body: Seq<char>)
    requires
        encode_utf8(trim_spec(body)).len() <= SUMMARY_LIMIT,
    ensures
        summary_cut_ok(summary_spec(body)),
        summary_spec(summary_spec(body)) == summary_spec(body),
{
    let t = trim_spec(body);
    lemma_trim_idempotent(body);
    if t.len() == 0 {
        assert(summary_spec(body) =~= Seq::<char>::empty());
        assert(trim_spec(Seq::<char>::empty()) =~= Seq::<char>::empty());
    } else {
        assert(summary_spec(body) == t);
    }
}

/// Shortens a response body for an error message.
pub fn summarize_body(body: &str) -> (r: String)
    requires
        summary_cut_ok(body@),
    ensures
        r@ == summary_spec(body@),
{
    let trimmed = trim(body);
    if trimmed.unicode_len() == 0 {
        return String::new();
    }
    let t = trimmed.as_str();
    if t.len() <= SUMMARY_LIMIT {
        return trimmed;
    }
    let (head, _) = t.split_at(SUMMARY_LIMIT);
    proof {
        vstd::utf8::encode_utf8_decode_utf8(head@);
    }
    let mut out = String::from_str(head);
    push_str(&mut out, "\u{2026}(truncated)");
    out
}

/// The message of a request that came back with a failure status: the
/// action, the status and the URL, then the hint and the body summary on
/// lines of their own where there are any.
pub open spec fn failure_message_spec(
    action: Seq<char>,
    code: u16,
    url: Seq<char>,
    body: Seq<char>,
) -> Seq<char> {
    let head = action + " failed: "@ + status_display(code) + " "@ + url;
    let with_hint = match auth_hint_spec(code) {
        Some(h) => head + "\n"@ + h,
        None => head,
    };
    let summary = summary_spec(body);
    if summary.len() == 0 {
        with_hint
    } else {
        with_hint + "\n"@ + summary
    }
}

/// The error message of a request whose response has the failure status
/// `code`, was fetched from `url` and carried `body`.
pub fn failure_message(action: &str, code: u16, url: &str, body: &str) -> (r: String)
    requires
        100 <= code <= 999,
        summary_cut_ok(body@),
    ensures
        r@ == failure_message_spec(action@, code, url@, body@),
{
    let mut msg = String::from_str(action);
    push_str(&mut msg, " failed: ");
    let status = status_text(code);
    push_str(&mut msg, status.as_str());
    push_str(&mut msg, " ");
    push_str(&mut msg, url);
    if let Some(hint) = auth_hint(code) {
        push_str(&mut msg, "\n");
        push_str(&mut msg, hint);
    }
    let summary = summarize_body(body);
    if summary.unicode_len() != 0 {
        push_str(&mut msg, "\n");
        push_str(&mut msg, summary.as_str());
    }
    msg
}

/// The error of a text response announced as larger than
/// `MAX_TEXT_BODY_BYTES`, if it is.
pub open spec fn text_size_error_spec(action: Seq<char>, content_length: Option<u64>) -> Option<
    Seq<char>,
> {
    match content_length {
        Some(n) => if n > MAX_TEXT_BODY_BYTES {
            Some(
                action + " response too large: "@ + nat_decimal(n as nat) + " bytes (limit: "@
                    + nat_decimal(MAX_TEXT_BODY_BYTES as nat) + " bytes)"@,
            )
        } else {
            None
        },
        None => None,
    }
}

/// Refuses a text response whose announced length is over the limit.
pub fn text_size_error(action: &str, content_length: Option<u64>) -> (r: Option<String>)
    ensures
        match r {
            Some(m) => text_size_error_spec(action@, content_length) == Some(m@),
            None => text_size_error_spec(action@, content_length) is None,
        },
{
    match content_length {
        Some(n) => {
            if n > MAX_TEXT_BODY_BYTES {
                let mut msg = String::from_str(action);
                push_str(&mut msg, " response too large: ");
                push_decimal(&mut msg, n);
                push_str(&mut msg, " bytes (limit: ");
                push_decimal(&mut msg, MAX_TEXT_BODY_BYTES);
                push_str(&mut msg, " bytes)");
                Some(msg)
            } else {
                None
            }
        },
        None => None,
    }
}

/// Build logs as shown: the lines of the decoded log content joined by
/// newlines, or the raw text where it did not decode.
pub open spec fn build_logs_spec(content: Option<Seq<Seq<char>>>, raw: Seq<char>) -> Seq<char> {
    match content {
        Some(lines) => join_spec(lines, "\n"@),
        None => raw,
    }
}

/// Renders build logs from the decoded log lines, or from the raw response
/// text where it did not decode as a log.
pub fn render_build_logs(content: Option<Vec<String>>, raw: String) -> (r: String)
    ensures
        r@ == build_logs_spec(
            match content {
                Some(v) => Some(v@.map_values(|l: String| l@)),
                None => None,
            },
            raw@,
        ),
{
    match content {
        Some(lines) => join(&lines, "\n"),
        None => raw,
    }
}

} // verus!
