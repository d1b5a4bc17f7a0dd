//! Interpretation of the service's response: success is read off the HTTP
//! status, the body is echoed back trimmed, and an expiry header becomes a
//! local date line when asked for.

use vstd::prelude::*;
use vstd::string::StringExecFns;

use crate::decimal::{spec_nat_dec, u64_to_dec};
use crate::expiry::spec_ms_in_timestamp_range;

verus! {

/// An HTTP status code in the 2xx range reports success.
pub open spec fn spec_is_success(status: u16) -> bool {
    200 <= status < 300
}

/// Whether an HTTP status code counts as success.
pub fn status_is_success(status: u16) -> (r: bool)
    ensures
        r == spec_is_success(status),
{
    200 <= status && status < 300
}

/// What str::trim yields on a given string: the string without leading and
/// trailing whitespace, a function of the characters alone.
pub uninterp spec fn trim_of(s: Seq<char>) -> Seq<char>;

/// Relies on str::trim: it returns the input without leading and trailing
/// whitespace, reading nothing but the characters.
#[verifier::external_body]
fn trim_str(s: &str) -> (r: String)
    ensures
        r@ == trim_of(s@),
{
    s.trim().to_owned()
}

/// Relies on jiff: Timestamp::from_millisecond returns Ok exactly on jiff's
/// supported range (a semver guarantee of jiff), and Timestamp::to_zoned
/// with TimeZone::system, rendered through Zoned::strftime, yields a text
/// that depends on the machine's time zone, so nothing is claimed of it.
#[verifier::external_body]
fn format_timestamp_local(ms: i64) -> (r: Option<String>)
    ensures
        r is Some <==> spec_ms_in_timestamp_range(ms),
{
    jiff::Timestamp::from_millisecond(ms)
        .map(|ts| ts.to_zoned(jiff::tz::TimeZone::system()).strftime("%F (%A), %T%.f [%:Q]").to_string())
        .ok()
}

/// The line reporting when an entry expires, from the epoch milliseconds of
/// the expiry response header: a fixed prefix, then the instant rendered in
/// the machine's time zone. None exactly when the value is out of the
/// representable range.
pub fn expiry_line(ms: i64) -> (r: Option<String>)
    ensures
        r is Some <==> spec_ms_in_timestamp_range(ms),
        r matches Some(line) ==> "Expires at "@.is_prefix_of(line@),
{
    match format_timestamp_local(ms) {
        Some(rendered) => {
            let mut line = String::from_str("Expires at ");
            line.append(rendered.as_str());
            proof {
                assert("Expires at "@.is_prefix_of(line@));
            }
            Some(line)
        },
        None => None,
    }
}

/// The first output line of a creation or management response: the fixed
/// success word on a 2xx status, otherwise the numeric status in brackets,
/// followed by the given text.
pub open spec fn spec_status_line(status: u16, rest: Seq<char>) -> Seq<char> {
    if spec_is_success(status) {
        "Succesful! "@ + rest
    } else {
        "["@ + spec_nat_dec(status as nat) + "] "@ + rest
    }
}

/// Renders the status prefix followed by the given text.
fn status_line(status: u16, rest: &str) -> (r: String)
    ensures
        r@ == spec_status_line(status, rest@),
{
    if status_is_success(status) {
        let mut line = String::from_str("Succesful! ");
        line.append(rest);
        line
    } else {
        let mut line = String::from_str("[");
        line.append(u64_to_dec(status as u64).as_str());
        line.append("] ");
        line.append(rest);
        proof {
            assert(line@ =~= spec_status_line(status, rest@));
        }
        line
    }
}

/// Everything a creation invocation prints, one line per element: the
/// status line with the trimmed response body (the hosted URL, or the
/// service's error text), then the expiry line and the token line when they
/// were requested and present.
pub open spec fn spec_create_output(
    status: u16,
    body: Seq<char>,
    expires_line: Option<Seq<char>>,
    token: Option<Seq<char>>,
) -> Seq<Seq<char>> {
    let first = seq![spec_status_line(status, trim_of(body))];
    let with_expiry = match expires_line {
        Some(e) => first.push(e),
        None => first,
    };
    match token {
        Some(t) => with_expiry.push("X-Token: "@ + t),
        None => with_expiry,
    }
}

/// Renders the output of a creation invocation, exactly as
/// spec_create_output says. `expires_line` is the line built by
/// expiry_line, handed through unchanged; `token` is the raw token header.
pub fn render_create_output(
    status: u16,
    body: &str,
    expires_line: Option<String>,
    token: Option<String>,
) -> (r: Vec<String>)
    ensures
        r.deep_view() == spec_create_output(status, body@, expires_line.deep_view(), token.deep_view()),
{
    let ghost expires_view = expires_line.deep_view();
    let ghost token_view = token.deep_view();
    let mut lines: Vec<String> = Vec::new();
    let trimmed = trim_str(body);
    lines.push(status_line(status, trimmed.as_str()));
    match expires_line {
        Some(e) => lines.push(e),
        None => {},
    }
    match token {
        Some(t) => {
            let mut line = String::from_str("X-Token: ");
            line.append(t.as_str());
            lines.push(line);
        },
        None => {},
    }
    proof {
        assert(lines.deep_view() =~= spec_create_output(status, body@, expires_view, token_view));
    }
    lines
}

/// Everything a management invocation prints: a fixed acknowledgement on a
/// 2xx status, otherwise the numeric status in brackets followed by the
/// response body, untrimmed.
pub open spec fn spec_manage_output(status: u16, body: Seq<char>) -> Seq<char> {
    if spec_is_success(status) {
        "Change accepted!"@
    } else {
        "["@ + spec_nat_dec(status as nat) + "] "@ + body
    }
}

/// Renders the output of a management invocation, exactly as
/// spec_manage_output says.
pub fn render_manage_output(status: u16, body: &str) -> (r: String)
    ensures
        r@ == spec_manage_output(status, body@),
{
    if status_is_success(status) {
        String::from_str("Change accepted!")
    } else {
        let mut line = String::from_str("[");
        line.append(u64_to_dec(status as u64).as_str());
        line.append("] ");
        line.append(body);
        proof {
            assert(line@ =~= spec_manage_output(status, body@));
        }
        line
    }
}

} // verus!
