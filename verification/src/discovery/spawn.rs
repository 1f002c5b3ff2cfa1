//! Reading the address of a server that the client has just started from
//! what the server prints.

use crate::discovery::process::{ServerInfo, ServerInfoView};
use crate::text::{decimal, decimal_of, parse_unsigned, parsed_unsigned};
use vstd::prelude::*;

verus! {

/// `regex::Regex`, as a type whose inside is not looked into.
#[verifier::external_type_specification]
#[verifier::external_body]
pub struct ExRegex(regex::Regex);

/// Whether `regex::Regex::new` takes a text as a regular expression.
pub uninterp spec fn compiles(pattern: Seq<char>) -> bool;

/// What `regex::Regex::captures` gives for an expression and a text: the
/// groups of the leftmost match, the whole match first, each with the text
/// it caught if it took part. `None` where nothing matches.
pub uninterp spec fn captured_by(expression: regex::Regex, haystack: Seq<char>) -> Option<
    Seq<Option<Seq<char>>>,
>;

/// What the expression that `regex::Regex::new` makes of a pattern captures
/// in a text.
pub uninterp spec fn captured(pattern: Seq<char>, haystack: Seq<char>) -> Option<
    Seq<Option<Seq<char>>>,
>;

/// `regex::Regex::new`: the expression that a pattern writes down, with the
/// flags that `new` gives every expression; `None` where the pattern is no
/// regular expression. What the expression captures in a text depends on the
/// pattern and the text alone.
#[verifier::external_body]
pub(crate) fn compile(pattern: &str) -> (r: Option<regex::Regex>)
    ensures
        r is Some <==> compiles(pattern@),
        r is Some ==> forall|haystack: Seq<char>| #[trigger]
            captured_by(r->Some_0, haystack) == captured(pattern@, haystack),
{
    regex::Regex::new(pattern).ok()
}

/// `regex::Regex::captures`: the groups of the leftmost match of the
/// expression in the text.
#[verifier::external_body]
pub(crate) fn captures(expression: &regex::Regex, haystack: &str) -> (r: Option<
    Vec<Option<String>>,
>)
    ensures
        r.deep_view() == captured_by(*expression, haystack@),
{
    let found = expression.captures(haystack)?;
    Some(found.iter().map(|group| group.map(|m| m.as_str().to_string())).collect())
}

/// The pattern of an address in the server's output: a host and a port.
pub open spec fn url_pattern() -> Seq<char> {
    "http://([^\\s:]+):(\\d+)"@
}

/// The port that the outcome of reading a run of digits as a number gives;
/// 0 where they write no number that a port can be.
pub open spec fn port_of(parsed: Option<u64>) -> u16 {
    match parsed {
        Some(n) => if n <= u16::MAX {
            n as u16
        } else {
            0
        },
        None => 0,
    }
}

/// The host and the digits of the port among the groups of a match: the
/// match has three groups, and the second and third took part.
pub open spec fn host_and_digits(groups: Option<Seq<Option<Seq<char>>>>) -> Option<
    (Seq<char>, Seq<char>),
> {
    match groups {
        Some(gs) => if gs.len() == 3 && gs[1] is Some && gs[2] is Some {
            Some((gs[1]->0, gs[2]->0))
        } else {
            None
        },
        None => None,
    }
}

/// The address that a host and a port make, where the port is not 0.
pub open spec fn address(host: Seq<char>, port: u16) -> Option<(Seq<char>, u16)> {
    if port != 0 {
        Some((host, port))
    } else {
        None
    }
}

/// The host and the port that a line of the server's output names, if it
/// names an address with a port other than 0.
pub open spec fn url_in(line: Seq<char>) -> Option<(Seq<char>, u16)> {
    if compiles(url_pattern()) {
        match host_and_digits(captured(url_pattern(), line)) {
            Some((host, digits)) => address(host, port_of(parsed_unsigned(digits))),
            None => None,
        }
    } else {
        None
    }
}

/// Picks the host and the digits of the port from the groups of a match.
pub fn pick_host_and_digits(groups: Option<Vec<Option<String>>>) -> (r: Option<(String, String)>)
    ensures
        r.deep_view() == host_and_digits(groups.deep_view()),
{
    let mut groups = groups?;
    if groups.len() != 3 {
        return None;
    }
    let digits = groups.pop()??;
    let host = groups.pop()??;
    Some((host, digits))
}

/// The port that the outcome of reading a run of digits as a number gives.
pub fn port_from(parsed: Option<u64>) -> (r: u16)
    ensures
        r == port_of(parsed),
{
    match parsed {
        Some(n) => if n <= 65535 {
            n as u16
        } else {
            0
        },
        None => 0,
    }
}

/// Reads the host and the port from a line of the server's output.
pub fn parse_server_url(line: &str) -> (r: Option<(String, u16)>)
    ensures
        r.deep_view() == url_in(line@),
{
    let expression = compile("http://([^\\s:]+):(\\d+)")?;
    let (host, digits) = pick_host_and_digits(captures(&expression, line))?;
    let port = port_from(parse_unsigned(digits.as_str()));
    if port != 0 {
        Some((host, port))
    } else {
        None
    }
}

/// The address of the server on `host` that listens on `port`.
pub open spec fn url_of(host: Seq<char>, port: u16) -> Seq<char> {
    "http://"@ + host + ":"@ + decimal(port as nat)
}

/// The server that this client started, once it answers.
pub open spec fn spawned(pid: u32, host: Seq<char>, port: u16) -> ServerInfoView {
    ServerInfoView {
        pid,
        port,
        base_url: url_of(host, port),
        name: "opencode"@,
        command: "opencode serve"@,
        owned: true,
    }
}

/// Describes the server that this client started.
pub fn describe_spawned(pid: u32, host: &str, port: u16) -> (r: ServerInfo)
    ensures
        r@ == spawned(pid, host@, port),
{
    let mut base_url = "http://".to_string();
    base_url.append(host);
    base_url.append(":");
    base_url.append(decimal_of(port as u64).as_str());
    ServerInfo {
        pid,
        port,
        base_url,
        name: "opencode".to_string(),
        command: "opencode serve".to_string(),
        owned: true,
    }
}

/// The port that a new server is asked to listen on: the one that the user
/// asked for, else 0, which lets the server choose.
pub fn port_argument(override_port: Option<u16>) -> (r: String)
    ensures
        r@ == decimal(
            (match override_port {
                Some(p) => p,
                None => 0,
            }) as nat,
        ),
{
    match override_port {
        Some(p) => decimal_of(p as u64),
        None => decimal_of(0),
    }
}

} // verus!
