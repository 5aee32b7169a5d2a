//! Choosing how to reach a node from the one string that names it: an IPC
//! socket path, a WebSocket URL, an HTTP URL, or anything else the generic
//! connector understands.

use vstd::prelude::*;
use crate::text::{spec_contains, spec_ends_with, spec_starts_with, str_contains, str_ends_with, str_starts_with};

verus! {

/// The error of `url::Url::parse`.
#[verifier::external_type_specification]
#[verifier::external_body]
pub struct ExUrlParseError(url::ParseError);

/// The serialization of the URL that `url::Url::parse` makes of `input`, or
/// `None` where it refuses `input`.
pub uninterp spec fn parsed_url(input: Seq<char>) -> Option<Seq<char>>;

/// Calls `url::Url::parse` on `input`. Claims that it succeeds exactly where
/// `parsed_url` is defined and that the URL it returns serializes (through
/// `From<Url> for String`) to `parsed_url(input)`; which `ParseError` comes
/// back on failure is left unsaid.
#[verifier::external_body]
fn parse_url(input: &str) -> (r: Result<String, url::ParseError>)
    ensures
        match r {
            Ok(s) => parsed_url(input@) == Some(s@),
            Err(_) => parsed_url(input@) is None,
        },
{
    url::Url::parse(input).map(String::from)
}

/// How a node is to be reached.
#[derive(Debug, Clone, PartialEq, Eq)]
pub enum ConnectionTarget {
    /// Through the IPC socket at this path.
    Ipc(String),
    /// Through a WebSocket at this URL.
    Ws(String),
    /// Over HTTP at this URL, as the URL parser normalized it.
    Http(String),
    /// Through whatever the generic connector makes of this string.
    Other(String),
}

/// Why no connection could be chosen.
#[derive(Debug, Clone, Copy, PartialEq, Eq)]
pub enum ConnectionError {
    /// No IPC path and no RPC URL was given.
    NoConnectionUrl,
    /// The string looked like an HTTP URL but is not a valid URL.
    InvalidUrl(url::ParseError),
}

/// A path that ends in `.ipc` names an IPC socket.
pub open spec fn spec_is_ipc(s: Seq<char>) -> bool {
    spec_ends_with(s, ".ipc"@)
}

/// A string that starts with `ws:` or holds `wss:` names a WebSocket.
pub open spec fn spec_is_ws(s: Seq<char>) -> bool {
    spec_starts_with(s, "ws:"@) || spec_contains(s, "wss:"@)
}

/// A string that starts with `http:` or holds `https:` names an HTTP endpoint.
pub open spec fn spec_is_http(s: Seq<char>) -> bool {
    spec_starts_with(s, "http:"@) || spec_contains(s, "https:"@)
}

/// The outcome that `connection_target` owes for `s`: the first of IPC,
/// WebSocket and HTTP whose test `s` passes, or else the generic connector.
/// An HTTP target holds the URL as the parser normalized it; every other
/// target holds `s` unchanged.
pub open spec fn spec_target_for(s: Seq<char>, r: Result<ConnectionTarget, ConnectionError>) -> bool {
    if spec_is_ipc(s) {
        r matches Ok(ConnectionTarget::Ipc(t)) && t@ == s
    } else if spec_is_ws(s) {
        r matches Ok(ConnectionTarget::Ws(t)) && t@ == s
    } else if spec_is_http(s) {
        match parsed_url(s) {
            Some(u) => r matches Ok(ConnectionTarget::Http(t)) && t@ == u,
            None => r matches Err(ConnectionError::InvalidUrl(_)),
        }
    } else {
        r matches Ok(ConnectionTarget::Other(t)) && t@ == s
    }
}

/// Chooses how to reach the node named by `conn_url`. IPC paths win over
/// WebSocket URLs, which win over HTTP URLs; an HTTP URL is parsed, and the
/// target holds its normalized form. Every other target holds `conn_url`
/// unchanged.
pub fn connection_target(conn_url: &str) -> (r: Result<ConnectionTarget, ConnectionError>)
    ensures
        spec_target_for(conn_url@, r),
{
    if str_ends_with(conn_url, ".ipc") {
        Ok(ConnectionTarget::Ipc(String::from_str(conn_url)))
    } else if str_starts_with(conn_url, "ws:") || str_contains(conn_url, "wss:") {
        Ok(ConnectionTarget::Ws(String::from_str(conn_url)))
    } else if str_starts_with(conn_url, "http:") || str_contains(conn_url, "https:") {
        match parse_url(conn_url) {
            Ok(u) => Ok(ConnectionTarget::Http(u)),
            Err(e) => Err(ConnectionError::InvalidUrl(e)),
        }
    } else {
        Ok(ConnectionTarget::Other(String::from_str(conn_url)))
    }
}

/// Chooses how to reach the node from an optional IPC path or RPC URL; with
/// none there is nothing to connect to.
pub fn connection_target_for(ipc_path_or_rpc_url: &Option<String>) -> (r: Result<
    ConnectionTarget,
    ConnectionError,
>)
    ensures
        match ipc_path_or_rpc_url {
            None => r == Err::<ConnectionTarget, _>(ConnectionError::NoConnectionUrl),
            Some(u) => spec_target_for(u@, r),
        },
{
    match ipc_path_or_rpc_url {
        None => Err(ConnectionError::NoConnectionUrl),
        Some(u) => connection_target(u.as_str()),
    }
}

/// Parses the URL of an HTTP RPC endpoint; the result is the URL in the
/// parser's normalized form.
pub fn parse_rpc_url(http_url: &str) -> (r: Result<String, ConnectionError>)
    ensures
        match parsed_url(http_url@) {
            Some(u) => r matches Ok(s) && s@ == u,
            None => r matches Err(ConnectionError::InvalidUrl(_)),
        },
{
    match parse_url(http_url) {
        Ok(u) => Ok(u),
        Err(e) => Err(ConnectionError::InvalidUrl(e)),
    }
}

impl ConnectionError {
    /// The message of an error that arises before any parsing; a parse error
    /// is described by the URL parser's own message.
    pub fn message(&self) -> (r: Option<String>)
        ensures
            match *self {
                ConnectionError::NoConnectionUrl => r matches Some(m) && m@
                    == "no ipc path or rpc url has been set"@,
                ConnectionError::InvalidUrl(_) => r is None,
            },
    {
        match self {
            ConnectionError::NoConnectionUrl => Some(
                String::from_str("no ipc path or rpc url has been set"),
            ),
            ConnectionError::InvalidUrl(_) => None,
        }
    }
}

/// Whatever host or path it names: a string that ends in `.ipc` is reached
/// over IPC; one that does not, but starts with `ws:` or holds `wss:`, over a
/// WebSocket; one that is neither, but starts with `http:` or holds
/// `https:`, over HTTP at its parsed form (or is refused when it does not
/// parse); and anything else through the generic connector. Every target but
/// HTTP holds the string unchanged.
pub proof fn lemma_target_choice(s: Seq<char>, r: Result<ConnectionTarget, ConnectionError>)
    requires
        spec_target_for(s, r),
    ensures
        spec_ends_with(s, ".ipc"@) ==> r == Ok::<ConnectionTarget, ConnectionError>(
            ConnectionTarget::Ipc(r->Ok_0->Ipc_0),
        ) && r->Ok_0->Ipc_0@ == s,
        !spec_ends_with(s, ".ipc"@) && (spec_starts_with(s, "ws:"@) || spec_contains(s, "wss:"@))
            ==> r == Ok::<ConnectionTarget, ConnectionError>(ConnectionTarget::Ws(r->Ok_0->Ws_0))
            && r->Ok_0->Ws_0@ == s,
        !spec_ends_with(s, ".ipc"@) && !spec_starts_with(s, "ws:"@) && !spec_contains(s, "wss:"@)
            && (spec_starts_with(s, "http:"@) || spec_contains(s, "https:"@)) ==> (parsed_url(s) is Some
            ==> r == Ok::<ConnectionTarget, ConnectionError>(ConnectionTarget::Http(r->Ok_0->Http_0))
            && Some(r->Ok_0->Http_0@) == parsed_url(s)) && (parsed_url(s) is None ==> r is Err),
        !spec_ends_with(s, ".ipc"@) && !spec_starts_with(s, "ws:"@) && !spec_contains(s, "wss:"@)
            && !spec_starts_with(s, "http:"@) && !spec_contains(s, "https:"@) ==> r == Ok::<
            ConnectionTarget,
            ConnectionError,
        >(ConnectionTarget::Other(r->Ok_0->Other_0)) && r->Ok_0->Other_0@ == s,
{
}

} // verus!
