//! URLs, as far as the launch flow reads them.
use crate::outside;
use crate::outside::parse_url;
use crate::text;
use crate::text::{as_opt_str, decimal_text, str_eq};
use vstd::prelude::*;
use vstd::string::*;

verus! {

/// The parts of a parsed URL.
#[derive(Debug, Clone, PartialEq, Eq)]
pub struct UrlParts {
    /// The scheme, without the colon.
    pub scheme: String,
    /// The host, when the URL has one.
    pub host: Option<String>,
    /// The port, when the URL names one that is not the scheme's default.
    pub port: Option<u16>,
    /// The decoded query pairs, in the order in which they stand.
    pub query: Vec<(String, String)>,
}

/// The texts of [`UrlParts`].
pub struct UrlView {
    pub scheme: Seq<char>,
    pub host: Option<Seq<char>>,
    pub port: Option<u16>,
    pub query: Seq<(Seq<char>, Seq<char>)>,
}

/// The texts of a list of pairs.
pub open spec fn pairs(v: Seq<(String, String)>) -> Seq<(Seq<char>, Seq<char>)> {
    v.map_values(|p: (String, String)| (p.0@, p.1@))
}

impl View for UrlParts {
    type V = UrlView;

    open spec fn view(&self) -> UrlView {
        UrlView {
            scheme: self.scheme@,
            host: text::opt_text(self.host),
            port: self.port,
            query: pairs(self.query@),
        }
    }
}

/// The texts of an optional URL.
pub open spec fn url_view(u: Option<UrlParts>) -> Option<UrlView> {
    match u {
        Some(u) => Some(u@),
        None => None,
    }
}

impl UrlParts {
    /// Parses a URL; `None` when the text is not one.
    pub fn parse(input: &str) -> (r: Option<UrlParts>)
        ensures
            url_view(r) == outside::parsed_url(input@),
    {
        parse_url(input)
    }

    /// The HTTP origin that goes with a WebSocket URL.
    pub fn http_origin(&self) -> (r: Option<String>)
        ensures
            text::opt_text(r) == http_origin_of(self@),
    {
        let scheme = if str_eq(self.scheme.as_str(), "wss") {
            "https"
        } else if str_eq(self.scheme.as_str(), "ws") {
            "http"
        } else {
            return None;
        };
        let host = match as_opt_str(&self.host) {
            Some(host) => host,
            None => {
                return None;
            },
        };
        let mut out = scheme.to_string();
        out.append("://");
        out.append(host);
        if let Some(port) = self.port {
            out.append(":");
            out.append(decimal_text(port).as_str());
        }
        Some(out)
    }
}

/// The HTTP scheme that goes with a WebSocket scheme.
pub open spec fn http_scheme(scheme: Seq<char>) -> Option<Seq<char>> {
    if scheme == "wss"@ {
        Some("https"@)
    } else if scheme == "ws"@ {
        Some("http"@)
    } else {
        None
    }
}

/// Scheme, host and port of the HTTP server behind a WebSocket URL.
pub open spec fn http_origin_of(url: UrlView) -> Option<Seq<char>> {
    match (http_scheme(url.scheme), url.host) {
        (Some(scheme), Some(host)) => Some(
            match url.port {
                Some(port) => scheme + "://"@ + host + ":"@ + text::decimal(port as nat),
                None => scheme + "://"@ + host,
            },
        ),
        _ => None,
    }
}

/// Derives the HTTP origin of a WebSocket URL: `wss` becomes `https`, `ws` becomes
/// `http`, host and port stay, the rest is dropped. `None` for anything else.
pub fn derive_http_origin_from_ws_url(ws_url: &str) -> (r: Option<String>)
    ensures
        text::opt_text(r) == match outside::parsed_url(ws_url@) {
            Some(url) => http_origin_of(url),
            None => None,
        },
{
    match UrlParts::parse(ws_url) {
        Some(url) => url.http_origin(),
        None => None,
    }
}

/// A URL has an HTTP origin exactly when it is a WebSocket URL with a host; its query has
/// no part in it.
pub proof fn law_websocket_urls_have_an_origin(url: UrlView, query: Seq<(Seq<char>, Seq<char>)>)
    ensures
        http_origin_of(url) is Some <==> (url.scheme == "ws"@ || url.scheme == "wss"@)
            && url.host is Some,
        http_origin_of(UrlView { query, ..url }) == http_origin_of(url),
{
}

/// The HTTP origin of a WebSocket URL keeps host and port and changes the scheme to the one
/// of the same security: a secure URL has the origin of the plain one but for an `s`.
pub proof fn law_origin_keeps_host_and_port(url: UrlView, host: Seq<char>)
    requires
        url.host == Some(host),
        url.scheme == "ws"@ || url.scheme == "wss"@,
    ensures
        ({
            let origin = http_origin_of(url)->0;
            let start = if url.scheme == "wss"@ {
                "https://"@
            } else {
                "http://"@
            };
            &&& http_origin_of(url) is Some
            &&& url.port is None ==> origin == start + host
            &&& url.port matches Some(port) ==> origin == start + host + seq![':'] + text::decimal(
                port as nat,
            )
        }),
{
    reveal_strlit("ws");
    reveal_strlit("wss");
    reveal_strlit("http");
    reveal_strlit("https");
    reveal_strlit("://");
    reveal_strlit("http://");
    reveal_strlit("https://");
    reveal_strlit(":");
    assert("wss"@.len() != "ws"@.len());
    assert("http"@ + "://"@ =~= "http://"@);
    assert("https"@ + "://"@ =~= "https://"@);
    assert(":"@ =~= seq![':']);
}

/// The parts of a URL are seen as they are, and its query pair by pair.
pub proof fn law_url_is_seen_as_it_is(url: UrlParts, i: int)
    ensures
        url@.scheme == url.scheme@,
        url@.host is Some <==> url.host is Some,
        url.host matches Some(host) ==> url@.host == Some(host@),
        url@.port == url.port,
        url@.query.len() == url.query@.len(),
        0 <= i < url.query@.len() ==> url@.query[i] == (url.query@[i].0@, url.query@[i].1@),
{
}

} // verus!
