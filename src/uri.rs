//! The parts of a URI, read with the `http` crate.

use vstd::prelude::*;
use crate::event::opt_str_view;

verus! {

/// The parts of a parsed URI.
#[derive(Debug, Clone, PartialEq, Eq)]
pub struct UriParts {
    pub scheme: Option<String>,
    pub authority: Option<String>,
    pub host: Option<String>,
    pub port: Option<u16>,
    pub path: String,
    pub query: Option<String>,
}

impl UriParts {
    pub open spec fn parts(self) -> (Option<Seq<char>>, Option<Seq<char>>, Option<Seq<char>>, Option<u16>, Seq<char>, Option<Seq<char>>) {
        (
            opt_str_view(self.scheme),
            opt_str_view(self.authority),
            opt_str_view(self.host),
            self.port,
            self.path@,
            opt_str_view(self.query),
        )
    }
}

/// Scheme, authority, host, port, path and query of the URI that the text
/// holds; `None` where the text is not a URI.
pub uninterp spec fn uri_parts(s: Seq<char>) -> Option<(Option<Seq<char>>, Option<Seq<char>>, Option<Seq<char>>, Option<u16>, Seq<char>, Option<Seq<char>>)>;

/// Relies on `http::Uri`'s `FromStr` to accept or refuse the text, and on
/// its accessors `scheme_str`, `authority`, `host`, `port_u16`, `path` and
/// `query` for the parts.
#[verifier::external_body]
pub(crate) fn parse_uri(s: &str) -> (r: Option<UriParts>)
    ensures
        match r {
            Some(p) => uri_parts(s@) == Some(p.parts()),
            None => uri_parts(s@) is None,
        },
{
    let u: http::Uri = s.parse().ok()?;
    Some(UriParts {
        scheme: u.scheme_str().map(|x| x.to_string()),
        authority: u.authority().map(|a| a.as_str().to_string()),
        host: u.host().map(|h| h.to_string()),
        port: u.port_u16(),
        path: u.path().to_string(),
        query: u.query().map(|q| q.to_string()),
    })
}

} // verus!
