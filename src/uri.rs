//! Reading an endpoint URI, through the `http` crate's parser.

use vstd::prelude::*;

verus! {

/// The scheme and the host of the URI that `s` writes, as the `http` crate
/// parses it; `None` when `s` is no URI.
pub uninterp spec fn uri_parts(s: Seq<char>) -> Option<(Option<Seq<char>>, Option<Seq<char>>)>;

pub open spec fn opt_view(o: Option<String>) -> Option<Seq<char>> {
    match o {
        Some(s) => Some(s@),
        None => None,
    }
}

/// The parts of a parsed URI that the layer reads.
pub struct UriParts {
    pub scheme: Option<String>,
    pub host: Option<String>,
}

/// Relies on `http::Uri`'s `FromStr` impl to parse `s`, and on
/// `Uri::scheme_str` and `Uri::host` to read the parsed value; the result
/// depends on the text alone.
#[verifier::external_body]
pub(crate) fn parse_uri(s: &str) -> (r: Option<UriParts>)
    ensures
        r is None <==> uri_parts(s@) is None,
        r matches Some(p) ==> uri_parts(s@) == Some((opt_view(p.scheme), opt_view(p.host))),
{
    match s.parse::<http::Uri>() {
        Ok(u) => Some(UriParts {
            scheme: u.scheme_str().map(|v| v.to_string()),
            host: u.host().map(|v| v.to_string()),
        }),
        Err(_) => None,
    }
}

} // verus!
