//! Request URIs, parsed and assembled by the `http` crate that `hyper`
//! hands on.

use vstd::prelude::*;

verus! {

#[verifier::external_type_specification]
#[verifier::external_body]
pub struct ExUri(hyper::Uri);

/// The three components of a URI.
pub struct UriParts {
    /// The text of the scheme; `None` where the URI has no scheme. A scheme
    /// that is there can have an empty text.
    pub scheme: Option<Seq<char>>,
    /// The text of the authority, empty where the URI has none.
    pub authority: Seq<char>,
    /// The text of the path and query, empty where the URI has none.
    pub path_and_query: Seq<char>,
}

/// The components that a `Uri` holds in its three fields: of `scheme` the
/// text where it is a scheme and `None` where it is the mark for no scheme,
/// of `authority` and `path_and_query` the text that the field keeps.
pub uninterp spec fn uri_parts(u: hyper::Uri) -> UriParts;

/// What parsing `text` as a URI gives: its components, or the parser's
/// message.
pub uninterp spec fn uri_parsed(text: Seq<char>) -> Result<UriParts, Seq<char>>;

impl UriParts {
    /// Whether the URI hands a path on when it is taken apart: it does where
    /// its path is not empty, and where it has a scheme.
    pub open spec fn has_path(self) -> bool {
        self.path_and_query.len() > 0 || self.scheme is Some
    }
}

/// What assembling a URI from the scheme and authority of `base` and the
/// path and query of `uri` gives. A scheme asks for an authority and for a
/// path; an authority with a path asks for a scheme. Where one of these is
/// missing the assembly is refused with the message that says so; else the
/// URI has the three parts as they were handed in.
pub open spec fn uri_inherited(uri: UriParts, base: UriParts) -> Result<UriParts, Seq<char>> {
    if base.scheme is Some && base.authority.len() == 0 {
        Err("authority missing"@)
    } else if base.scheme is Some && !uri.has_path() {
        Err("path missing"@)
    } else if base.scheme is None && base.authority.len() > 0 && uri.has_path() {
        Err("scheme missing"@)
    } else {
        Ok(
            UriParts {
                scheme: base.scheme,
                authority: base.authority,
                path_and_query: uri.path_and_query,
            },
        )
    }
}

/// `<Uri as FromStr>::from_str`. Trusted: the outcome is the one that
/// `uri_parsed` names for this text, a failure by its message.
#[verifier::external_body]
pub(crate) fn parse_uri(text: &str) -> (r: Result<hyper::Uri, String>)
    ensures
        match r {
            Ok(u) => uri_parsed(text@) matches Ok(parts) && parts == uri_parts(u),
            Err(m) => uri_parsed(text@) matches Err(t) && t == m@,
        },
{
    match text.parse::<hyper::Uri>() {
        Ok(u) => Ok(u),
        Err(e) => Err(e.to_string()),
    }
}

/// `Uri::authority_part`. Trusted: it is `Some` where the authority is not
/// empty.
#[verifier::external_body]
pub(crate) fn has_authority(u: &hyper::Uri) -> (b: bool)
    ensures
        b == (uri_parts(*u).authority.len() > 0),
{
    u.authority_part().is_some()
}

/// `Uri::into_parts`, then `Uri::from_parts` with the scheme and the
/// authority of `base` in place of the URI's own, for a URI that names no
/// authority; a failure by its message. Trusted: the outcome is the one that
/// `uri_inherited` states.
#[verifier::external_body]
pub(crate) fn inherit(uri: hyper::Uri, base: &hyper::Uri) -> (r: Result<hyper::Uri, String>)
    requires
        uri_parts(uri).authority.len() == 0,
    ensures
        match r {
            Ok(u) => uri_inherited(uri_parts(uri), uri_parts(*base)) matches Ok(parts) && parts
                == uri_parts(u),
            Err(m) => uri_inherited(uri_parts(uri), uri_parts(*base)) matches Err(t) && t == m@,
        },
{
    let mut parts = uri.into_parts();
    let from = base.clone().into_parts();
    parts.scheme = from.scheme;
    parts.authority = from.authority;
    match hyper::Uri::from_parts(parts) {
        Ok(u) => Ok(u),
        Err(e) => Err(e.to_string()),
    }
}

} // verus!
