//! The base URL and the request URIs derived from it.
//!
//! The user hands the client a base URL; only its scheme and authority are
//! kept, and every request URI is that pair with one of the fixed API paths
//! behind it. A base without a scheme or without an authority is rejected
//! before anything touches the network.

use vstd::prelude::*;

verus! {

/// Why a base URL was rejected.
#[derive(Clone, Copy, Debug, PartialEq, Eq, Structural)]
pub enum UriError {
    /// The base URL has no scheme, such as a bare host name.
    MissingScheme,
    /// The base URL has no authority (host, and possibly port).
    MissingAuthority,
}

impl UriError {
    /// What the error says.
    pub open spec fn spec_message(self) -> Seq<char> {
        match self {
            UriError::MissingScheme => "base URL has no scheme"@,
            UriError::MissingAuthority => "base URL has no authority"@,
        }
    }

    /// What the error says.
    pub fn message(&self) -> (r: &'static str)
        ensures
            r@ == self.spec_message(),
    {
        match self {
            UriError::MissingScheme => "base URL has no scheme",
            UriError::MissingAuthority => "base URL has no authority",
        }
    }
}

/// The scheme and authority of the user's base URL.
pub struct BaseUrl {
    pub scheme: String,
    pub authority: String,
}

/// The absolute URI with the given scheme, authority and path.
pub open spec fn spec_uri(scheme: Seq<char>, authority: Seq<char>, path: Seq<char>) -> Seq<char> {
    scheme + "://"@ + authority + path
}

impl BaseUrl {
    /// Keeps the scheme and authority of a base URL, or says which of the
    /// two is missing; the scheme is checked first.
    pub fn new(scheme: Option<String>, authority: Option<String>) -> (r: Result<BaseUrl, UriError>)
        ensures
            scheme is None ==> r matches Err(UriError::MissingScheme),
            scheme is Some && authority is None ==> r matches Err(UriError::MissingAuthority),
            scheme is Some && authority is Some ==> (r matches Ok(b) && b.scheme@ == scheme->0@
                && b.authority@ == authority->0@),
    {
        match (scheme, authority) {
            (None, _) => Err(UriError::MissingScheme),
            (Some(_), None) => Err(UriError::MissingAuthority),
            (Some(s), Some(a)) => Ok(BaseUrl { scheme: s, authority: a }),
        }
    }

    /// The absolute URI for one request path under this base.
    pub fn uri_for(&self, path: &str) -> (r: String)
        ensures
            r@ == spec_uri(self.scheme@, self.authority@, path@),
    {
        let mut out = self.scheme.clone();
        out.append("://");
        out.append(self.authority.as_str());
        out.append(path);
        proof {
            assert(out@ =~= spec_uri(self.scheme@, self.authority@, path@));
        }
        out
    }
}

} // verus!
