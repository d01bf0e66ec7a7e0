//! One request per command.
//!
//! `build_request` is the whole translation: it turns a base URL and a
//! command into the single request the client will send, and its contract
//! pins the URI, the method and the body down exactly.

use vstd::prelude::*;

verus! {

use crate::command::{Command, Method, spec_body, spec_method, spec_path};
use crate::url::{BaseUrl, spec_uri};

/// One HTTP request, ready to send: an absolute URI, a method, and the
/// body when the command carries one.
pub struct RequestSpec {
    pub url: String,
    pub method: Method,
    pub body: Option<String>,
}

/// The URI a command is sent to under a base.
pub open spec fn spec_url(base: BaseUrl, c: Command) -> Seq<char> {
    spec_uri(base.scheme@, base.authority@, spec_path(c))
}

/// Builds the one request that `cmd` stands for under `base`.
pub fn build_request(base: &BaseUrl, cmd: &Command) -> (r: RequestSpec)
    ensures
        r.url@ == spec_url(*base, *cmd),
        r.method == spec_method(*cmd),
        spec_body(*cmd) is None <==> r.body is None,
        spec_body(*cmd) matches Some(b) ==> (r.body matches Some(s) && s@ == b),
{
    let path = crate::command::path_of(cmd);
    RequestSpec {
        url: base.uri_for(path.as_str()),
        method: crate::command::method_of(cmd),
        body: crate::command::body_of(cmd),
    }
}

} // verus!
