//! Rendering one HTTP response.
//!
//! The transport hands over the status code, the content-type header if one
//! came, and the raw body bytes. `render_response` decides what is printed:
//! the body must be UTF-8; when the content type starts with
//! `application/json` the body must parse as JSON and is pretty-printed
//! (colored on a terminal), otherwise the decoded body is passed through
//! verbatim.

use vstd::prelude::*;

use colored_json::ToColoredJson;

verus! {

use vstd::utf8::{decode_utf8, valid_utf8};

/// Why a response could not be rendered.
#[derive(Clone, Copy, Debug, PartialEq, Eq, Structural)]
pub enum RenderError {
    /// The response body is not valid UTF-8.
    InvalidUtf8,
    /// The content type says JSON but the body does not parse as JSON.
    InvalidJson,
}

impl RenderError {
    /// What the error says.
    pub open spec fn spec_message(self) -> Seq<char> {
        match self {
            RenderError::InvalidUtf8 => "response body is not valid UTF-8"@,
            RenderError::InvalidJson => "response body is not valid JSON"@,
        }
    }

    /// What the error says.
    pub fn message(&self) -> (r: &'static str)
        ensures
            r@ == self.spec_message(),
    {
        match self {
            RenderError::InvalidUtf8 => "response body is not valid UTF-8",
            RenderError::InvalidJson => "response body is not valid JSON",
        }
    }
}

/// What gets printed for one response: the status and content-type lines
/// for the diagnostic stream, the body for the primary stream.
pub struct RenderPlan {
    pub status: u16,
    pub content_type: Option<String>,
    pub body: String,
}

/// Whether the text parses as JSON.
pub uninterp spec fn json_parses(s: Seq<char>) -> bool;

/// Relies on `String::from_utf8`: it returns the decoded string exactly
/// when the bytes are valid UTF-8.
#[verifier::external_body]
fn string_from_utf8(bytes: Vec<u8>) -> (r: Option<String>)
    ensures
        r is Some <==> valid_utf8(bytes@),
        r matches Some(s) ==> s@ == decode_utf8(bytes@),
{
    String::from_utf8(bytes).ok()
}

/// Relies on `colored_json::ToColoredJson::to_colored_json_auto`: it parses
/// the text with serde_json and fails exactly when that parse fails; the
/// pretty-printed result is colored only when standard output is a
/// terminal, so nothing more is said of it.
#[verifier::external_body]
fn colorize_json(s: &str) -> (r: Option<String>)
    ensures
        r is Some <==> json_parses(s@),
{
    s.to_colored_json_auto().ok()
}

/// Whether a content type announces JSON: it starts with `application/json`.
pub open spec fn spec_is_json_content_type(s: Seq<char>) -> bool {
    s.len() >= "application/json"@.len() && s.subrange(
        0,
        "application/json"@.len() as int,
    ) == "application/json"@
}

/// The executable counterpart of `spec_is_json_content_type`.
pub fn is_json_content_type(s: &str) -> (r: bool)
    ensures
        r == spec_is_json_content_type(s@),
{
    proof {
        reveal_strlit("application/json");
    }
    let pat = "application/json";
    let n = s.unicode_len();
    if n < 16 {
        return false;
    }
    let mut i: usize = 0;
    while i < 16
        invariant
            i <= 16,
            n == s@.len(),
            16 <= n,
            pat@ == "application/json"@,
            pat@.len() == 16,
            forall|j: int| 0 <= j < i ==> s@[j] == pat@[j],
        decreases 16 - i,
    {
        if s.get_char(i) != pat.get_char(i) {
            proof {
                assert(s@.subrange(0, 16)[i as int] == s@[i as int]);
            }
            return false;
        }
        i += 1;
    }
    proof {
        assert(s@.subrange(0, 16) =~= pat@);
    }
    true
}

/// Decides what one response prints.
///
/// A body that is not UTF-8 fails; under a JSON content type a body that
/// does not parse as JSON fails; everything else goes through: the decoded
/// body verbatim, or its pretty-printed JSON. A missing content type skips
/// the JSON check altogether.
pub fn render_response(status: u16, content_type: Option<String>, body: Vec<u8>) -> (r: Result<
    RenderPlan,
    RenderError,
>)
    ensures
        !valid_utf8(body@) ==> r matches Err(RenderError::InvalidUtf8),
        valid_utf8(body@) ==> {
            let text = decode_utf8(body@);
            let json_ct = content_type matches Some(ct) && spec_is_json_content_type(ct@);
            &&& json_ct ==> {
                &&& r is Ok <==> json_parses(text)
                &&& !json_parses(text) ==> r matches Err(RenderError::InvalidJson)
            }
            &&& !json_ct ==> (r matches Ok(p) && p.body@ == text)
        },
        r matches Ok(p) ==> p.status == status && p.content_type == content_type,
{
    let text = match string_from_utf8(body) {
        Some(s) => s,
        None => {
            return Err(RenderError::InvalidUtf8);
        },
    };
    match content_type {
        None => Ok(RenderPlan { status, content_type: None, body: text }),
        Some(ct) => {
            if is_json_content_type(ct.as_str()) {
                match colorize_json(text.as_str()) {
                    Some(pretty) => Ok(RenderPlan { status, content_type: Some(ct), body: pretty }),
                    None => Err(RenderError::InvalidJson),
                }
            } else {
                Ok(RenderPlan { status, content_type: Some(ct), body: text })
            }
        },
    }
}

} // verus!
