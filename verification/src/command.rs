//! The subcommands of the client and what each one asks of the remote API.
//!
//! A `Command` is built once from the command line and turned into exactly
//! one request: a method, a path under `/v1/todos`, and an optional JSON
//! body. The spec functions here state that mapping piece by piece: which
//! method, which path, which body.

use vstd::prelude::*;

verus! {

use crate::digits::dec_i64;
use crate::json_text::{create_body_text, update_body_text};

/// The HTTP method of a request.
#[derive(Clone, Copy, Debug, PartialEq, Eq, Structural)]
pub enum Method {
    Get,
    Post,
    Put,
    Delete,
}

impl Method {
    /// The method's name on the wire.
    pub open spec fn spec_name(self) -> Seq<char> {
        match self {
            Method::Get => "GET"@,
            Method::Post => "POST"@,
            Method::Put => "PUT"@,
            Method::Delete => "DELETE"@,
        }
    }

    /// The method's name on the wire.
    pub fn name(&self) -> (r: &'static str)
        ensures
            r@ == self.spec_name(),
    {
        match self {
            Method::Get => "GET",
            Method::Post => "POST",
            Method::Put => "PUT",
            Method::Delete => "DELETE",
        }
    }
}

/// One invocation of the client: what to do with which todo.
pub enum Command {
    /// List all todos.
    List,
    /// Create a new todo with the given text.
    Create { body: String },
    /// Read the todo with the given id.
    Read { id: i64 },
    /// Replace the text and completion flag of the todo with the given id.
    Update { id: i64, body: String, completed: bool },
    /// Delete the todo with the given id.
    Delete { id: i64 },
}

/// The HTTP method a command uses.
pub open spec fn spec_method(c: Command) -> Method {
    match c {
        Command::List => Method::Get,
        Command::Create { .. } => Method::Post,
        Command::Read { .. } => Method::Get,
        Command::Update { .. } => Method::Put,
        Command::Delete { .. } => Method::Delete,
    }
}

/// The request path a command uses: the collection for `List` and
/// `Create`, the todo's own path for the others, with the id in plain
/// decimal.
pub open spec fn spec_path(c: Command) -> Seq<char> {
    match c {
        Command::List => "/v1/todos"@,
        Command::Create { .. } => "/v1/todos"@,
        Command::Read { id } => "/v1/todos/"@ + dec_i64(id as int),
        Command::Update { id, .. } => "/v1/todos/"@ + dec_i64(id as int),
        Command::Delete { id } => "/v1/todos/"@ + dec_i64(id as int),
    }
}

/// The request body a command sends, if any: only `Create` and `Update`
/// carry one.
pub open spec fn spec_body(c: Command) -> Option<Seq<char>> {
    match c {
        Command::List => None,
        Command::Create { body } => Some(create_body_text(body@)),
        Command::Read { .. } => None,
        Command::Update { body, completed, .. } => Some(update_body_text(body@, completed)),
        Command::Delete { .. } => None,
    }
}

/// The executable counterpart of `spec_method`.
pub fn method_of(c: &Command) -> (r: Method)
    ensures
        r == spec_method(*c),
{
    match c {
        Command::List => Method::Get,
        Command::Create { .. } => Method::Post,
        Command::Read { .. } => Method::Get,
        Command::Update { .. } => Method::Put,
        Command::Delete { .. } => Method::Delete,
    }
}

/// The executable counterpart of `spec_path`.
pub fn path_of(c: &Command) -> (r: String)
    ensures
        r@ == spec_path(*c),
{
    match c {
        Command::List => String::from_str("/v1/todos"),
        Command::Create { .. } => String::from_str("/v1/todos"),
        Command::Read { id } => id_path(*id),
        Command::Update { id, .. } => id_path(*id),
        Command::Delete { id } => id_path(*id),
    }
}

/// The executable counterpart of `spec_body`.
pub fn body_of(c: &Command) -> (r: Option<String>)
    ensures
        spec_body(*c) is None <==> r is None,
        spec_body(*c) matches Some(b) ==> (r matches Some(s) && s@ == b),
{
    match c {
        Command::List => None,
        Command::Create { body } => Some(crate::json_text::create_body(body.as_str())),
        Command::Read { .. } => None,
        Command::Update { id: _, body, completed } => Some(
            crate::json_text::update_body(body.as_str(), *completed),
        ),
        Command::Delete { .. } => None,
    }
}

/// The path of one todo, id in plain decimal.
fn id_path(id: i64) -> (r: String)
    ensures
        r@ == "/v1/todos/"@ + dec_i64(id as int),
{
    let mut out = String::from_str("/v1/todos/");
    out.append(crate::digits::fmt_i64(id).as_str());
    out
}

} // verus!
