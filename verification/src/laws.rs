//! Laws of the request translation.
//!
//! These public proofs state, once and for all inputs, what the contracts
//! of the builders already carry piecewise: a composed URI keeps the base's
//! scheme and authority, the per-todo paths carry the id faithfully, and
//! the reading commands send nothing.

use vstd::prelude::*;

verus! {

use crate::command::{Command, Method, spec_body, spec_method, spec_path};
use crate::digits::{dec_digits, dec_i64, dec_value, lemma_dec_digits_value};
use crate::request::spec_url;
use crate::url::BaseUrl;

/// Law: every composed request URI keeps the base's scheme and authority.
/// It reads, in order: the scheme, `://`, the authority, and the command's
/// path, which begins with `/`.
pub proof fn lemma_url_preserves_base(base: BaseUrl, cmd: Command)
    ensures
        spec_url(base, cmd).len() == base.scheme@.len() + 3 + base.authority@.len() + spec_path(
            cmd,
        ).len(),
        spec_url(base, cmd).subrange(0, base.scheme@.len() as int) == base.scheme@,
        spec_url(base, cmd).subrange(
            base.scheme@.len() as int,
            base.scheme@.len() as int + 3,
        ) == "://"@,
        spec_url(base, cmd).subrange(
            base.scheme@.len() as int + 3,
            base.scheme@.len() as int + 3 + base.authority@.len() as int,
        ) == base.authority@,
        spec_url(base, cmd).subrange(
            base.scheme@.len() as int + 3 + base.authority@.len() as int,
            spec_url(base, cmd).len() as int,
        ) == spec_path(cmd),
        spec_path(cmd)[0] == '/',
{
    reveal_strlit("://");
    reveal_strlit("/v1/todos");
    reveal_strlit("/v1/todos/");
    let u = spec_url(base, cmd);
    let sl = base.scheme@.len() as int;
    let al = base.authority@.len() as int;
    assert(u.subrange(0, sl) =~= base.scheme@);
    assert(u.subrange(sl, sl + 3) =~= "://"@);
    assert(u.subrange(sl + 3, sl + 3 + al) =~= base.authority@);
    assert(u.subrange(sl + 3 + al, u.len() as int) =~= spec_path(cmd));
}

/// Law: the per-todo commands all address `/v1/todos/<id>`, the id in
/// plain decimal, and the digits written denote the id itself.
pub proof fn lemma_id_path_exact(id: i64, body: String, completed: bool)
    ensures
        spec_path(Command::Read { id }) == "/v1/todos/"@ + dec_i64(id as int),
        spec_path(Command::Update { id, body, completed }) == "/v1/todos/"@ + dec_i64(id as int),
        spec_path(Command::Delete { id }) == "/v1/todos/"@ + dec_i64(id as int),
        id >= 0 ==> dec_i64(id as int) == dec_digits(id as nat) && dec_value(
            dec_digits(id as nat),
        ) == id,
        id < 0 ==> dec_i64(id as int) == seq!['-'] + dec_digits((-(id as int)) as nat) && dec_value(
            dec_digits((-(id as int)) as nat),
        ) == -(id as int),
{
    if id >= 0 {
        lemma_dec_digits_value(id as nat);
    } else {
        lemma_dec_digits_value((-(id as int)) as nat);
    }
}

/// Law: `List` and `Read` use GET and carry no request body, and `Delete`
/// uses DELETE and carries none either.
pub proof fn lemma_reading_commands_bare(id: i64)
    ensures
        spec_method(Command::List) == Method::Get,
        spec_method(Command::Read { id }) == Method::Get,
        spec_method(Command::Delete { id }) == Method::Delete,
        spec_body(Command::List) is None,
        spec_body(Command::Read { id }) is None,
        spec_body(Command::Delete { id }) is None,
{
}

} // verus!
