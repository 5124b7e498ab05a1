//! The wire envelopes that every boundary call answers with.
//!
//! A success is `{"ok":<value>}`. A failure is `{"error":<error>}`, where
//! the error is a tagged structure: the engine's own, handed on as it is, or
//! `{"Internal":{"reason":<JSON string>}}` for a failure of the boundary
//! itself. A caller looks for the `"error"` key first and takes everything
//! else for a success.

use crate::text::{json_string, json_string_literal, lemma_plain_text_unescaped, needs_escape};
use vstd::prelude::*;
use vstd::string::*;

verus! {

/// The text of a success envelope around the JSON value `value`.
pub open spec fn ok_text(value: Seq<char>) -> Seq<char> {
    "{\"ok\":"@ + value + "}"@
}

/// The text of a failure envelope whose reason is the message `reason`,
/// carried as a JSON string literal.
pub open spec fn error_text(reason: Seq<char>) -> Seq<char> {
    "{\"error\":{\"Internal\":{\"reason\":"@ + json_string(reason) + "}}}"@
}

/// The text of an internal error around the message `reason`: the tagged
/// structure that a failure envelope of the boundary itself carries.
pub open spec fn internal_error_text(reason: Seq<char>) -> Seq<char> {
    "{\"Internal\":{\"reason\":"@ + json_string(reason) + "}}"@
}

/// The text of a failure envelope around an already encoded error
/// structure, which is handed on as it is.
pub open spec fn engine_error_text(error: Seq<char>) -> Seq<char> {
    "{\"error\":"@ + error + "}"@
}

/// Wraps an already encoded JSON value in a success envelope.
pub fn ok_json(value: &str) -> (reply: String)
    ensures
        reply@ == ok_text(value@),
{
    let mut reply = String::from_str("{\"ok\":");
    reply.append(value);
    reply.append("}");
    reply
}

/// Wraps a plain message in a failure envelope, escaping it as JSON.
pub fn error_json(msg: &str) -> (reply: String)
    ensures
        reply@ == error_text(msg@),
{
    let literal = json_string_literal(msg);
    let mut reply = String::from_str("{\"error\":{\"Internal\":{\"reason\":");
    reply.append(literal.as_str());
    reply.append("}}}");
    reply
}

/// Wraps an already encoded error structure in a failure envelope, without
/// escaping or wrapping it again.
pub fn engine_error_json(error: &str) -> (reply: String)
    ensures
        reply@ == engine_error_text(error@),
{
    let mut reply = String::from_str("{\"error\":");
    reply.append(error);
    reply.append("}");
    reply
}

/// Encodes a plain message as an internal error structure, escaping it as
/// JSON.
pub fn internal_error(msg: &str) -> (error: String)
    ensures
        error@ == internal_error_text(msg@),
{
    let literal = json_string_literal(msg);
    let mut error = String::from_str("{\"Internal\":{\"reason\":");
    error.append(literal.as_str());
    error.append("}}");
    error
}

/// The failure envelope of a message is the failure envelope around its
/// internal error structure.
pub proof fn lemma_error_text_is_internal(reason: Seq<char>)
    ensures
        error_text(reason) == engine_error_text(internal_error_text(reason)),
{
    reveal_strlit("{\"error\":{\"Internal\":{\"reason\":");
    reveal_strlit("{\"error\":");
    reveal_strlit("{\"Internal\":{\"reason\":");
    reveal_strlit("}}}");
    reveal_strlit("}}");
    reveal_strlit("}");
    assert(error_text(reason) =~= engine_error_text(internal_error_text(reason)));
}

/// A failure envelope never reads as a success envelope, and the other way
/// round: the two begin with different keys.
pub proof fn lemma_envelopes_differ(value: Seq<char>, reason: Seq<char>)
    ensures
        ok_text(value) != error_text(reason),
{
    reveal_strlit("{\"ok\":");
    reveal_strlit("{\"error\":{\"Internal\":{\"reason\":");
    assert(ok_text(value)[2] == 'o');
    assert(error_text(reason)[2] == 'e');
}

/// The same holds of a failure envelope around an engine's error.
pub proof fn lemma_engine_error_differs_from_ok(value: Seq<char>, error: Seq<char>)
    ensures
        ok_text(value) != engine_error_text(error),
{
    reveal_strlit("{\"ok\":");
    reveal_strlit("{\"error\":");
    assert(ok_text(value)[2] == 'o');
    assert(engine_error_text(error)[2] == 'e');
}

/// The failure envelope of a message that needs no escaping holds the
/// message as it is, between quotation marks.
pub proof fn lemma_error_text_plain(reason: Seq<char>)
    requires
        forall|i: int| 0 <= i < reason.len() ==> !needs_escape(#[trigger] reason[i]),
    ensures
        error_text(reason) == "{\"error\":{\"Internal\":{\"reason\":"@ + (seq!['"'] + reason
            + seq!['"']) + "}}}"@,
{
    lemma_plain_text_unescaped(reason);
}

} // verus!
