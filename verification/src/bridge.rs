//! The boundary's entry points, on plain values.
//!
//! Each function here is what one exported call decides once its foreign
//! strings have been read: `None` stands for a string that was absent or
//! not valid text. Opening a resource and running a command are the
//! engine's work and come in as closures; everything that is answered is
//! decided here, and every answer is one envelope.

use crate::engine::{
    engine_result, engine_result_text, is_engine_failure, malformed_command_text,
    unencodable_output_text, EngineOutcome,
};
use crate::envelope::{
    engine_error_json, engine_error_text, error_json, error_text, lemma_error_text_is_internal,
    lemma_error_text_plain, ok_json, ok_text,
};
use crate::handle::{invalid_handle_text, HandleRegistry};
use crate::text::{decimal, json_string, lemma_plain_text_unescaped, u64_to_decimal};
use vstd::prelude::*;
use vstd::string::*;

verus! {

/// The reason given when the path of a resource is absent or not text.
pub open spec fn path_missing_text() -> Seq<char> {
    "path is null or invalid UTF-8"@
}

/// The reason given when the command is absent or not text.
pub open spec fn command_missing_text() -> Seq<char> {
    "command_json is null or invalid UTF-8"@
}

/// The reason given when a call ended in a fault instead of an answer.
pub open spec fn fault_text() -> Seq<char> {
    "panic in Rust bridge"@
}

/// The name that the acknowledgement carries.
pub open spec fn bridge_name_text() -> Seq<char> {
    "strata-foundry-bridge"@
}

/// The answer to an attempt to open a resource: the new handle id as a
/// decimal number in a success envelope, or the reason in a failure
/// envelope.
pub open spec fn open_reply_text(result: Result<u64, String>) -> Seq<char> {
    match result {
        Ok(id) => ok_text(decimal(id as nat)),
        Err(reason) => error_text(reason@),
    }
}

/// The answer to an execution for each outcome of the engine. An output
/// goes out as it is, not wrapped again. An error that the engine reported
/// keeps its own structure and goes out as `{"error":<structure>}`. A
/// command that did not decode and an output that could not be encoded are
/// failures of the transport and go out as internal errors, and so does an
/// engine error that could not be encoded, around its plain message.
pub open spec fn outcome_reply_text(outcome: EngineOutcome) -> Seq<char> {
    match outcome {
        EngineOutcome::Output(json) => json@,
        EngineOutcome::EngineError(json) => engine_error_text(json@),
        EngineOutcome::MalformedCommand(detail) => error_text(malformed_command_text(detail@)),
        EngineOutcome::UnencodableOutput(detail) => error_text(unencodable_output_text(detail@)),
        EngineOutcome::UnencodableError(detail) => error_text(detail@),
    }
}

/// Makes the answer to an attempt to open a resource.
pub fn open_reply(result: Result<u64, String>) -> (reply: String)
    ensures
        reply@ == open_reply_text(result),
{
    match result {
        Ok(id) => {
            let number = u64_to_decimal(id);
            ok_json(number.as_str())
        },
        Err(reason) => error_json(reason.as_str()),
    }
}

/// Makes the answer to an execution from what the engine reported.
pub fn outcome_reply(outcome: EngineOutcome) -> (reply: String)
    ensures
        reply@ == outcome_reply_text(outcome),
{
    proof {
        lemma_outcome_reply_from_result(outcome);
    }
    let from_engine = match &outcome {
        EngineOutcome::EngineError(_) => true,
        EngineOutcome::UnencodableError(_) => true,
        _ => false,
    };
    match engine_result(outcome) {
        Ok(output) => output,
        Err(reason) => if from_engine {
            engine_error_json(reason.as_str())
        } else {
            error_json(reason.as_str())
        },
    }
}

/// The answer to an execution, told from the result of the execution: the
/// output itself on success; on failure the reason, handed on as the error
/// structure it is where the engine reported it, and wrapped as an internal
/// error where the transport failed.
pub proof fn lemma_outcome_reply_from_result(outcome: EngineOutcome)
    ensures
        outcome_reply_text(outcome) == (match engine_result_text(outcome) {
            Ok(output) => output,
            Err(reason) => if is_engine_failure(outcome) {
                engine_error_text(reason)
            } else {
                error_text(reason)
            },
        }),
{
    if let EngineOutcome::UnencodableError(detail) = outcome {
        lemma_error_text_is_internal(detail@);
    }
}

/// Reads the path and opens the resource at it. Without a path nothing is
/// opened and the reason says so. The configuration text is accepted and
/// ignored.
pub fn open_resource<R, F>(path: Option<&str>, config_json: Option<&str>, opener: F) -> (opened:
    Result<R, String>) where F: FnOnce(&str) -> Result<R, String>
    requires
        path matches Some(p) ==> opener.requires((p,)),
    ensures
        path is None ==> opened is Err && opened->Err_0@ == path_missing_text(),
        path matches Some(p) ==> opener.ensures((p,), opened),
{
    match path {
        None => Err("path is null or invalid UTF-8".to_owned()),
        Some(path_str) => opener(path_str),
    }
}

/// Registers the outcome of opening a resource and answers with its handle
/// id, or with the reason why nothing was opened.
pub fn strata_register<R>(registry: &mut HandleRegistry<R>, opened: Result<R, String>) -> (reply:
    String)
    ensures
        exists|result: Result<u64, String>|
            {
                &&& HandleRegistry::registered(*old(registry), opened, *final(registry), result)
                &&& reply@ == open_reply_text(result)
            },
{
    let result = registry.register(opened);
    open_reply(result)
}

/// Opens the resource at `path` and answers with its handle id. Without a
/// path nothing is opened and the registry stays as it is. The
/// configuration text is accepted and ignored.
pub fn strata_open<R, F>(
    registry: &mut HandleRegistry<R>,
    path: Option<&str>,
    config_json: Option<&str>,
    opener: F,
) -> (reply: String) where F: FnOnce(&str) -> Result<R, String>
    requires
        path matches Some(p) ==> opener.requires((p,)),
    ensures
        path is None ==> {
            &&& reply@ == error_text(path_missing_text())
            &&& final(registry)@ == old(registry)@
            &&& final(registry).next_id() == old(registry).next_id()
        },
        path matches Some(p) ==> exists|opened: Result<R, String>, result: Result<u64, String>|
            {
                &&& opener.ensures((p,), opened)
                &&& HandleRegistry::registered(*old(registry), opened, *final(registry), result)
                &&& reply@ == open_reply_text(result)
            },
{
    let opened = open_resource(path, config_json, opener);
    strata_register(registry, opened)
}

/// Opens an in-memory resource and answers with its handle id.
pub fn strata_open_memory<R, F>(registry: &mut HandleRegistry<R>, opener: F) -> (reply:
    String) where F: FnOnce() -> Result<R, String>
    requires
        opener.requires(()),
    ensures
        exists|opened: Result<R, String>, result: Result<u64, String>|
            {
                &&& opener.ensures((), opened)
                &&& HandleRegistry::registered(*old(registry), opened, *final(registry), result)
                &&& reply@ == open_reply_text(result)
            },
{
    let opened = opener();
    strata_register(registry, opened)
}

/// Closes a handle. Nothing is answered, and an id that is not open is
/// ignored.
pub fn strata_close<R>(registry: &mut HandleRegistry<R>, handle: u64)
    ensures
        final(registry)@ == old(registry)@.remove(handle),
        final(registry).next_id() == old(registry).next_id(),
        !old(registry).is_open(handle) ==> final(registry)@ == old(registry)@,
        old(registry).well_formed() ==> final(registry).well_formed(),
{
    registry.close(handle);
}

/// Runs one command against a handle and answers with the engine's output,
/// with the engine's error in a failure envelope, or with the failure
/// envelope of the boundary itself. The command is looked at first, then the
/// handle: without a command the handle does not matter, and for a handle
/// that is not open the engine is not asked.
pub fn strata_execute<R, F>(
    registry: &HandleRegistry<R>,
    handle: u64,
    command_json: Option<&str>,
    run: F,
) -> (reply: String) where F: FnOnce(&R, &str) -> EngineOutcome
    requires
        command_json matches Some(command) ==> (registry.is_open(handle) ==> run.requires(
            (&registry@[handle], command),
        )),
    ensures
        command_json is None ==> reply@ == error_text(command_missing_text()),
        command_json is Some && !registry.is_open(handle) ==> reply@ == error_text(
            invalid_handle_text(),
        ),
        command_json matches Some(command) ==> (registry.is_open(handle) ==> exists|
            outcome: EngineOutcome,
        |
            {
                &&& run.ensures((&registry@[handle], command), outcome)
                &&& reply@ == outcome_reply_text(outcome)
            }),
{
    match command_json {
        None => error_json("command_json is null or invalid UTF-8"),
        Some(json_str) => match registry.dispatch(handle, json_str, run) {
            Some(outcome) => outcome_reply(outcome),
            None => error_json("invalid handle"),
        },
    }
}

/// The answer of a call behind the fault barrier: what the call answered
/// if it came to an end, the fault envelope if it did not.
pub fn fault_reply(outcome: Option<String>) -> (reply: String)
    ensures
        outcome matches Some(answer) ==> reply == answer,
        outcome is None ==> reply@ == error_text(fault_text()),
{
    match outcome {
        Some(answer) => answer,
        None => {
            proof {
                lemma_fault_envelope();
            }
            "{\"error\":{\"Internal\":{\"reason\":\"panic in Rust bridge\"}}}".to_owned()
        },
    }
}

/// The fixed acknowledgement, by which a caller sees that the library is
/// loaded: the bridge's name in a success envelope.
pub fn strata_ping() -> (reply: String)
    ensures
        reply@ == ok_text(json_string(bridge_name_text())),
{
    proof {
        lemma_ping_envelope();
    }
    "{\"ok\":\"strata-foundry-bridge\"}".to_owned()
}

/// The fault envelope, letter for letter.
pub proof fn lemma_fault_envelope()
    ensures
        error_text(fault_text()) == "{\"error\":{\"Internal\":{\"reason\":\"panic in Rust bridge\"}}}"@,
{
    reveal_strlit("panic in Rust bridge");
    reveal_strlit("{\"error\":{\"Internal\":{\"reason\":");
    reveal_strlit("}}}");
    reveal_strlit("{\"error\":{\"Internal\":{\"reason\":\"panic in Rust bridge\"}}}");
    lemma_error_text_plain(fault_text());
    assert(error_text(fault_text())
        =~= "{\"error\":{\"Internal\":{\"reason\":\"panic in Rust bridge\"}}}"@);
}

/// The envelope for an id that names no open handle, letter for letter.
pub proof fn lemma_invalid_handle_envelope()
    ensures
        error_text(invalid_handle_text()) == "{\"error\":{\"Internal\":{\"reason\":\"invalid handle\"}}}"@,
{
    reveal_strlit("invalid handle");
    reveal_strlit("{\"error\":{\"Internal\":{\"reason\":");
    reveal_strlit("}}}");
    reveal_strlit("{\"error\":{\"Internal\":{\"reason\":\"invalid handle\"}}}");
    lemma_error_text_plain(invalid_handle_text());
    assert(error_text(invalid_handle_text())
        =~= "{\"error\":{\"Internal\":{\"reason\":\"invalid handle\"}}}"@);
}

/// The acknowledgement, letter for letter.
pub proof fn lemma_ping_envelope()
    ensures
        ok_text(json_string(bridge_name_text())) == "{\"ok\":\"strata-foundry-bridge\"}"@,
{
    reveal_strlit("strata-foundry-bridge");
    reveal_strlit("{\"ok\":");
    reveal_strlit("}");
    reveal_strlit("{\"ok\":\"strata-foundry-bridge\"}");
    lemma_plain_text_unescaped(bridge_name_text());
    assert(ok_text(json_string(bridge_name_text())) =~= "{\"ok\":\"strata-foundry-bridge\"}"@);
}

} // verus!
