//! What the engine behind a handle reports for one command, and how that
//! becomes the result of an execution.
//!
//! The engine decodes the command, runs it and encodes what comes out. Each
//! of the three steps can fail, and each failure has its own wording. A
//! failure of the engine itself is an error structure of its own; the other
//! two are failures of the transport and are worded as plain messages.

use crate::envelope::{internal_error, internal_error_text};
use vstd::prelude::*;
use vstd::string::*;

verus! {

/// The outcome of handing one command to the engine.
pub enum EngineOutcome {
    /// The command ran; the field is the encoded output.
    Output(String),
    /// The command text did not decode; the field is the decoder's message.
    MalformedCommand(String),
    /// The engine refused the command; the field is its encoded error.
    EngineError(String),
    /// The engine refused the command and its error could not be encoded;
    /// the field is the error's plain message.
    UnencodableError(String),
    /// The command ran but its output could not be encoded; the field is the
    /// encoder's message.
    UnencodableOutput(String),
}

/// The result of an execution as text: the reply on success, the reason on
/// failure.
pub open spec fn result_text(result: Result<String, String>) -> Result<Seq<char>, Seq<char>> {
    match result {
        Ok(reply) => Ok(reply@),
        Err(reason) => Err(reason@),
    }
}

/// The reason given for a command that did not decode.
pub open spec fn malformed_command_text(detail: Seq<char>) -> Seq<char> {
    "invalid command JSON: "@ + detail
}

/// The error structure given for an engine error that could not be
/// encoded: an internal error around its plain message, escaped as JSON.
pub open spec fn unencodable_error_text(detail: Seq<char>) -> Seq<char> {
    internal_error_text(detail)
}

/// The reason given for an output that could not be encoded.
pub open spec fn unencodable_output_text(detail: Seq<char>) -> Seq<char> {
    "failed to serialize output: "@ + detail
}

/// Whether the outcome is a failure that the engine itself reported, so
/// that its reason is an encoded error structure and not a plain message.
pub open spec fn is_engine_failure(outcome: EngineOutcome) -> bool {
    outcome is EngineError || outcome is UnencodableError
}

/// What an execution returns for each outcome of the engine.
pub open spec fn engine_result_text(outcome: EngineOutcome) -> Result<Seq<char>, Seq<char>> {
    match outcome {
        EngineOutcome::Output(json) => Ok(json@),
        EngineOutcome::MalformedCommand(detail) => Err(malformed_command_text(detail@)),
        EngineOutcome::EngineError(json) => Err(json@),
        EngineOutcome::UnencodableError(detail) => Err(unencodable_error_text(detail@)),
        EngineOutcome::UnencodableOutput(detail) => Err(unencodable_output_text(detail@)),
    }
}

/// Turns the engine's outcome into the result of the execution: the output
/// as it is, or the reason for the failure.
pub fn engine_result(outcome: EngineOutcome) -> (result: Result<String, String>)
    ensures
        result_text(result) == engine_result_text(outcome),
{
    match outcome {
        EngineOutcome::Output(json) => Ok(json),
        EngineOutcome::MalformedCommand(detail) => {
            let mut reason = String::from_str("invalid command JSON: ");
            reason.append(detail.as_str());
            Err(reason)
        },
        EngineOutcome::EngineError(json) => Err(json),
        EngineOutcome::UnencodableError(detail) => Err(internal_error(detail.as_str())),
        EngineOutcome::UnencodableOutput(detail) => {
            let mut reason = String::from_str("failed to serialize output: ");
            reason.append(detail.as_str());
            Err(reason)
        },
    }
}

} // verus!
