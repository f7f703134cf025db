//! The context-carrying strategy: one universal error type whose frames
//! say what each caller was attempting, over the original cause.
use vstd::prelude::*;
use crate::fault::{context_message, describe_failure, FileOutcome};

verus! {

#[verifier::external_type_specification]
#[verifier::external_body]
pub struct ExAnyhowError(anyhow::Error);

/// The message of an error's outermost frame, as its `Display` shows it.
pub uninterp spec fn outer_message(e: anyhow::Error) -> Seq<char>;

/// Relies on `anyhow::Context::context` for `Result`: an `Ok` value comes
/// back as it was; an `Err` comes back as an error whose outermost frame is
/// `msg` (its `Display` prints the context alone), over the original error.
#[verifier::external_body]
fn attach_context(attempt: Result<String, std::io::Error>, msg: String) -> (r: Result<
    String,
    anyhow::Error,
>)
    ensures
        attempt is Ok <==> r is Ok,
        attempt is Ok ==> r->Ok_0 == attempt->Ok_0,
        r matches Err(e) ==> outer_message(e) == msg@,
{
    anyhow::Context::context(attempt, msg)
}

/// The contextual reader's answer to a read attempt on `path`.
///
/// The contents come back unchanged. A failure at either step is wrapped
/// in one frame, "failed to open <path>" or "failed to read <path>",
/// over the underlying fault.
pub fn contextual_outcome(path: &str, outcome: FileOutcome) -> (r: Result<String, anyhow::Error>)
    ensures
        outcome is Contents <==> r is Ok,
        outcome matches FileOutcome::Contents(c) ==> r->Ok_0 == c,
        outcome matches FileOutcome::Failed { stage, .. } ==> r matches Err(e) && outer_message(e)
            == context_message(stage, path@),
{
    match outcome {
        FileOutcome::Contents(c) => Ok(c),
        FileOutcome::Failed { stage, fault } => {
            let msg = describe_failure(stage, path);
            attach_context(Err(fault.cause), msg)
        },
    }
}

} // verus!
