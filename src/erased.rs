//! The erased strategy: the original cause is dropped, and only its
//! category and one message survive.
use vstd::prelude::*;
use vstd::string::*;
use crate::fault::{context_message, describe_failure, FileOutcome, Stage};

verus! {

/// An error reduced to a category and a message.
#[derive(Debug, PartialEq, Eq)]
pub struct ErasedError {
    pub kind: std::io::ErrorKind,
    pub message: String,
}

/// The name of a category as `Debug` prints it.
pub uninterp spec fn kind_label(kind: std::io::ErrorKind) -> Seq<char>;

/// Relies on the derived `Debug` of `std::io::ErrorKind`: the variant's
/// name, which depends on the category alone.
#[verifier::external_body]
fn kind_name(kind: std::io::ErrorKind) -> (r: String)
    ensures
        r@ == kind_label(kind),
{
    format!("{:?}", kind)
}

/// An erased error as text: "<kind>: <message>".
pub open spec fn rendered(kind: std::io::ErrorKind, message: Seq<char>) -> Seq<char> {
    kind_label(kind) + ": "@ + message
}

/// `part` occurs in `whole` as a contiguous run.
pub open spec fn occurs_in(part: Seq<char>, whole: Seq<char>) -> bool {
    exists|i: int| 0 <= i && i + part.len() <= whole.len() && #[trigger] whole.subrange(i, i + part.len()) == part
}

impl ErasedError {
    /// The error as text: its category, then its message.
    pub fn render(&self) -> (r: String)
        ensures
            r@ == rendered(self.kind, self.message@),
    {
        let mut text = kind_name(self.kind);
        text.append(": ");
        text.append(self.message.as_str());
        text
    }
}

/// The erased reader's answer to a read attempt on `path`.
///
/// The contents come back unchanged. A failure keeps only the fault's
/// category and the message "failed to open <path>" or
/// "failed to read <path>"; the underlying cause is dropped.
pub fn erased_outcome(path: &str, outcome: FileOutcome) -> (r: Result<String, ErasedError>)
    ensures
        outcome is Contents <==> r is Ok,
        outcome matches FileOutcome::Contents(c) ==> r->Ok_0 == c,
        outcome matches FileOutcome::Failed { stage, fault } ==> r matches Err(e) && e.kind
            == fault.kind && e.message@ == context_message(stage, path@),
{
    match outcome {
        FileOutcome::Contents(c) => Ok(c),
        FileOutcome::Failed { stage, fault } => {
            let message = describe_failure(stage, path);
            Err(ErasedError { kind: fault.kind, message })
        },
    }
}

/// The text of an erased error from a failed read names the file it was
/// reading and the category of the fault.
pub proof fn lemma_erased_report_names_path_and_kind(
    stage: Stage,
    kind: std::io::ErrorKind,
    path: Seq<char>,
)
    ensures
        occurs_in(path, rendered(kind, context_message(stage, path))),
        occurs_in(kind_label(kind), rendered(kind, context_message(stage, path))),
{
    let text = rendered(kind, context_message(stage, path));
    let prefix = match stage {
        Stage::Open => "failed to open "@,
        Stage::Read => "failed to read "@,
    };
    let at = (kind_label(kind).len() + ": "@.len() + prefix.len()) as int;
    assert(text == kind_label(kind) + ": "@ + prefix + path);
    assert(text.subrange(at, at + path.len() as int) =~= path);
    assert(text.subrange(0, 0 + kind_label(kind).len() as int) =~= kind_label(kind));
}

} // verus!
