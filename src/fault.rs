//! What a failed file read leaves behind, as the library sees it.
use vstd::prelude::*;
use vstd::string::*;

verus! {

#[verifier::external_type_specification]
#[verifier::external_body]
pub struct ExIoError(std::io::Error);

#[verifier::external_type_specification]
#[verifier::external_body]
pub struct ExIoErrorKind(std::io::ErrorKind);

/// The category that an I/O error was created with.
pub uninterp spec fn kind_of(e: std::io::Error) -> std::io::ErrorKind;

/// Relies on `std::io::Error::kind`: it reads the category stored in the
/// error, so equal errors give equal categories.
pub assume_specification[ std::io::Error::kind ](e: &std::io::Error) -> (r: std::io::ErrorKind)
    ensures
        r == kind_of(*e),
;

/// An underlying I/O failure together with its category.
#[derive(Debug)]
pub struct IoFault {
    pub kind: std::io::ErrorKind,
    pub cause: std::io::Error,
}

impl IoFault {
    /// Keeps `cause` with the category it was created with.
    pub fn new(cause: std::io::Error) -> (r: IoFault)
        ensures
            r.cause == cause,
            r.kind == kind_of(cause),
    {
        let kind = cause.kind();
        IoFault { kind, cause }
    }
}

/// The step of the read at which a failure happened.
#[derive(Clone, Copy, Debug, PartialEq, Eq, Structural)]
pub enum Stage {
    /// Opening the named file.
    Open,
    /// Reading the opened file to the end as text.
    Read,
}

/// What one attempt to read a file produced.
#[derive(Debug)]
pub enum FileOutcome {
    /// The whole file, decoded as text.
    Contents(String),
    /// The attempt stopped at `stage` with `fault`.
    Failed { stage: Stage, fault: IoFault },
}

/// The annotation that describes a failure at `stage` on the file `path`.
pub open spec fn context_message(stage: Stage, path: Seq<char>) -> Seq<char> {
    match stage {
        Stage::Open => "failed to open "@ + path,
        Stage::Read => "failed to read "@ + path,
    }
}

/// Builds the annotation for a failure at `stage` on the file `path`.
pub fn describe_failure(stage: Stage, path: &str) -> (r: String)
    ensures
        r@ == context_message(stage, path@),
{
    let mut msg = match stage {
        Stage::Open => String::from_str("failed to open "),
        Stage::Read => String::from_str("failed to read "),
    };
    msg.append(path);
    msg
}

} // verus!
