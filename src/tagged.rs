//! The closed-enumeration strategy: every failure is one of a fixed set of
//! variants that a caller matches exhaustively.
use vstd::prelude::*;
use crate::fault::FileOutcome;

verus! {

/// The failures of the data store, one variant per kind.
#[derive(Debug)]
pub enum DataStoreError {
    /// Opening or reading `file` failed with `source`.
    IoError { source: std::io::Error, file: String },
    /// A header did not hold what was expected.
    InvalidHeader { expected: String, found: String },
    /// Any other error, absorbed whole.
    Other(anyhow::Error),
}

impl From<anyhow::Error> for DataStoreError {
    fn from(e: anyhow::Error) -> (r: DataStoreError)
        ensures
            r == DataStoreError::Other(e),
    {
        DataStoreError::Other(e)
    }
}

impl vstd::std_specs::convert::FromSpecImpl<anyhow::Error> for DataStoreError {
    open spec fn obeys_from_spec() -> bool {
        true
    }

    open spec fn from_spec(e: anyhow::Error) -> DataStoreError {
        DataStoreError::Other(e)
    }
}

/// The tagged reader's answer to a read attempt on `path`.
///
/// The contents come back unchanged. A failure at either step becomes
/// `IoError`, holding the underlying fault and `path` verbatim.
pub fn tagged_outcome(path: &str, outcome: FileOutcome) -> (r: Result<String, DataStoreError>)
    ensures
        outcome is Contents <==> r is Ok,
        outcome matches FileOutcome::Contents(c) ==> r->Ok_0 == c,
        outcome matches FileOutcome::Failed { fault, .. } ==> r matches Err(
            DataStoreError::IoError { source, file },
        ) && source == fault.cause && file@ == path@,
{
    match outcome {
        FileOutcome::Contents(c) => Ok(c),
        FileOutcome::Failed { fault, .. } => Err(
            DataStoreError::IoError { source: fault.cause, file: path.to_string() },
        ),
    }
}

} // verus!
