//! What can go wrong around a commit, and which failures stop it.

use vstd::prelude::*;

verus! {

/// A failure of the Bitcoin network or of the node that speaks for it: the
/// node was not reachable, a broadcast was rejected, funds were missing.
#[derive(Debug, PartialEq, Eq)]
pub struct RpcError {
    pub message: String,
}

/// A failure to read or write the anchoring state in the ledger's storage.
#[derive(Debug, PartialEq, Eq)]
pub struct StorageError {
    pub message: String,
}

/// A failure of one anchoring cycle.
#[derive(Debug, PartialEq, Eq)]
pub enum Error {
    Rpc(RpcError),
    Storage(StorageError),
}

/// How an anchoring cycle ended, as far as the ledger's commit goes on.
#[derive(Debug, PartialEq, Eq)]
pub enum CommitReport {
    /// The cycle ran to its end.
    Done,
    /// The network failed: the cycle was given up, the next block tries
    /// again. The failure is kept for the log.
    Skipped(RpcError),
}

/// Decides what a failed anchoring cycle means for the block commit: a
/// failure of the network never stops it, a failure of the storage always
/// does, and is handed on as it is.
pub fn commit_result(outcome: Result<(), Error>) -> (result: Result<CommitReport, StorageError>)
    ensures
        match outcome {
            Ok(_) => result == Ok::<CommitReport, StorageError>(CommitReport::Done),
            Err(Error::Rpc(e)) => result == Ok::<CommitReport, StorageError>(
                CommitReport::Skipped(e),
            ),
            Err(Error::Storage(e)) => result == Err::<CommitReport, StorageError>(e),
        },
{
    match outcome {
        Ok(_) => Ok(CommitReport::Done),
        Err(Error::Rpc(e)) => Ok(CommitReport::Skipped(e)),
        Err(Error::Storage(e)) => Err(e),
    }
}

} // verus!
