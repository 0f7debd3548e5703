//! Why an intercepted operation did not succeed, and how the engine is told.
use vstd::prelude::*;

verus! {

/// Result code by which the engine learns that the log was not checkpointed
/// and must be kept; the operation may be tried again later.
pub const SQLITE_BUSY: i32 = 5;

/// Result code by which the engine learns that a write could not be made
/// safe.
pub const SQLITE_IOERR_WRITE: i32 = 778;

/// The error type of the wrapped log, `libsql_sys::wal::Error`. Its values
/// are carried through untouched; nothing is read out of them here.
#[verifier::external_type_specification]
#[verifier::external_body]
pub struct ExEngineError(libsql_sys::wal::Error);

/// The error that `libsql_sys::wal::Error::new` builds from a result code.
pub uninterp spec fn error_with_code(code: i32) -> libsql_sys::wal::Error;

/// `libsql_sys::wal::Error::new` returns for each result code one error,
/// determined by the code alone. It accepts every code.
pub assume_specification[ libsql_sys::wal::Error::new ](result_code: i32) -> (error:
    libsql_sys::wal::Error)
    ensures
        error == error_with_code(result_code),
;

/// A reason for which the interceptor itself turns an operation down.
#[derive(Clone, Copy, Debug, PartialEq, Eq)]
pub enum Refusal {
    /// A checkpoint weaker than `Truncate` was asked for.
    WeakCheckpoint,
    /// No frame has been committed in the current generation, so there is
    /// nothing to checkpoint.
    NothingCommitted,
    /// The replicator did not confirm the durability target in time.
    DurabilityTimeout,
    /// Waiting for the durability target ended in an error.
    DurabilityFailure,
    /// The previous generation has not been fully snapshotted yet.
    GenerationNotSnapshotted,
    /// The snapshot that follows a completed checkpoint failed. The local
    /// checkpoint stands; it is not rolled back.
    SnapshotFailure,
    /// The session slot is empty: replication is disabled or shutting down.
    ReplicationUnavailable,
}

impl Refusal {
    /// Whether the refusal asks the engine to keep the log and retry later,
    /// as opposed to reporting a failed write.
    pub open spec fn busy(self) -> bool {
        match self {
            Refusal::WeakCheckpoint => true,
            Refusal::NothingCommitted => true,
            Refusal::DurabilityTimeout => true,
            Refusal::GenerationNotSnapshotted => true,
            Refusal::DurabilityFailure => false,
            Refusal::SnapshotFailure => false,
            Refusal::ReplicationUnavailable => false,
        }
    }

    /// The result code that reports the refusal.
    pub open spec fn result_code(self) -> i32 {
        if self.busy() {
            SQLITE_BUSY
        } else {
            SQLITE_IOERR_WRITE
        }
    }

    /// Whether the refusal asks the engine to keep the log and retry later.
    pub fn is_busy(self) -> (busy: bool)
        ensures
            busy == self.busy(),
    {
        match self {
            Refusal::WeakCheckpoint => true,
            Refusal::NothingCommitted => true,
            Refusal::DurabilityTimeout => true,
            Refusal::GenerationNotSnapshotted => true,
            Refusal::DurabilityFailure => false,
            Refusal::SnapshotFailure => false,
            Refusal::ReplicationUnavailable => false,
        }
    }

    /// The result code that reports the refusal: `SQLITE_BUSY` for a refusal
    /// that can be retried, `SQLITE_IOERR_WRITE` for any other.
    pub fn code(self) -> (code: i32)
        ensures
            code == self.result_code(),
    {
        if self.is_busy() {
            SQLITE_BUSY
        } else {
            SQLITE_IOERR_WRITE
        }
    }
}

/// Why an intercepted operation failed.
#[derive(Clone, Copy, Debug, PartialEq, Eq)]
pub enum Failure {
    /// The wrapped log failed; its error is handed on as it came.
    Engine(libsql_sys::wal::Error),
    /// The wrapped log did its part, or was never asked; the interceptor
    /// refuses.
    Refused(Refusal),
}

impl Failure {
    /// The error the engine receives for this failure.
    pub open spec fn engine_error(self) -> libsql_sys::wal::Error {
        match self {
            Failure::Engine(error) => error,
            Failure::Refused(refusal) => error_with_code(refusal.result_code()),
        }
    }

    /// The error to hand to the engine: the wrapped log's own error, or the
    /// one built from the refusal's result code.
    pub fn into_engine_error(self) -> (error: libsql_sys::wal::Error)
        ensures
            error == self.engine_error(),
    {
        match self {
            Failure::Engine(error) => error,
            Failure::Refused(refusal) => libsql_sys::wal::Error::new(refusal.code()),
        }
    }
}

} // verus!
