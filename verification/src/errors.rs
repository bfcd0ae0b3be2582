use vstd::prelude::*;

verus! {

/// Failure kinds reported by the protocol's operations. Every violated
/// precondition aborts the whole operation with no partial mutation.
#[derive(Clone, Copy, Debug, PartialEq, Eq, Structural)]
pub enum ProtocolError {
    /// A required string field of a submission was empty.
    InvalidArgument,
    /// A voter without a credential, or a withdrawer other than the submitter.
    Unauthorized,
    /// The time-lock has not yet elapsed.
    TooEarly,
    /// Rejections outnumber approvals at withdrawal time.
    VoteRejected,
    /// The custody transfer or the reward mint cannot be applied.
    TransferFailure,
    /// A live record already exists for the submitter.
    DuplicateRecord,
    /// No live record exists for the addressed submitter identity.
    RecordNotFound,
}

} // verus!
