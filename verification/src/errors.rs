//! The failures that an operation on the ledger can report.

use vstd::prelude::*;

verus! {

/// Why an operation was refused. A refused operation changes nothing.
#[derive(Clone, Copy, Debug, PartialEq, Eq, Structural)]
pub enum AccessRequestError {
    /// The request is not in a state from which the transition is legal.
    InvalidRequestStatus,
    /// A text field is longer than its cap.
    FieldTooLong,
    /// The caller holds no sufficient credential, or does not own the record.
    Unauthorized,
    /// No record of the expected kind lives at the address.
    NotFound,
    /// The address of a new record is already occupied.
    AlreadyExists,
    /// The counter of the family was already set up.
    AlreadyInitialized,
    /// The counter of the family is exhausted.
    Overflow,
    /// No address can be derived from the seeds.
    InvalidSeeds,
}

/// How an operation ends: well, or refused with the reason.
pub type Verdict = Result<(), AccessRequestError>;

/// Whether an operation was refused for the given reason.
pub open spec fn rejected(verdict: Verdict, reason: AccessRequestError) -> bool {
    verdict == Err::<(), AccessRequestError>(reason)
}

impl AccessRequestError {
    /// The message that goes with the failure.
    pub fn message(&self) -> (text: &'static str)
        ensures
            text@ == Self::message_of(*self),
    {
        match self {
            AccessRequestError::InvalidRequestStatus => "Invalid request status",
            AccessRequestError::FieldTooLong => "Field length exceeds maximum allowed",
            AccessRequestError::Unauthorized => "Unauthorized access",
            AccessRequestError::NotFound => "Record not found",
            AccessRequestError::AlreadyExists => "Record already exists",
            AccessRequestError::AlreadyInitialized => "Storage already initialized",
            AccessRequestError::Overflow => "Counter overflow",
            AccessRequestError::InvalidSeeds => "No address for these seeds",
        }
    }

    /// The text of each failure's message.
    pub open spec fn message_of(e: AccessRequestError) -> Seq<char> {
        match e {
            AccessRequestError::InvalidRequestStatus => "Invalid request status"@,
            AccessRequestError::FieldTooLong => "Field length exceeds maximum allowed"@,
            AccessRequestError::Unauthorized => "Unauthorized access"@,
            AccessRequestError::NotFound => "Record not found"@,
            AccessRequestError::AlreadyExists => "Record already exists"@,
            AccessRequestError::AlreadyInitialized => "Storage already initialized"@,
            AccessRequestError::Overflow => "Counter overflow"@,
            AccessRequestError::InvalidSeeds => "No address for these seeds"@,
        }
    }
}

} // verus!
