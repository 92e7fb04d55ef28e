//! The ways a request can fail.

use vstd::prelude::*;

verus! {

/// Why a submission, an encoding or a completion was refused.
#[derive(Clone, Copy, Debug, PartialEq, Eq, Structural)]
pub enum ErrorCode {
    /// The executor reported failure, or its output could not be shown to be
    /// the authentic result of the request. Final for that request.
    AbortedComputation,
    /// The deployment names no cluster to execute on.
    ClusterNotSet,
    /// A request with this identifier is still pending.
    DuplicateRequest,
    /// A fingerprint or the threshold does not have the width the deployed
    /// circuit takes. Nothing was encoded.
    MalformedArgument,
    /// A completion arrived for an identifier that is not pending.
    UnknownRequestId,
}

impl ErrorCode {
    /// Whether the caller can recover by submitting again with corrected
    /// input or another identifier. The other errors are final.
    pub open spec fn recoverable(self) -> bool {
        self == ErrorCode::DuplicateRequest || self == ErrorCode::MalformedArgument
    }

    /// Whether the caller can recover by submitting again.
    pub fn is_recoverable(&self) -> (r: bool)
        ensures
            r == self.recoverable(),
    {
        match self {
            ErrorCode::DuplicateRequest => true,
            ErrorCode::MalformedArgument => true,
            ErrorCode::AbortedComputation => false,
            ErrorCode::ClusterNotSet => false,
            ErrorCode::UnknownRequestId => false,
        }
    }

    /// The text shown for the error.
    pub fn message(&self) -> (text: &'static str)
        ensures
            text@ == match *self {
                ErrorCode::AbortedComputation => "The computation was aborted"@,
                ErrorCode::ClusterNotSet => "Cluster not set"@,
                ErrorCode::DuplicateRequest => "A request with this identifier is still pending"@,
                ErrorCode::MalformedArgument => "Argument width does not match the circuit"@,
                ErrorCode::UnknownRequestId => "No pending request has this identifier"@,
            },
    {
        match self {
            ErrorCode::AbortedComputation => "The computation was aborted",
            ErrorCode::ClusterNotSet => "Cluster not set",
            ErrorCode::DuplicateRequest => "A request with this identifier is still pending",
            ErrorCode::MalformedArgument => "Argument width does not match the circuit",
            ErrorCode::UnknownRequestId => "No pending request has this identifier",
        }
    }
}

} // verus!
