//! The error taxonomy of the ceremony library.
//!
//! Every round surfaces its first failure and performs no further work; no
//! error is retried inside the library.
use vstd::prelude::*;

verus! {

/// Why a ceremony operation was refused.
#[derive(Debug, Clone, PartialEq, Eq)]
pub enum CeremonyError {
    /// A required artifact is absent from the store.
    NotFound,
    /// A stored artifact does not have the shape the caller asked for.
    Corrupt,
    /// The contributor secret key input is not a well-formed 32-byte key.
    InvalidSecretKey,
    /// The threshold is outside `[1, n]` for `n` recipients.
    InvalidThreshold,
    /// A recipient entry is not a well-formed public key.
    InvalidRecipient,
    /// A collected artifact list does not have the required number of entries.
    WrongParticipantCount,
    /// The signer's own commitment is absent from the commitment list.
    SelfCommitmentMissing,
    /// Fewer distinct signers than the threshold requires.
    InsufficientSigners,
    /// Partial signatures disagree on the bytes they signed.
    MessageMismatch,
    /// The session has no pinned message yet, so signing cannot proceed.
    MessageNotSet,
    /// The session message is already pinned and may not change.
    MessageAlreadyPinned,
    /// The call-argument text could not be parsed; holds the offending input
    /// and the parser diagnostic.
    ArgumentParse(String, String),
}

impl CeremonyError {
    /// A short stable name for the error, for reporting outside the library.
    pub fn label(&self) -> (r: &'static str)
    {
        match self {
            CeremonyError::NotFound => "not found",
            CeremonyError::Corrupt => "corrupt artifact",
            CeremonyError::InvalidSecretKey => "invalid secret key",
            CeremonyError::InvalidThreshold => "invalid threshold",
            CeremonyError::InvalidRecipient => "invalid recipient",
            CeremonyError::WrongParticipantCount => "wrong participant count",
            CeremonyError::SelfCommitmentMissing => "self commitment missing",
            CeremonyError::InsufficientSigners => "insufficient signers",
            CeremonyError::MessageMismatch => "message mismatch",
            CeremonyError::MessageNotSet => "message not set",
            CeremonyError::MessageAlreadyPinned => "message already pinned",
            CeremonyError::ArgumentParse(_, _) => "argument parse error",
        }
    }
}

} // verus!
