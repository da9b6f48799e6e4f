//! The operator-facing commands and the parameters each one carries.
//!
//! Each command is plain data; the verified core of each operation lives in
//! the round functions it names. The surrounding program reads the named
//! artifact files, hands their contents to those functions, performs the
//! external primitive or chain call with the request they assemble, and
//! records what comes back.
use vstd::prelude::*;

verus! {

/// Round 1 of generating a threshold account.
///
/// Verified core: `dkg::dkg_round1_prepare` (input validation and the
/// contribution request) and `dkg::dkg_round1_record`.
#[derive(Debug, Clone)]
pub struct GenerateThresholdRound1Cmd {
    /// The minimum number of signers required to sign with the threshold
    /// account.
    pub threshold: u16,
    /// The storage location holding the files this command exchanges.
    pub files_path: String,
}

/// Round 2 of generating a threshold account.
///
/// Verified core: `dkg::dkg_round2_prepare` (the collected contribution
/// set must be complete) and `dkg::dkg_round2_record` (the three distinct
/// output artifacts).
#[derive(Debug, Clone)]
pub struct GenerateThresholdRound2Cmd {
    /// The storage location holding the files this command exchanges.
    pub files_path: String,
}

/// Round 1 of signing with a threshold account.
///
/// Verified core: `signing::sign_round1_prepare` and
/// `signing::sign_round1_record`; the nonces stay with their creator.
#[derive(Debug, Clone)]
pub struct SignThresholdRound1Cmd {
    /// The storage location holding the files this command exchanges.
    pub files_path: String,
}

/// Round 2 of signing with a threshold account.
///
/// Verified core: `signing::SigningSession::pin_message` and
/// `sign_round2_prepare` over the message the chain gateway built, with
/// `callvalue::parse_call_arguments` for the trailing arguments.
#[derive(Debug, Clone)]
pub struct SignThresholdRound2Cmd {
    /// The storage location holding the files this command exchanges.
    pub files_path: String,
    /// The signing context bytes agreed for the session.
    pub context: String,
    /// The chain node to reach, or the local default when absent.
    pub url: Option<String>,
    /// The target module of the call.
    pub pallet: String,
    /// The target function of the call.
    pub call: String,
    /// The free-form call-argument text.
    pub trailing_args: Vec<String>,
}

/// Aggregate the partial signatures into the threshold signature and
/// submit the signed transaction.
///
/// Verified core: `signing::SigningSession::aggregate_prepare`,
/// `signing::record_signature` and `signing::SigningSession::submission`.
#[derive(Debug, Clone)]
pub struct SignThresholdAggregateCmd {
    /// The storage location holding the files this command exchanges.
    pub files_path: String,
    /// The signing context bytes agreed for the session.
    pub context: String,
    /// The chain node to reach, or the local default when absent.
    pub url: Option<String>,
    /// The target module of the call.
    pub pallet: String,
    /// The target function of the call.
    pub call: String,
    /// The free-form call-argument text.
    pub trailing_args: Vec<String>,
}

} // verus!
