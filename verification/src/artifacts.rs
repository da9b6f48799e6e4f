//! The artifacts a ceremony produces and consumes.
//!
//! Each artifact from the cryptographic primitives is an opaque byte payload;
//! every kind gets a nominal type of its own so that one can never stand
//! where another is expected — a signing share is not an output bundle, and
//! neither is a signature.
use vstd::prelude::*;

verus! {

/// One party of the ceremony: its public key and its ordinal position in
/// the agreed recipient list.
#[derive(Debug, Clone)]
pub struct ParticipantIdentity {
    pub public_key: Vec<u8>,
    pub index: u16,
}

/// One participant's first-round key-generation output, addressed to all
/// recipients.
#[derive(Debug, Clone)]
pub struct Contribution {
    pub bytes: Vec<u8>,
}

/// A participant's private signing share: owned exclusively by the
/// participant who generated it, never transmitted.
#[derive(Debug, Clone)]
pub struct SigningShare {
    pub bytes: Vec<u8>,
}

/// The public key-generation output bundle needed to verify and combine
/// partial signatures.
#[derive(Debug, Clone)]
pub struct SppOutput {
    pub bytes: Vec<u8>,
}

/// The account all participants agree controls threshold authority.
#[derive(Debug, Clone)]
pub struct ThresholdAccount {
    pub public_key: Vec<u8>,
    pub threshold: u16,
    pub participants: u16,
}

impl ThresholdAccount {
    /// A well-formed account has a 32-byte public key and a threshold
    /// within `[1, participants]`.
    pub open spec fn wf(self) -> bool {
        self.public_key@.len() == 32 && 1 <= self.threshold <= self.participants
    }
}

/// Ephemeral per-session secret randomness. Single use: signing consumes it
/// by value, whether or not the round succeeds, so it can never serve two
/// messages.
#[derive(Debug)]
pub struct SigningNonces {
    pub bytes: Vec<u8>,
}

/// The public commitment a signer derives from its nonces and broadcasts.
#[derive(Debug, Clone)]
pub struct SigningCommitment {
    pub signer: u16,
    pub payload: Vec<u8>,
}

/// The exact byte sequence every signer of a session must sign identically.
#[derive(Debug, Clone)]
pub struct SignedMessage {
    pub bytes: Vec<u8>,
}

/// One signer's partial signature, together with the signer it came from
/// and the message bytes it was produced over.
#[derive(Debug, Clone)]
pub struct SigningPackage {
    pub signer: u16,
    pub message: Vec<u8>,
    pub payload: Vec<u8>,
}

/// The final aggregated signature.
#[derive(Debug, Clone)]
pub struct GroupSignature {
    pub bytes: Vec<u8>,
}

/// A copy of a byte sequence, bit for bit.
pub fn clone_bytes(v: &Vec<u8>) -> (r: Vec<u8>)
    ensures
        r@ == v@,
{
    let mut out: Vec<u8> = Vec::new();
    let n = v.len();
    let mut i: usize = 0;
    while i < n
        invariant
            n == v@.len(),
            i <= n,
            out@ == v@.take(i as int),
        decreases n - i,
    {
        out.push(v[i]);
        i = i + 1;
        proof {
            assert(out@ =~= v@.take(i as int));
        }
    }
    proof {
        assert(v@.take(n as int) =~= v@);
    }
    out
}

/// Whether two byte sequences hold the same bytes.
pub fn bytes_eq(a: &Vec<u8>, b: &Vec<u8>) -> (r: bool)
    ensures
        r == (a@ == b@),
{
    if a.len() != b.len() {
        return false;
    }
    let n = a.len();
    let mut i: usize = 0;
    while i < n
        invariant
            n == a@.len() == b@.len(),
            i <= n,
            forall|j: int| 0 <= j < i ==> a@[j] == b@[j],
        decreases n - i,
    {
        if a[i] != b[i] {
            return false;
        }
        i = i + 1;
    }
    proof {
        assert(a@ =~= b@);
    }
    true
}

} // verus!
