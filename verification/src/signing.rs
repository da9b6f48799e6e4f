//! The threshold signing session: commit, partial sign, aggregate, submit.
//!
//! A session binds one threshold account, one signing context, and — once
//! fetched from the chain gateway — exactly one message. The message is
//! pinned before any partial signature can be produced and can never be
//! replaced, so every signer of the session signs identical bytes, and the
//! aggregation step refuses a package set whose members disagree with the
//! pinned message or that covers fewer distinct signers than the threshold.
//!
//! Signing nonces are consumed by value the moment they are offered to the
//! partial-sign round, whether or not that round succeeds: one nonce value
//! can never serve two messages.
use vstd::prelude::*;

use crate::artifacts::bytes_eq;
use crate::artifacts::clone_bytes;
use crate::artifacts::GroupSignature;
use crate::artifacts::SignedMessage;
use crate::artifacts::SigningCommitment;
use crate::artifacts::SigningNonces;
use crate::artifacts::SigningPackage;
use crate::artifacts::SigningShare;
use crate::artifacts::SppOutput;
use crate::artifacts::ThresholdAccount;
use crate::errors::CeremonyError;
use crate::store::ArtifactKey;
use crate::store::ArtifactStore;
use crate::store::ArtifactValue;
use crate::store::StoredValue;

verus! {

/// The signers a package sequence names, in order of appearance.
pub open spec fn signer_seq(packages: Seq<SigningPackage>) -> Seq<u16> {
    packages.map_values(|p: SigningPackage| p.signer)
}

/// How many distinct values a sequence holds.
pub open spec fn num_distinct(s: Seq<u16>) -> nat
    decreases s.len(),
{
    if s.len() == 0 {
        0
    } else {
        num_distinct(s.drop_last()) + (if s.drop_last().contains(s.last()) {
            0nat
        } else {
            1nat
        })
    }
}

/// Whether `seen` holds `x`.
fn contains_u16(seen: &Vec<u16>, x: u16) -> (r: bool)
    ensures
        r == seen@.contains(x),
{
    let n = seen.len();
    let mut i: usize = 0;
    while i < n
        invariant
            n == seen@.len(),
            i <= n,
            forall|j: int| 0 <= j < i ==> seen@[j] != x,
        decreases n - i,
    {
        if seen[i] == x {
            return true;
        }
        i = i + 1;
    }
    proof {
        assert(!seen@.contains(x));
    }
    false
}

/// Count the distinct signers a package list names.
fn count_distinct_signers(packages: &Vec<SigningPackage>) -> (r: usize)
    ensures
        r == num_distinct(signer_seq(packages@)),
{
    let n = packages.len();
    let mut seen: Vec<u16> = Vec::new();
    let mut i: usize = 0;
    while i < n
        invariant
            n == packages@.len(),
            i <= n,
            seen@.len() == num_distinct(signer_seq(packages@).take(i as int)),
            forall|x: u16|
                #[trigger] seen@.contains(x) <==> signer_seq(packages@).take(i as int).contains(x),
            seen@.len() <= i,
        decreases n - i,
    {
        let ghost prefix = signer_seq(packages@).take(i as int);
        let ghost seen_pre = seen@;
        let s = packages[i].signer;
        let already = contains_u16(&seen, s);
        if !already {
            seen.push(s);
        }
        i = i + 1;
        proof {
            let next = signer_seq(packages@).take(i as int);
            assert(next.drop_last() =~= prefix);
            assert(next.last() == s);
            assert(num_distinct(next) == num_distinct(prefix) + (if prefix.contains(s) {
                0nat
            } else {
                1nat
            }));
            if !already {
                assert forall|x: u16| #[trigger] seen@.contains(x) implies next.contains(x) by {
                    let j = choose|j: int| 0 <= j < seen@.len() && seen@[j] == x;
                    if j < seen_pre.len() {
                        assert(seen_pre.contains(x));
                        let k = choose|k: int| 0 <= k < prefix.len() && prefix[k] == x;
                        assert(next[k] == x);
                    } else {
                        assert(x == s);
                        assert(next[next.len() - 1] == x);
                    }
                }
                assert forall|x: u16| #[trigger] next.contains(x) implies seen@.contains(x) by {
                    let k = choose|k: int| 0 <= k < next.len() && next[k] == x;
                    if k < prefix.len() {
                        assert(prefix[k] == x);
                        assert(prefix.contains(x));
                        assert(seen_pre.contains(x));
                        let j = choose|j: int| 0 <= j < seen_pre.len() && seen_pre[j] == x;
                        assert(seen@[j] == x);
                    } else {
                        assert(x == s);
                        assert(seen@[seen@.len() - 1] == x);
                    }
                }
            } else {
                assert forall|x: u16| #[trigger] next.contains(x) implies prefix.contains(x) || x
                    == s by {
                    let k = choose|k: int| 0 <= k < next.len() && next[k] == x;
                    if k < prefix.len() {
                        assert(prefix[k] == x);
                    }
                }
                assert(prefix.contains(s));
            }
        }
    }
    proof {
        assert(signer_seq(packages@).take(n as int) =~= signer_seq(packages@));
    }
    seen.len()
}

/// Whether a commitment by the given signer is among the collected ones.
fn commitment_present(commitments: &Vec<SigningCommitment>, signer: u16) -> (r: bool)
    ensures
        r == exists|i: int|
            0 <= i < commitments@.len() && (#[trigger] commitments@[i]).signer == signer,
{
    let n = commitments.len();
    let mut i: usize = 0;
    while i < n
        invariant
            n == commitments@.len(),
            i <= n,
            forall|j: int| 0 <= j < i ==> (#[trigger] commitments@[j]).signer != signer,
        decreases n - i,
    {
        if commitments[i].signer == signer {
            return true;
        }
        i = i + 1;
    }
    false
}

/// Everything the commit primitive needs for signing round 1.
#[derive(Debug)]
pub struct CommitRequest {
    /// The signer's private signing share.
    pub signing_share: SigningShare,
}

/// Signing round 1: fetch this signer's share so the commit primitive can
/// derive a nonce/commitment pair from it.
///
/// The nonces the primitive returns stay with their creator; they are never
/// recorded in the shared store.
pub fn sign_round1_prepare(store: &ArtifactStore, ceremony: u64) -> (r: Result<
    CommitRequest,
    CeremonyError,
>)
    ensures
        match r {
            Ok(req) => store.spec_get(ceremony, ArtifactKey::Share) == Some(
                StoredValue::One(req.signing_share.bytes@),
            ),
            Err(CeremonyError::NotFound) => store.spec_get(ceremony, ArtifactKey::Share) is None,
            Err(CeremonyError::Corrupt) => store.spec_get(ceremony, ArtifactKey::Share) matches Some(
                StoredValue::Many(_),
            ),
            Err(_) => false,
        },
{
    match store.get_bytes(ceremony, ArtifactKey::Share) {
        Err(e) => Err(e),
        Ok(b) => Ok(CommitRequest { signing_share: SigningShare { bytes: clone_bytes(b) } }),
    }
}

/// Record the public commitment of signing round 1, as a single-element
/// list so the wire format matches the collected commitment set.
pub fn sign_round1_record(store: &mut ArtifactStore, ceremony: u64, commitment: &SigningCommitment)
    ensures
        final(store).spec_get(ceremony, ArtifactKey::Commitments) == Some(
            StoredValue::Many(seq![commitment.payload@]),
        ),
        forall|c: u64, k: ArtifactKey|
            !(c == ceremony && k == ArtifactKey::Commitments) ==> final(store).spec_get(c, k) == old(
                store,
            ).spec_get(c, k),
{
    let mut list: Vec<Vec<u8>> = Vec::new();
    list.push(clone_bytes(&commitment.payload));
    proof {
        assert(list.deep_view() =~~= seq![commitment.payload@]);
    }
    store.put(ceremony, ArtifactKey::Commitments, ArtifactValue::Many(list));
}

/// Everything the partial-sign primitive needs for signing round 2.
#[derive(Debug)]
pub struct SignRequest {
    /// The session's signing context bytes.
    pub context: Vec<u8>,
    /// The pinned message: the exact bytes to sign.
    pub message: Vec<u8>,
    /// The public key-generation output bundle.
    pub spp_output: SppOutput,
    /// The collected commitments, the signer's own among them.
    pub commitments: Vec<SigningCommitment>,
    /// The single-use nonces; moved in here, never usable again.
    pub nonces: SigningNonces,
    /// The signer's private signing share.
    pub signing_share: SigningShare,
}

/// The payload list handed to the aggregation primitive.
#[derive(Debug)]
pub struct AggregateRequest {
    /// The partial-signature payloads, in package order.
    pub payloads: Vec<Vec<u8>>,
}

/// What the chain gateway needs to submit the signed transaction.
#[derive(Debug)]
pub struct Submission {
    /// The threshold account's 32-byte public key.
    pub account_public_key: Vec<u8>,
    /// The exact bytes that were signed.
    pub message: Vec<u8>,
    /// The aggregated signature.
    pub signature: Vec<u8>,
}

/// One signing session: one account, one context, at most one message.
pub struct SigningSession {
    account: ThresholdAccount,
    context: Vec<u8>,
    message: Option<SignedMessage>,
}

impl SigningSession {
    /// The account the session signs for.
    pub closed spec fn spec_account(self) -> ThresholdAccount {
        self.account
    }

    /// The session's signing context bytes.
    pub closed spec fn spec_context(self) -> Seq<u8> {
        self.context@
    }

    /// Whether the message to sign has been pinned yet.
    pub closed spec fn has_pinned(self) -> bool {
        self.message is Some
    }

    /// The pinned message bytes (meaningful only once pinned).
    pub closed spec fn pinned_message(self) -> Seq<u8> {
        match self.message {
            Some(m) => m.bytes@,
            None => Seq::empty(),
        }
    }

    /// A session is well formed when its account is.
    pub open spec fn wf(self) -> bool {
        self.spec_account().wf()
    }

    /// Open a session for an account under a signing context. No message is
    /// pinned yet.
    pub fn new(account: ThresholdAccount, context: Vec<u8>) -> (r: SigningSession)
        requires
            account.wf(),
        ensures
            r.spec_account() == account,
            r.spec_context() == context@,
            !r.has_pinned(),
            r.wf(),
    {
        SigningSession { account, context, message: None }
    }

    /// The account the session signs for.
    pub fn account(&self) -> (r: &ThresholdAccount)
        ensures
            *r == self.spec_account(),
    {
        &self.account
    }

    /// The pinned message, if one is pinned.
    pub fn message(&self) -> (r: Option<&SignedMessage>)
        ensures
            match r {
                Some(m) => self.has_pinned() && m.bytes@ == self.pinned_message(),
                None => !self.has_pinned(),
            },
    {
        match &self.message {
            Some(m) => Some(m),
            None => None,
        }
    }

    /// Pin the exact bytes every signer of this session must sign. A
    /// message can be pinned once; a pinned session never changes it, so
    /// the payload cannot silently diverge between partial signing and
    /// aggregation.
    pub fn pin_message(&mut self, message: SignedMessage) -> (r: Result<(), CeremonyError>)
        ensures
            final(self).spec_account() == old(self).spec_account(),
            final(self).spec_context() == old(self).spec_context(),
            match r {
                Ok(()) => !old(self).has_pinned() && final(self).has_pinned()
                    && final(self).pinned_message() == message.bytes@,
                Err(e) => e == CeremonyError::MessageAlreadyPinned && old(self).has_pinned()
                    && *final(self) == *old(self),
            },
    {
        match &self.message {
            Some(_) => Err(CeremonyError::MessageAlreadyPinned),
            None => {
                self.message = Some(message);
                Ok(())
            },
        }
    }

    /// Signing round 2: check the round's preconditions and assemble the
    /// partial-sign request over the pinned message.
    ///
    /// The nonces are consumed by this call whether it succeeds or not.
    /// Succeeds exactly when a message is pinned, at least `threshold`
    /// commitments were collected, and the signer's own commitment is among
    /// them.
    pub fn sign_round2_prepare(
        &self,
        signing_share: SigningShare,
        spp_output: SppOutput,
        commitments: Vec<SigningCommitment>,
        own_index: u16,
        nonces: SigningNonces,
    ) -> (r: Result<SignRequest, CeremonyError>)
        ensures
            match r {
                Ok(req) => {
                    &&& self.has_pinned()
                    &&& commitments@.len() >= self.spec_account().threshold
                    &&& exists|i: int|
                        0 <= i < commitments@.len() && (#[trigger] commitments@[i]).signer
                            == own_index
                    &&& req.context@ == self.spec_context()
                    &&& req.message@ == self.pinned_message()
                    &&& req.spp_output == spp_output
                    &&& req.commitments == commitments
                    &&& req.nonces == nonces
                    &&& req.signing_share == signing_share
                },
                Err(CeremonyError::MessageNotSet) => !self.has_pinned(),
                Err(CeremonyError::InsufficientSigners) => self.has_pinned() && commitments@.len()
                    < self.spec_account().threshold,
                Err(CeremonyError::SelfCommitmentMissing) => {
                    &&& self.has_pinned()
                    &&& commitments@.len() >= self.spec_account().threshold
                    &&& forall|i: int|
                        0 <= i < commitments@.len() ==> (#[trigger] commitments@[i]).signer
                            != own_index
                },
                Err(_) => false,
            },
    {
        let message = match &self.message {
            None => {
                return Err(CeremonyError::MessageNotSet);
            },
            Some(m) => clone_bytes(&m.bytes),
        };
        if commitments.len() < self.account.threshold as usize {
            return Err(CeremonyError::InsufficientSigners);
        }
        if !commitment_present(&commitments, own_index) {
            return Err(CeremonyError::SelfCommitmentMissing);
        }
        let context = clone_bytes(&self.context);
        Ok(SignRequest { context, message, spp_output, commitments, nonces, signing_share })
    }

    /// Wrap the partial signature the primitive produced into a package
    /// that names its signer and carries the pinned message it signs.
    pub fn make_package(&self, own_index: u16, payload: Vec<u8>) -> (r: Result<
        SigningPackage,
        CeremonyError,
    >)
        ensures
            match r {
                Ok(p) => self.has_pinned() && p.signer == own_index && p.message@
                    == self.pinned_message() && p.payload == payload,
                Err(CeremonyError::MessageNotSet) => !self.has_pinned(),
                Err(_) => false,
            },
    {
        match &self.message {
            None => Err(CeremonyError::MessageNotSet),
            Some(m) => Ok(
                SigningPackage { signer: own_index, message: clone_bytes(&m.bytes), payload },
            ),
        }
    }

    /// Aggregation: check the package set and assemble the aggregation
    /// request.
    ///
    /// Succeeds exactly when a message is pinned, the set names at least
    /// `threshold` distinct signers, and every package signs the pinned
    /// message; a set whose members disagree on the signed bytes is refused
    /// as a message mismatch.
    pub fn aggregate_prepare(&self, packages: &Vec<SigningPackage>) -> (r: Result<
        AggregateRequest,
        CeremonyError,
    >)
        ensures
            match r {
                Ok(req) => {
                    &&& self.has_pinned()
                    &&& num_distinct(signer_seq(packages@)) >= self.spec_account().threshold
                    &&& forall|i: int|
                        0 <= i < packages@.len() ==> (#[trigger] packages@[i]).message@
                            == self.pinned_message()
                    &&& req.payloads.deep_view().len() == packages@.len()
                    &&& forall|i: int|
                        0 <= i < packages@.len() ==> req.payloads.deep_view()[i] == (
                        #[trigger] packages@[i]).payload@
                },
                Err(CeremonyError::MessageNotSet) => !self.has_pinned(),
                Err(CeremonyError::InsufficientSigners) => self.has_pinned() && num_distinct(
                    signer_seq(packages@),
                ) < self.spec_account().threshold,
                Err(CeremonyError::MessageMismatch) => {
                    &&& self.has_pinned()
                    &&& num_distinct(signer_seq(packages@)) >= self.spec_account().threshold
                    &&& exists|i: int|
                        0 <= i < packages@.len() && (#[trigger] packages@[i]).message@
                            != self.pinned_message()
                },
                Err(_) => false,
            },
    {
        let pinned = match &self.message {
            None => {
                return Err(CeremonyError::MessageNotSet);
            },
            Some(m) => &m.bytes,
        };
        let distinct = count_distinct_signers(packages);
        if distinct < self.account.threshold as usize {
            return Err(CeremonyError::InsufficientSigners);
        }
        let n = packages.len();
        let mut i: usize = 0;
        while i < n
            invariant
                n == packages@.len(),
                i <= n,
                self.has_pinned(),
                pinned@ == self.pinned_message(),
                forall|j: int|
                    0 <= j < i ==> (#[trigger] packages@[j]).message@ == self.pinned_message(),
                num_distinct(signer_seq(packages@)) >= self.spec_account().threshold,
            decreases n - i,
        {
            if !bytes_eq(&packages[i].message, pinned) {
                return Err(CeremonyError::MessageMismatch);
            }
            i = i + 1;
        }
        let mut payloads: Vec<Vec<u8>> = Vec::new();
        let mut k: usize = 0;
        while k < n
            invariant
                n == packages@.len(),
                k <= n,
                payloads@.len() == k,
                forall|j: int|
                    0 <= j < k ==> payloads.deep_view()[j] == (#[trigger] packages@[j]).payload@,
            decreases n - k,
        {
            payloads.push(clone_bytes(&packages[k].payload));
            k = k + 1;
            proof {
                assert(payloads@[k - 1].deep_view() =~= payloads@[k - 1]@);
            }
        }
        Ok(AggregateRequest { payloads })
    }

    /// Wrap the aggregated signature for submission: the account address,
    /// the exact signed bytes, and the signature, ready for the chain
    /// gateway's envelope.
    pub fn submission(&self, signature: &GroupSignature) -> (r: Result<Submission, CeremonyError>)
        ensures
            match r {
                Ok(s) => self.has_pinned() && s.account_public_key@
                    == self.spec_account().public_key@ && s.message@ == self.pinned_message()
                    && s.signature@ == signature.bytes@,
                Err(CeremonyError::MessageNotSet) => !self.has_pinned(),
                Err(_) => false,
            },
    {
        match &self.message {
            None => Err(CeremonyError::MessageNotSet),
            Some(m) => Ok(
                Submission {
                    account_public_key: clone_bytes(&self.account.public_key),
                    message: clone_bytes(&m.bytes),
                    signature: clone_bytes(&signature.bytes),
                },
            ),
        }
    }
}

/// Record the aggregated signature under its own address.
pub fn record_signature(store: &mut ArtifactStore, ceremony: u64, signature: &GroupSignature)
    ensures
        final(store).spec_get(ceremony, ArtifactKey::Signature) == Some(
            StoredValue::One(signature.bytes@),
        ),
        forall|c: u64, k: ArtifactKey|
            !(c == ceremony && k == ArtifactKey::Signature) ==> final(store).spec_get(c, k) == old(
                store,
            ).spec_get(c, k),
{
    store.put(ceremony, ArtifactKey::Signature, ArtifactValue::One(clone_bytes(&signature.bytes)));
}

/// Accept an aggregated signature for a package set and record it: the
/// package set is held to the session's checks once more, and only a set
/// the session accepts — enough distinct signers, every package over the
/// pinned message — has its signature recorded and its submission built.
/// On any refusal the store is left exactly as it was and nothing is
/// handed on for submission.
pub fn record_aggregate_signature(
    store: &mut ArtifactStore,
    ceremony: u64,
    session: &SigningSession,
    packages: &Vec<SigningPackage>,
    signature: &GroupSignature,
) -> (r: Result<Submission, CeremonyError>)
    ensures
        match r {
            Ok(sub) => {
                &&& session.has_pinned()
                &&& num_distinct(signer_seq(packages@)) >= session.spec_account().threshold
                &&& forall|i: int|
                    0 <= i < packages@.len() ==> (#[trigger] packages@[i]).message@
                        == session.pinned_message()
                &&& final(store).spec_get(ceremony, ArtifactKey::Signature) == Some(
                    StoredValue::One(signature.bytes@),
                )
                &&& forall|c: u64, k: ArtifactKey|
                    !(c == ceremony && k == ArtifactKey::Signature) ==> final(store).spec_get(c, k)
                        == old(store).spec_get(c, k)
                &&& sub.account_public_key@ == session.spec_account().public_key@
                &&& sub.message@ == session.pinned_message()
                &&& sub.signature@ == signature.bytes@
            },
            Err(e) => {
                &&& forall|c: u64, k: ArtifactKey|
                    final(store).spec_get(c, k) == old(store).spec_get(c, k)
                &&& ((e == CeremonyError::MessageNotSet && !session.has_pinned()) || (e
                    == CeremonyError::InsufficientSigners && session.has_pinned() && num_distinct(
                    signer_seq(packages@),
                ) < session.spec_account().threshold) || (e == CeremonyError::MessageMismatch
                    && session.has_pinned() && num_distinct(signer_seq(packages@))
                    >= session.spec_account().threshold && exists|i: int|
                    0 <= i < packages@.len() && (#[trigger] packages@[i]).message@
                        != session.pinned_message()))
            },
        },
{
    match session.aggregate_prepare(packages) {
        Err(e) => Err(e),
        Ok(_accepted) => {
            record_signature(store, ceremony, signature);
            match session.submission(signature) {
                Ok(sub) => Ok(sub),
                Err(e) => Err(e),
            }
        },
    }
}

/// Law: what was signed piecewise is what is submitted — a package set a
/// session accepts for aggregation and the submission envelope the same
/// session builds carry the session's one pinned message, byte for byte.
pub proof fn lemma_signed_bytes_are_submitted(
    session: SigningSession,
    packages: Seq<SigningPackage>,
    submission: Submission,
)
    requires
        session.has_pinned(),
        forall|i: int|
            0 <= i < packages.len() ==> (#[trigger] packages[i]).message@
                == session.pinned_message(),
        submission.message@ == session.pinned_message(),
    ensures
        forall|i: int|
            0 <= i < packages.len() ==> (#[trigger] packages[i]).message@ == submission.message@,
{
}

/// Law: packages that each sign a session's pinned message sign identical
/// bytes — no two members of a package set accepted by aggregation can
/// disagree on the signed content.
pub proof fn lemma_accepted_packages_agree(session: SigningSession, packages: Seq<SigningPackage>)
    requires
        session.has_pinned(),
        forall|i: int|
            0 <= i < packages.len() ==> (#[trigger] packages[i]).message@
                == session.pinned_message(),
    ensures
        forall|i: int, j: int|
            0 <= i < packages.len() && 0 <= j < packages.len() ==> (#[trigger] packages[i]).message@
                == (#[trigger] packages[j]).message@,
{
}

} // verus!
