//! The two-round distributed key generation ceremony.
//!
//! Round 1 validates the operator's inputs and assembles the exact request
//! the contribution primitive needs; the contribution it returns is recorded
//! in the store as a single-element list, so the wire format matches the
//! collected set of round 2. Round 2 collects the full contribution set —
//! it must hold exactly one contribution per participant — and assembles the
//! request for the finalization primitive; the three artifacts that come
//! back (account public key, private signing share, public output bundle)
//! are recorded under distinct addresses and distinct types.
use vstd::prelude::*;

use crate::artifacts::clone_bytes;
use crate::artifacts::Contribution;
use crate::artifacts::ParticipantIdentity;
use crate::artifacts::SigningShare;
use crate::artifacts::SppOutput;
use crate::artifacts::ThresholdAccount;
use crate::errors::CeremonyError;
use crate::hexcodec::decode_hex_field;
use crate::hexcodec::hex_field_bytes;
use crate::hexcodec::hex_field_ok;
use crate::store::ArtifactKey;
use crate::store::ArtifactStore;
use crate::store::ArtifactValue;
use crate::store::StoredValue;

verus! {

/// Whether these bytes are a valid public key: 32 bytes that decode to a
/// point of the group.
pub uninterp spec fn valid_public_key_bytes(s: Seq<u8>) -> bool;

/// The public key a 32-byte secret key expands to.
pub uninterp spec fn expanded_public_of(secret: Seq<u8>) -> Seq<u8>;

/// Relies on schnorrkel::PublicKey::from_bytes: whether bytes decode to a
/// public key depends on the bytes alone.
#[verifier::external_body]
fn check_public_key(bytes: &Vec<u8>) -> (r: bool)
    ensures
        r == valid_public_key_bytes(bytes@),
{
    schnorrkel::PublicKey::from_bytes(bytes.as_slice()).is_ok()
}

/// Relies on schnorrkel::MiniSecretKey::from_bytes, which succeeds exactly
/// on 32 bytes, MiniSecretKey::expand_to_keypair in Ed25519 mode, and
/// PublicKey::to_bytes, which yields 32 bytes: the public key a secret key
/// expands to depends on the secret bytes alone.
#[verifier::external_body]
fn expand_public(secret: &Vec<u8>) -> (r: Vec<u8>)
    requires
        secret@.len() == 32,
    ensures
        r@ == expanded_public_of(secret@),
        r@.len() == 32,
{
    let keypair = schnorrkel::MiniSecretKey::from_bytes(secret.as_slice())
        .unwrap()
        .expand_to_keypair(schnorrkel::ExpansionMode::Ed25519);
    keypair.public.to_bytes().to_vec()
}

/// Whether an operator field holds a well-formed 32-byte secret key.
pub open spec fn secret_key_field_ok(s: Seq<u8>) -> bool {
    hex_field_ok(s) && hex_field_bytes(s).len() == 32
}

/// Whether an operator field holds a well-formed recipient public key.
pub open spec fn recipient_field_ok(s: Seq<u8>) -> bool {
    hex_field_ok(s) && valid_public_key_bytes(hex_field_bytes(s))
}

/// Everything the contribution primitive needs for round 1.
#[derive(Debug)]
pub struct ContributeRequest {
    /// The contributor's 32-byte secret key.
    pub secret_key: Vec<u8>,
    /// The public key the secret key expands to.
    pub own_public: Vec<u8>,
    /// The minimum number of signers the account will require.
    pub threshold: u16,
    /// The ordered recipients, self included, indexed by position.
    pub recipients: Vec<ParticipantIdentity>,
}

/// Decode the secret-key field. `None` exactly when it is not a
/// `0x`-prefixed hex field denoting 32 bytes.
fn decode_secret_key_field(s: &Vec<u8>) -> (r: Option<Vec<u8>>)
    ensures
        match r {
            Some(b) => secret_key_field_ok(s@) && b@ == hex_field_bytes(s@),
            None => !secret_key_field_ok(s@),
        },
{
    match decode_hex_field(s.as_slice()) {
        None => None,
        Some(b) => {
            if b.len() == 32 {
                Some(b)
            } else {
                None
            }
        },
    }
}

/// Round 1 of key generation: validate the operator inputs and assemble the
/// contribution request.
///
/// Succeeds exactly when the secret key field is well formed, the threshold
/// lies in `[1, n]` for the `n` given recipients with `n` small enough to
/// index, and every recipient field is a well-formed public key.
pub fn dkg_round1_prepare(
    threshold: u16,
    secret_key_field: &Vec<u8>,
    recipient_fields: &Vec<Vec<u8>>,
) -> (r: Result<ContributeRequest, CeremonyError>)
    ensures
        match r {
            Ok(req) => {
                &&& secret_key_field_ok(secret_key_field@)
                &&& recipient_fields@.len() <= 0xFFFF
                &&& 1 <= threshold <= recipient_fields@.len()
                &&& forall|i: int|
                    0 <= i < recipient_fields@.len() ==> recipient_field_ok(
                        #[trigger] recipient_fields.deep_view()[i],
                    )
                &&& req.secret_key@ == hex_field_bytes(secret_key_field@)
                &&& req.own_public@ == expanded_public_of(req.secret_key@)
                &&& req.threshold == threshold
                &&& req.recipients@.len() == recipient_fields@.len()
                &&& forall|i: int|
                    0 <= i < req.recipients@.len() ==> (#[trigger] req.recipients@[i]).public_key@
                        == hex_field_bytes(recipient_fields.deep_view()[i])
                        && req.recipients@[i].index == i
            },
            Err(CeremonyError::InvalidSecretKey) => !secret_key_field_ok(secret_key_field@),
            Err(CeremonyError::WrongParticipantCount) => secret_key_field_ok(secret_key_field@)
                && recipient_fields@.len() > 0xFFFF,
            Err(CeremonyError::InvalidThreshold) => secret_key_field_ok(secret_key_field@)
                && recipient_fields@.len() <= 0xFFFF && !(1 <= threshold
                <= recipient_fields@.len()),
            Err(CeremonyError::InvalidRecipient) => secret_key_field_ok(secret_key_field@)
                && recipient_fields@.len() <= 0xFFFF && 1 <= threshold <= recipient_fields@.len()
                && exists|i: int|
                0 <= i < recipient_fields@.len() && !recipient_field_ok(
                    #[trigger] recipient_fields.deep_view()[i],
                ),
            Err(_) => false,
        },
{
    let secret_key = match decode_secret_key_field(secret_key_field) {
        None => {
            return Err(CeremonyError::InvalidSecretKey);
        },
        Some(b) => b,
    };
    let n = recipient_fields.len();
    if n > 0xFFFF {
        return Err(CeremonyError::WrongParticipantCount);
    }
    if threshold == 0 || (threshold as usize) > n {
        return Err(CeremonyError::InvalidThreshold);
    }
    let mut recipients: Vec<ParticipantIdentity> = Vec::new();
    let mut i: usize = 0;
    while i < n
        invariant
            n == recipient_fields@.len() <= 0xFFFF,
            secret_key_field_ok(secret_key_field@),
            1 <= threshold && threshold <= n,
            i <= n,
            recipients@.len() == i,
            forall|j: int|
                0 <= j < i ==> recipient_field_ok(#[trigger] recipient_fields.deep_view()[j]),
            forall|j: int|
                0 <= j < i ==> (#[trigger] recipients@[j]).public_key@ == hex_field_bytes(
                    recipient_fields.deep_view()[j],
                ) && recipients@[j].index == j,
        decreases n - i,
    {
        let field = &recipient_fields[i];
        proof {
            assert(recipient_fields.deep_view()[i as int] == field@);
        }
        let key_bytes = match decode_hex_field(field.as_slice()) {
            None => {
                proof {
                    assert(!recipient_field_ok(recipient_fields.deep_view()[i as int]));
                }
                return Err(CeremonyError::InvalidRecipient);
            },
            Some(b) => b,
        };
        if !check_public_key(&key_bytes) {
            proof {
                assert(!recipient_field_ok(recipient_fields.deep_view()[i as int]));
            }
            return Err(CeremonyError::InvalidRecipient);
        }
        recipients.push(ParticipantIdentity { public_key: key_bytes, index: i as u16 });
        i = i + 1;
    }
    let own_public = expand_public(&secret_key);
    Ok(ContributeRequest { secret_key, own_public, threshold, recipients })
}

/// Record the contribution the primitive produced, as a single-element list
/// so the wire format matches the collected set consumed by round 2.
pub fn dkg_round1_record(store: &mut ArtifactStore, ceremony: u64, contribution: &Contribution)
    ensures
        final(store).spec_get(ceremony, ArtifactKey::Contributions) == Some(
            StoredValue::Many(seq![contribution.bytes@]),
        ),
        forall|c: u64, k: ArtifactKey|
            !(c == ceremony && k == ArtifactKey::Contributions) ==> final(store).spec_get(c, k)
                == old(store).spec_get(c, k),
{
    let mut list: Vec<Vec<u8>> = Vec::new();
    list.push(clone_bytes(&contribution.bytes));
    proof {
        assert(list.deep_view() =~~= seq![contribution.bytes@]);
    }
    store.put(ceremony, ArtifactKey::Contributions, ArtifactValue::Many(list));
}

/// Law: recording the same contribution a second time leaves every address
/// of the store as it was — a round re-run with identical inputs changes
/// nothing, so an abandoned ceremony can be resumed safely.
pub proof fn lemma_record_rerun_changes_nothing(
    s1: ArtifactStore,
    s2: ArtifactStore,
    ceremony: u64,
    contribution: Contribution,
)
    requires
        s1.spec_get(ceremony, ArtifactKey::Contributions) == Some(
            StoredValue::Many(seq![contribution.bytes@]),
        ),
        s2.spec_get(ceremony, ArtifactKey::Contributions) == Some(
            StoredValue::Many(seq![contribution.bytes@]),
        ),
        forall|c: u64, k: ArtifactKey|
            !(c == ceremony && k == ArtifactKey::Contributions) ==> s2.spec_get(c, k)
                == s1.spec_get(c, k),
    ensures
        forall|c: u64, k: ArtifactKey| s2.spec_get(c, k) == s1.spec_get(c, k),
{
}

/// Everything the finalization primitive needs for round 2.
#[derive(Debug)]
pub struct FinalizeRequest {
    /// The recipient's 32-byte secret key.
    pub secret_key: Vec<u8>,
    /// The full contribution set, one contribution per participant, in
    /// participant order.
    pub contributions: Vec<Contribution>,
}

/// Round 2 of key generation: collect the full contribution set and
/// assemble the finalization request.
///
/// Takes the store read-only, so a failure can record nothing. Succeeds
/// exactly when the secret key field is well formed and the store holds a
/// contribution list with exactly one entry per participant; a short or
/// overlong list is refused, so a partially assembled exchange never
/// reaches the primitive.
pub fn dkg_round2_prepare(
    store: &ArtifactStore,
    ceremony: u64,
    participants: u16,
    secret_key_field: &Vec<u8>,
) -> (r: Result<FinalizeRequest, CeremonyError>)
    ensures
        match r {
            Ok(req) => {
                &&& secret_key_field_ok(secret_key_field@)
                &&& req.secret_key@ == hex_field_bytes(secret_key_field@)
                &&& store.spec_get(ceremony, ArtifactKey::Contributions) matches Some(
                    StoredValue::Many(l),
                ) && l.len() == participants && req.contributions@.len() == l.len() && (forall|
                    i: int,
                |
                    0 <= i < l.len() ==> (#[trigger] req.contributions@[i]).bytes@ == l[i])
            },
            Err(CeremonyError::InvalidSecretKey) => !secret_key_field_ok(secret_key_field@),
            Err(CeremonyError::NotFound) => secret_key_field_ok(secret_key_field@)
                && store.spec_get(ceremony, ArtifactKey::Contributions) is None,
            Err(CeremonyError::Corrupt) => {
                &&& secret_key_field_ok(secret_key_field@)
                &&& store.spec_get(ceremony, ArtifactKey::Contributions) matches Some(
                    StoredValue::One(_),
                )
            },
            Err(CeremonyError::WrongParticipantCount) => {
                &&& secret_key_field_ok(secret_key_field@)
                &&& store.spec_get(ceremony, ArtifactKey::Contributions) matches Some(
                    StoredValue::Many(l),
                ) && l.len() != participants
            },
            Err(_) => false,
        },
{
    let secret_key = match decode_secret_key_field(secret_key_field) {
        None => {
            return Err(CeremonyError::InvalidSecretKey);
        },
        Some(b) => b,
    };
    let list = match store.get_list(ceremony, ArtifactKey::Contributions) {
        Err(e) => {
            return Err(e);
        },
        Ok(l) => l,
    };
    let n = list.len();
    if n != participants as usize {
        return Err(CeremonyError::WrongParticipantCount);
    }
    let mut contributions: Vec<Contribution> = Vec::new();
    let mut i: usize = 0;
    while i < n
        invariant
            n == list@.len(),
            i <= n,
            contributions@.len() == i,
            forall|j: int|
                0 <= j < i ==> (#[trigger] contributions@[j]).bytes@ == list.deep_view()[j],
        decreases n - i,
    {
        contributions.push(Contribution { bytes: clone_bytes(&list[i]) });
        i = i + 1;
        proof {
            assert(list@[i - 1].deep_view() =~= list@[i - 1]@);
        }
    }
    Ok(FinalizeRequest { secret_key, contributions })
}

/// Record the three artifacts finalization produced — the account public
/// key, the participant's private signing share, and the public output
/// bundle — each under its own address, and return the account descriptor.
///
/// The three inputs have three distinct types, so none can be recorded (or
/// later fetched) in another's place.
pub fn dkg_round2_record(
    store: &mut ArtifactStore,
    ceremony: u64,
    public_key: &Vec<u8>,
    share: &SigningShare,
    output: &SppOutput,
    threshold: u16,
    participants: u16,
) -> (r: ThresholdAccount)
    requires
        public_key@.len() == 32,
        1 <= threshold <= participants,
    ensures
        final(store).spec_get(ceremony, ArtifactKey::PublicKey) == Some(
            StoredValue::One(public_key@),
        ),
        final(store).spec_get(ceremony, ArtifactKey::Share) == Some(StoredValue::One(share.bytes@)),
        final(store).spec_get(ceremony, ArtifactKey::Output) == Some(
            StoredValue::One(output.bytes@),
        ),
        forall|c: u64, k: ArtifactKey|
            !(c == ceremony && (k == ArtifactKey::PublicKey || k == ArtifactKey::Share || k
                == ArtifactKey::Output)) ==> final(store).spec_get(c, k) == old(store).spec_get(
                c,
                k,
            ),
        r.public_key@ == public_key@,
        r.threshold == threshold,
        r.participants == participants,
        r.wf(),
{
    store.put(ceremony, ArtifactKey::PublicKey, ArtifactValue::One(clone_bytes(public_key)));
    store.put(ceremony, ArtifactKey::Share, ArtifactValue::One(clone_bytes(&share.bytes)));
    store.put(ceremony, ArtifactKey::Output, ArtifactValue::One(clone_bytes(&output.bytes)));
    ThresholdAccount { public_key: clone_bytes(public_key), threshold, participants }
}

} // verus!
