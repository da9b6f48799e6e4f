//! The artifact store: keyed, persistent-looking storage for round outputs.
//!
//! Every artifact is addressed by a ceremony identifier and a round name, and
//! holds either one byte sequence or an ordered list of byte sequences.
//! Byte sequences are preserved exactly: the store never re-encodes a value.
//! A later write to the same address replaces the earlier one, which is what
//! lets an abandoned round be re-run with fresh inputs.
use vstd::prelude::*;

use crate::errors::CeremonyError;

verus! {

/// The round name under which an artifact is addressed.
#[derive(Debug, Clone, Copy, PartialEq, Eq, Structural)]
pub enum ArtifactKey {
    /// The collected first-round contributions of a key-generation ceremony.
    Contributions,
    /// The public output bundle of key generation, shared among signers.
    Output,
    /// A participant's private signing share.
    Share,
    /// The threshold account public key.
    PublicKey,
    /// The collected signing commitments of a signing session.
    Commitments,
    /// The collected partial-signature packages of a signing session.
    Packages,
    /// The final aggregated signature.
    Signature,
}

/// One stored artifact: a single byte sequence, or an ordered list of them.
#[derive(Debug, Clone)]
pub enum ArtifactValue {
    One(Vec<u8>),
    Many(Vec<Vec<u8>>),
}

/// The mathematical shape of a stored artifact.
pub enum StoredValue {
    One(Seq<u8>),
    Many(Seq<Seq<u8>>),
}

impl View for ArtifactValue {
    type V = StoredValue;

    open spec fn view(&self) -> StoredValue {
        match self {
            ArtifactValue::One(b) => StoredValue::One(b@),
            ArtifactValue::Many(l) => StoredValue::Many(l.deep_view()),
        }
    }
}

/// One write to the store.
pub struct StoreEntry {
    pub ceremony: u64,
    pub key: ArtifactKey,
    pub value: ArtifactValue,
}

/// What a sequence of writes makes visible at one address: the value of the
/// latest write, if any.
pub open spec fn lookup(entries: Seq<StoreEntry>, ceremony: u64, key: ArtifactKey) -> Option<
    StoredValue,
>
    decreases entries.len(),
{
    if entries.len() == 0 {
        None
    } else if entries.last().ceremony == ceremony && entries.last().key == key {
        Some(entries.last().value@)
    } else {
        lookup(entries.drop_last(), ceremony, key)
    }
}

/// Keyed storage for ceremony artifacts, recorded as a log of writes.
pub struct ArtifactStore {
    entries: Vec<StoreEntry>,
}

impl ArtifactStore {
    /// The value currently visible at an address.
    pub closed spec fn spec_get(self, ceremony: u64, key: ArtifactKey) -> Option<StoredValue> {
        lookup(self.entries@, ceremony, key)
    }

    /// A store with nothing in it.
    pub fn new() -> (r: ArtifactStore)
        ensures
            forall|c: u64, k: ArtifactKey| r.spec_get(c, k) is None,
    {
        ArtifactStore { entries: Vec::new() }
    }

    /// Record an artifact; it replaces whatever was visible at its address
    /// and leaves every other address unchanged.
    pub fn put(&mut self, ceremony: u64, key: ArtifactKey, value: ArtifactValue)
        ensures
            final(self).spec_get(ceremony, key) == Some(value@),
            forall|c: u64, k: ArtifactKey|
                !(c == ceremony && k == key) ==> final(self).spec_get(c, k) == old(self).spec_get(
                    c,
                    k,
                ),
    {
        let ghost pre = self.entries@;
        self.entries.push(StoreEntry { ceremony, key, value });
        proof {
            assert(self.entries@.drop_last() =~= pre);
        }
    }

    /// Fetch the artifact at an address, if one is there.
    pub fn get(&self, ceremony: u64, key: ArtifactKey) -> (r: Option<&ArtifactValue>)
        ensures
            match r {
                Some(v) => self.spec_get(ceremony, key) == Some(v@),
                None => self.spec_get(ceremony, key) is None,
            },
    {
        let n = self.entries.len();
        let mut i: usize = n;
        proof {
            assert(self.entries@.take(n as int) =~= self.entries@);
        }
        while i > 0
            invariant
                i <= self.entries@.len(),
                lookup(self.entries@, ceremony, key) == lookup(
                    self.entries@.take(i as int),
                    ceremony,
                    key,
                ),
            decreases i,
        {
            i = i - 1;
            let e = &self.entries[i];
            proof {
                assert(self.entries@.take(i + 1 as int).last() == self.entries@[i as int]);
                assert(self.entries@.take(i + 1 as int).drop_last() =~= self.entries@.take(
                    i as int,
                ));
            }
            if e.ceremony == ceremony && e.key == key {
                return Some(&e.value);
            }
        }
        proof {
            assert(self.entries@.take(0) =~= Seq::<StoreEntry>::empty());
        }
        None
    }

    /// Fetch an artifact that must be a single byte sequence.
    ///
    /// An absent artifact is `NotFound`; one stored as a list is `Corrupt`.
    pub fn get_bytes(&self, ceremony: u64, key: ArtifactKey) -> (r: Result<&Vec<u8>, CeremonyError>)
        ensures
            match r {
                Ok(b) => self.spec_get(ceremony, key) == Some(StoredValue::One(b@)),
                Err(e) => (e == CeremonyError::NotFound && self.spec_get(ceremony, key) is None) || (
                e == CeremonyError::Corrupt && self.spec_get(ceremony, key) matches Some(
                    StoredValue::Many(_),
                )),
            },
    {
        match self.get(ceremony, key) {
            None => Err(CeremonyError::NotFound),
            Some(ArtifactValue::One(b)) => Ok(b),
            Some(ArtifactValue::Many(_)) => Err(CeremonyError::Corrupt),
        }
    }

    /// Fetch an artifact that must be a list of byte sequences.
    ///
    /// An absent artifact is `NotFound`; one stored as a single sequence is
    /// `Corrupt`.
    pub fn get_list(&self, ceremony: u64, key: ArtifactKey) -> (r: Result<
        &Vec<Vec<u8>>,
        CeremonyError,
    >)
        ensures
            match r {
                Ok(l) => self.spec_get(ceremony, key) == Some(StoredValue::Many(l.deep_view())),
                Err(e) => (e == CeremonyError::NotFound && self.spec_get(ceremony, key) is None) || (
                e == CeremonyError::Corrupt && self.spec_get(ceremony, key) matches Some(
                    StoredValue::One(_),
                )),
            },
    {
        match self.get(ceremony, key) {
            None => Err(CeremonyError::NotFound),
            Some(ArtifactValue::Many(l)) => Ok(l),
            Some(ArtifactValue::One(_)) => Err(CeremonyError::Corrupt),
        }
    }
}

} // verus!
