//! The ledger of verified studies.
//!
//! A study is filed under the 32-byte hash of its content. A hash is filed at
//! most once, and a filed record never changes. Each registration is also
//! written to the registry's event log.

use crate::address::Address;
use crate::keyed::{entries_map, lemma_entries_absent, lemma_entries_latest, lemma_entries_push};
use crate::octets::hash_equal;
use vstd::prelude::*;

verus! {

/// A verified study: the hash of its content, who contributed it, and the
/// ledger time at which it was registered.
#[derive(Debug, PartialEq, Eq)]
pub struct StudyRecord {
    pub dataset_hash: [u8; 32],
    pub contributor: Address,
    pub timestamp: u64,
}

/// The event written when a study is registered.
#[derive(Debug, PartialEq, Eq)]
pub struct StudyRegistered {
    pub dataset_hash: [u8; 32],
    pub contributor: Address,
    pub timestamp: u64,
}

/// Why the registry refused a request.
#[derive(Clone, Copy, Debug, PartialEq, Eq)]
pub enum Error {
    DuplicateStudy,
    InvalidAttestation,
    InvalidZKProof,
    StudyNotFound,
}

/// What a study record or a registration event holds.
pub struct StudyRecordView {
    pub dataset_hash: Seq<u8>,
    pub contributor: Seq<u8>,
    pub timestamp: u64,
}

impl View for StudyRecord {
    type V = StudyRecordView;

    open spec fn view(&self) -> StudyRecordView {
        StudyRecordView {
            dataset_hash: self.dataset_hash@,
            contributor: self.contributor@,
            timestamp: self.timestamp,
        }
    }
}

impl View for StudyRegistered {
    type V = StudyRecordView;

    open spec fn view(&self) -> StudyRecordView {
        StudyRecordView {
            dataset_hash: self.dataset_hash@,
            contributor: self.contributor@,
            timestamp: self.timestamp,
        }
    }
}

impl Clone for StudyRecord {
    fn clone(&self) -> (copy: Self)
        ensures
            copy@ == self@,
    {
        StudyRecord {
            dataset_hash: self.dataset_hash,
            contributor: self.contributor.clone(),
            timestamp: self.timestamp,
        }
    }
}

impl Clone for StudyRegistered {
    fn clone(&self) -> (copy: Self)
        ensures
            copy@ == self@,
    {
        StudyRegistered {
            dataset_hash: self.dataset_hash,
            contributor: self.contributor.clone(),
            timestamp: self.timestamp,
        }
    }
}

/// The registry as a value: the studies by content hash, and the event log.
pub struct RegistryState {
    pub studies: Map<Seq<u8>, StudyRecordView>,
    pub events: Seq<StudyRecordView>,
}

/// What the proof check accepts: a proof and an attestation that are not
/// empty, for a hash of 32 bytes.
pub open spec fn proof_accepted(
    zk_proof: Seq<u8>,
    dataset_hash: Seq<u8>,
    attestation: Seq<u8>,
) -> bool {
    zk_proof.len() > 0 && dataset_hash.len() == 32 && attestation.len() > 0
}

impl RegistryState {
    /// The registry that holds nothing.
    pub open spec fn empty() -> RegistryState {
        RegistryState { studies: Map::empty(), events: Seq::empty() }
    }

    /// How a registration ends. The hash is tested first, then the
    /// attestation, then the proof.
    pub open spec fn register_outcome(
        self,
        dataset_hash: Seq<u8>,
        attestation: Seq<u8>,
        zk_proof: Seq<u8>,
    ) -> Result<(), Error> {
        if self.studies.contains_key(dataset_hash) {
            Err(Error::DuplicateStudy)
        } else if attestation.len() == 0 {
            Err(Error::InvalidAttestation)
        } else if !proof_accepted(zk_proof, dataset_hash, attestation) {
            Err(Error::InvalidZKProof)
        } else {
            Ok(())
        }
    }

    /// The registry with one more study filed and logged.
    pub open spec fn with_study(self, record: StudyRecordView) -> RegistryState {
        RegistryState {
            studies: self.studies.insert(record.dataset_hash, record),
            events: self.events.push(record),
        }
    }

    /// The registry after a registration: one more study if it was accepted,
    /// the same registry if it was refused.
    pub open spec fn after_register(
        self,
        dataset_hash: Seq<u8>,
        attestation: Seq<u8>,
        zk_proof: Seq<u8>,
        contributor: Seq<u8>,
        timestamp: u64,
    ) -> RegistryState {
        if self.register_outcome(dataset_hash, attestation, zk_proof) is Ok {
            self.with_study(StudyRecordView { dataset_hash, contributor, timestamp })
        } else {
            self
        }
    }

    /// The study filed under a hash.
    pub open spec fn lookup(self, dataset_hash: Seq<u8>) -> Result<StudyRecordView, Error> {
        if self.studies.contains_key(dataset_hash) {
            Ok(self.studies[dataset_hash])
        } else {
            Err(Error::StudyNotFound)
        }
    }
}

/// The entries that a list of records stands for: each record under its hash.
pub open spec fn study_entries(records: Seq<StudyRecord>) -> Seq<(Seq<u8>, StudyRecordView)> {
    records.map_values(|r: StudyRecord| (r.dataset_hash@, r@))
}

/// The ledger of verified studies, with its event log.
pub struct StudyRegistry {
    records: Vec<StudyRecord>,
    events: Vec<StudyRegistered>,
}

impl View for StudyRegistry {
    type V = RegistryState;

    closed spec fn view(&self) -> RegistryState {
        RegistryState {
            studies: entries_map(study_entries(self.records@)),
            events: self.events@.map_values(|e: StudyRegistered| e@),
        }
    }
}

impl StudyRegistry {
    /// A registry that holds no study and has logged nothing.
    pub fn new() -> (registry: StudyRegistry)
        ensures
            registry@ == RegistryState::empty(),
    {
        let registry = StudyRegistry { records: Vec::new(), events: Vec::new() };
        assert(registry@.events =~= Seq::empty());
        registry
    }

    /// The registry that holds the given records, each filed under its hash,
    /// and has logged nothing yet. Of two records with one hash the later
    /// one counts.
    pub fn restore(records: Vec<StudyRecord>) -> (registry: StudyRegistry)
        ensures
            registry@.studies == entries_map(study_entries(records@)),
            registry@.events == Seq::<StudyRecordView>::empty(),
    {
        let registry = StudyRegistry { records, events: Vec::new() };
        assert(registry@.events =~= Seq::empty());
        registry
    }

    /// Where the record filed under `dataset_hash` stands, if there is one.
    fn position(&self, dataset_hash: &[u8; 32]) -> (at: Option<usize>)
        ensures
            at is Some <==> self@.studies.contains_key(dataset_hash@),
            at is Some ==> at->0 < self.records@.len() && self.records@[at->0 as int]@
                == self@.studies[dataset_hash@],
    {
        let mut i: usize = self.records.len();
        while i > 0
            invariant
                0 <= i <= self.records@.len(),
                forall|j: int|
                    i <= j < self.records@.len() ==> self.records@[j].dataset_hash@
                        != dataset_hash@,
            decreases i,
        {
            i -= 1;
            if hash_equal(&self.records[i].dataset_hash, dataset_hash) {
                proof {
                    lemma_entries_latest(study_entries(self.records@), i as int);
                }
                return Some(i);
            }
        }
        proof {
            lemma_entries_absent(study_entries(self.records@), dataset_hash@);
        }
        None
    }

    /// Registers a study.
    ///
    /// A hash that is already filed is refused with `DuplicateStudy`, whatever
    /// else is handed in; then an empty attestation with `InvalidAttestation`;
    /// then a proof that the proof check does not accept with `InvalidZKProof`.
    /// An accepted study is filed with `timestamp`, the current ledger time,
    /// and a `StudyRegistered` event is logged. A refused one changes nothing.
    pub fn register_study(
        &mut self,
        dataset_hash: [u8; 32],
        attestation: Vec<u8>,
        zk_proof: Vec<u8>,
        contributor: Address,
        timestamp: u64,
    ) -> (outcome: Result<(), Error>)
        ensures
            outcome == old(self)@.register_outcome(dataset_hash@, attestation@, zk_proof@),
            final(self)@ == old(self)@.after_register(
                dataset_hash@,
                attestation@,
                zk_proof@,
                contributor@,
                timestamp,
            ),
    {
        if Self::dataset_exists(self, &dataset_hash) {
            return Err(Error::DuplicateStudy);
        }
        if attestation.len() == 0 {
            return Err(Error::InvalidAttestation);
        }
        if zk_proof.len() == 0 {
            return Err(Error::InvalidZKProof);
        }
        if !Self::verify_zk_proof_mock(&zk_proof, &dataset_hash, &attestation) {
            return Err(Error::InvalidZKProof);
        }
        let record = StudyRecord {
            dataset_hash,
            contributor: contributor.clone(),
            timestamp,
        };
        let event = StudyRegistered { dataset_hash, contributor, timestamp };
        proof {
            lemma_entries_push(study_entries(self.records@), dataset_hash@, record@);
            assert(study_entries(self.records@.push(record)) =~= study_entries(
                self.records@,
            ).push((dataset_hash@, record@)));
            assert(self.events@.push(event).map_values(|e: StudyRegistered| e@)
                =~= self.events@.map_values(|e: StudyRegistered| e@).push(event@));
        }
        self.records.push(record);
        self.events.push(event);
        Ok(())
    }

    /// Whether a study is filed under `dataset_hash`.
    pub fn dataset_exists(&self, dataset_hash: &[u8; 32]) -> (exists: bool)
        ensures
            exists == self@.studies.contains_key(dataset_hash@),
    {
        self.position(dataset_hash).is_some()
    }

    /// The study filed under `dataset_hash`, or `StudyNotFound`.
    pub fn get_study(&self, dataset_hash: [u8; 32]) -> (found: Result<StudyRecord, Error>)
        ensures
            match found {
                Ok(record) => self@.lookup(dataset_hash@) == Ok::<StudyRecordView, Error>(
                    record@,
                ),
                Err(e) => self@.lookup(dataset_hash@) == Err::<StudyRecordView, Error>(e),
            },
    {
        match self.position(&dataset_hash) {
            Some(at) => Ok(self.records[at].clone()),
            None => Err(Error::StudyNotFound),
        }
    }

    /// The proof check: accepts a proof and an attestation that are not empty.
    /// It stands in for a cryptographic verifier of the proof against the hash
    /// and the attestation.
    pub fn verify_zk_proof_mock(
        zk_proof: &Vec<u8>,
        dataset_hash: &[u8; 32],
        attestation: &Vec<u8>,
    ) -> (accepted: bool)
        ensures
            accepted == proof_accepted(zk_proof@, dataset_hash@, attestation@),
    {
        zk_proof.len() > 0 && dataset_hash.len() == 32 && attestation.len() > 0
    }

    /// The events logged so far, oldest first.
    pub fn events(&self) -> (log: &Vec<StudyRegistered>)
        ensures
            log@.map_values(|e: StudyRegistered| e@) == self@.events,
    {
        &self.events
    }

    /// Every study is filed under the hash that it records, and every hash
    /// has 32 bytes.
    pub proof fn law_filed_under_own_hash(&self, dataset_hash: Seq<u8>)
        requires
            self@.studies.contains_key(dataset_hash),
        ensures
            self@.studies[dataset_hash].dataset_hash == dataset_hash,
            dataset_hash.len() == 32,
    {
        lemma_entries_hold_own_hash(self.records@, dataset_hash);
    }
}

/// In the map of a list of records, each value records the hash it is under.
proof fn lemma_entries_hold_own_hash(records: Seq<StudyRecord>, dataset_hash: Seq<u8>)
    requires
        entries_map(study_entries(records)).contains_key(dataset_hash),
    ensures
        entries_map(study_entries(records))[dataset_hash].dataset_hash == dataset_hash,
        dataset_hash.len() == 32,
    decreases records.len(),
{
    let entries = study_entries(records);
    if records.len() > 0 {
        assert(entries.drop_last() =~= study_entries(records.drop_last()));
        if entries.last().0 != dataset_hash {
            lemma_entries_hold_own_hash(records.drop_last(), dataset_hash);
        }
    }
}

/// Registering a content hash that is already filed always fails with
/// `DuplicateStudy`, whatever attestation, proof, contributor and time come
/// with it, and leaves the registry, the filed record included, as it was.
pub proof fn law_duplicate_study_refused(
    registry: RegistryState,
    dataset_hash: Seq<u8>,
    attestation: Seq<u8>,
    zk_proof: Seq<u8>,
    contributor: Seq<u8>,
    timestamp: u64,
)
    requires
        registry.studies.contains_key(dataset_hash),
    ensures
        registry.register_outcome(dataset_hash, attestation, zk_proof) == Err::<(), Error>(
            Error::DuplicateStudy,
        ),
        registry.after_register(dataset_hash, attestation, zk_proof, contributor, timestamp)
            == registry,
{
}

/// Registering the same content hash twice: if the first registration
/// succeeds, the second fails with `DuplicateStudy` whatever comes with it,
/// and the record of the first stays as it was filed.
pub proof fn law_second_registration_refused(
    registry: RegistryState,
    dataset_hash: Seq<u8>,
    attestation: Seq<u8>,
    zk_proof: Seq<u8>,
    contributor: Seq<u8>,
    timestamp: u64,
    attestation2: Seq<u8>,
    zk_proof2: Seq<u8>,
    contributor2: Seq<u8>,
    timestamp2: u64,
)
    requires
        registry.register_outcome(dataset_hash, attestation, zk_proof) is Ok,
    ensures
        ({
            let first = registry.after_register(
                dataset_hash,
                attestation,
                zk_proof,
                contributor,
                timestamp,
            );
            let second = first.after_register(
                dataset_hash,
                attestation2,
                zk_proof2,
                contributor2,
                timestamp2,
            );
            &&& first.register_outcome(dataset_hash, attestation2, zk_proof2) == Err::<
                (),
                Error,
            >(Error::DuplicateStudy)
            &&& second == first
            &&& second.studies[dataset_hash] == StudyRecordView {
                dataset_hash,
                contributor,
                timestamp,
            }
        }),
{
}

/// Right after a successful registration, looking the hash up gives the
/// record that was filed.
pub proof fn law_registered_study_is_found(
    registry: RegistryState,
    dataset_hash: Seq<u8>,
    attestation: Seq<u8>,
    zk_proof: Seq<u8>,
    contributor: Seq<u8>,
    timestamp: u64,
)
    requires
        registry.register_outcome(dataset_hash, attestation, zk_proof) is Ok,
    ensures
        registry.after_register(
            dataset_hash,
            attestation,
            zk_proof,
            contributor,
            timestamp,
        ).lookup(dataset_hash) == Ok::<StudyRecordView, Error>(
            StudyRecordView { dataset_hash, contributor, timestamp },
        ),
{
}

/// A registration never changes or removes a study that was filed before.
pub proof fn law_filed_studies_stay(
    registry: RegistryState,
    dataset_hash: Seq<u8>,
    attestation: Seq<u8>,
    zk_proof: Seq<u8>,
    contributor: Seq<u8>,
    timestamp: u64,
    filed: Seq<u8>,
)
    requires
        registry.studies.contains_key(filed),
    ensures
        registry.after_register(
            dataset_hash,
            attestation,
            zk_proof,
            contributor,
            timestamp,
        ).lookup(filed) == registry.lookup(filed),
{
}

} // verus!
