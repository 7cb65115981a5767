use biochain::address::Address;
use biochain::study_registry::{Error, StudyRecord, StudyRegistered, StudyRegistry};

/// The ledger time used where a test does not care about it.
const NOW: u64 = 1_700_000_000;

fn create_address(seed: u8) -> Address {
    Address::new(vec![seed; 20])
}

fn create_dataset_hash(seed: u8) -> [u8; 32] {
    let mut hash_bytes = [seed; 32];
    hash_bytes[0] = seed;
    hash_bytes
}

fn create_attestation() -> Vec<u8> {
    b"mock_attestation_proof_from_tee".to_vec()
}

fn create_zk_proof() -> Vec<u8> {
    b"mock_zk_proof_bn254_1234567890".to_vec()
}

#[test]
fn test_register_study_success() {
    let mut registry = StudyRegistry::new();

    let contributor = create_address(1);
    let dataset_hash = create_dataset_hash(0);
    let attestation = create_attestation();
    let zk_proof = create_zk_proof();

    let result = registry.register_study(
        dataset_hash,
        attestation,
        zk_proof,
        contributor.clone(),
        NOW,
    );

    assert!(result.is_ok(), "register_study should succeed");

    let study = registry.get_study(dataset_hash);
    assert!(study.is_ok(), "get_study should succeed");

    let study_record = study.unwrap();
    assert_eq!(study_record.dataset_hash, dataset_hash, "dataset_hash should match");
    assert_eq!(study_record.contributor, contributor, "contributor should match");
    assert!(study_record.timestamp > 0, "timestamp should be set");
    assert_eq!(study_record.timestamp, NOW);

    let events = registry.events();
    assert!(events.len() > 0, "Events should be emitted");
    assert_eq!(
        events,
        &vec![StudyRegistered { dataset_hash, contributor, timestamp: NOW }]
    );
}

#[test]
fn test_register_study_duplicate_hash_fails() {
    let mut registry = StudyRegistry::new();

    let contributor1 = create_address(1);
    let contributor2 = create_address(2);
    let dataset_hash = create_dataset_hash(1);
    let attestation = create_attestation();
    let zk_proof = create_zk_proof();

    let result1 = registry.register_study(
        dataset_hash,
        attestation.clone(),
        zk_proof.clone(),
        contributor1.clone(),
        NOW,
    );
    assert!(result1.is_ok(), "First registration should succeed");

    let result2 = registry.register_study(
        dataset_hash,
        attestation,
        zk_proof,
        contributor2,
        NOW + 1,
    );

    assert!(result2.is_err(), "Duplicate registration should fail");
    match result2.unwrap_err() {
        Error::DuplicateStudy => {}
        _ => panic!("Expected DuplicateStudy error"),
    }

    let study = registry.get_study(dataset_hash);
    assert!(study.is_ok());
    assert_eq!(
        study.unwrap().contributor,
        contributor1,
        "Original contributor should be preserved"
    );
}

#[test]
fn test_register_study_invalid_attestation_fails() {
    let mut registry = StudyRegistry::new();

    let contributor = create_address(1);
    let dataset_hash = create_dataset_hash(2);
    let empty_attestation: Vec<u8> = Vec::new();
    let zk_proof = create_zk_proof();

    let result = registry.register_study(
        dataset_hash,
        empty_attestation,
        zk_proof,
        contributor,
        NOW,
    );

    assert!(result.is_err(), "Empty attestation should fail");
    match result.unwrap_err() {
        Error::InvalidAttestation => {}
        _ => panic!("Expected InvalidAttestation error"),
    }

    let study = registry.get_study(dataset_hash);
    assert!(study.is_err(), "Study should not be stored");
}

#[test]
fn test_register_study_invalid_zk_proof_fails() {
    let mut registry = StudyRegistry::new();

    let contributor = create_address(1);
    let dataset_hash = create_dataset_hash(3);
    let attestation = create_attestation();
    let empty_zk_proof: Vec<u8> = Vec::new();

    let result = registry.register_study(
        dataset_hash,
        attestation,
        empty_zk_proof,
        contributor,
        NOW,
    );

    assert!(result.is_err(), "Empty ZK proof should fail");
    match result.unwrap_err() {
        Error::InvalidZKProof => {}
        _ => panic!("Expected InvalidZKProof error"),
    }

    let study = registry.get_study(dataset_hash);
    assert!(study.is_err(), "Study should not be stored");
}

#[test]
fn test_get_nonexistent_study() {
    let registry = StudyRegistry::new();

    let nonexistent_hash = create_dataset_hash(99);

    let result = registry.get_study(nonexistent_hash);

    assert!(result.is_err(), "Getting nonexistent study should fail");
    match result.unwrap_err() {
        Error::StudyNotFound => {}
        _ => panic!("Expected StudyNotFound error"),
    }
}

#[test]
fn test_test_dataset_exists() {
    let mut registry = StudyRegistry::new();

    let contributor = create_address(1);
    let dataset_hash = create_dataset_hash(4);
    let attestation = create_attestation();
    let zk_proof = create_zk_proof();

    let exists_before = registry.dataset_exists(&dataset_hash);
    assert!(!exists_before, "Dataset should not exist before registration");

    let result = registry.register_study(dataset_hash, attestation, zk_proof, contributor, NOW);
    assert!(result.is_ok(), "Registration should succeed");

    let exists_after = registry.dataset_exists(&dataset_hash);
    assert!(exists_after, "Dataset should exist after registration");
}

#[test]
fn test_multiple_studies_different_hashes() {
    let mut registry = StudyRegistry::new();

    let contributor = create_address(1);
    let attestation = create_attestation();
    let zk_proof = create_zk_proof();

    for i in 0..5 {
        let dataset_hash = create_dataset_hash(i + 10);
        let result = registry.register_study(
            dataset_hash,
            attestation.clone(),
            zk_proof.clone(),
            contributor.clone(),
            NOW,
        );
        assert!(result.is_ok(), "Registration {} should succeed", i);

        let exists = registry.dataset_exists(&dataset_hash);
        assert!(exists, "Dataset {} should exist", i);
    }
    assert_eq!(registry.events().len(), 5);
}

#[test]
fn duplicate_is_refused_before_anything_else_is_looked_at() {
    let mut registry = StudyRegistry::new();
    let dataset_hash = create_dataset_hash(7);
    registry
        .register_study(dataset_hash, create_attestation(), create_zk_proof(), create_address(1), 10)
        .unwrap();

    // An empty attestation and an empty proof come with the second registration:
    // the hash is tested first.
    let again = registry.register_study(dataset_hash, Vec::new(), Vec::new(), create_address(2), 20);
    assert_eq!(again, Err(Error::DuplicateStudy));

    assert_eq!(
        registry.get_study(dataset_hash),
        Ok(StudyRecord { dataset_hash, contributor: create_address(1), timestamp: 10 })
    );
    assert_eq!(registry.events().len(), 1);
}

#[test]
fn empty_attestation_is_refused_before_an_empty_proof() {
    let mut registry = StudyRegistry::new();
    let outcome = registry.register_study(
        create_dataset_hash(8),
        Vec::new(),
        Vec::new(),
        create_address(1),
        NOW,
    );
    assert_eq!(outcome, Err(Error::InvalidAttestation));
    assert!(registry.events().is_empty());
}

#[test]
fn a_refused_registration_logs_nothing() {
    let mut registry = StudyRegistry::new();
    let outcome = registry.register_study(
        create_dataset_hash(9),
        create_attestation(),
        Vec::new(),
        create_address(1),
        NOW,
    );
    assert_eq!(outcome, Err(Error::InvalidZKProof));
    assert!(registry.events().is_empty());
    assert!(!registry.dataset_exists(&create_dataset_hash(9)));
}

#[test]
fn get_study_returns_the_record_as_filed() {
    let mut registry = StudyRegistry::new();
    let first = create_dataset_hash(1);
    let second = create_dataset_hash(2);
    registry
        .register_study(first, create_attestation(), create_zk_proof(), create_address(1), 100)
        .unwrap();
    registry
        .register_study(second, create_attestation(), create_zk_proof(), create_address(2), 200)
        .unwrap();

    assert_eq!(
        registry.get_study(first),
        Ok(StudyRecord { dataset_hash: first, contributor: create_address(1), timestamp: 100 })
    );
    assert_eq!(
        registry.get_study(second),
        Ok(StudyRecord { dataset_hash: second, contributor: create_address(2), timestamp: 200 })
    );
    assert_eq!(
        registry.events(),
        &vec![
            StudyRegistered { dataset_hash: first, contributor: create_address(1), timestamp: 100 },
            StudyRegistered { dataset_hash: second, contributor: create_address(2), timestamp: 200 },
        ]
    );
}

#[test]
fn the_proof_check_accepts_what_is_not_empty() {
    let hash = create_dataset_hash(5);
    assert!(StudyRegistry::verify_zk_proof_mock(&vec![1], &hash, &vec![2]));
    assert!(!StudyRegistry::verify_zk_proof_mock(&Vec::new(), &hash, &vec![2]));
    assert!(!StudyRegistry::verify_zk_proof_mock(&vec![1], &hash, &Vec::new()));
}

#[test]
fn a_restored_registry_holds_the_given_records() {
    let first = create_dataset_hash(1);
    let second = create_dataset_hash(2);
    let mut registry = StudyRegistry::restore(vec![
        StudyRecord { dataset_hash: first, contributor: create_address(1), timestamp: 100 },
        StudyRecord { dataset_hash: second, contributor: create_address(2), timestamp: 200 },
    ]);

    assert!(registry.events().is_empty());
    assert!(registry.dataset_exists(&first));
    assert_eq!(
        registry.get_study(second),
        Ok(StudyRecord { dataset_hash: second, contributor: create_address(2), timestamp: 200 })
    );
    assert_eq!(registry.get_study(create_dataset_hash(3)), Err(Error::StudyNotFound));

    // What was restored is filed: it cannot be registered again.
    let again = registry.register_study(
        first,
        create_attestation(),
        create_zk_proof(),
        create_address(9),
        NOW,
    );
    assert_eq!(again, Err(Error::DuplicateStudy));
    assert_eq!(StudyRegistry::restore(Vec::new()).get_study(first), Err(Error::StudyNotFound));
}
