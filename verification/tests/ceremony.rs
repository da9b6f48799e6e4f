use threshold_ceremony::artifacts::Contribution;
use threshold_ceremony::artifacts::GroupSignature;
use threshold_ceremony::artifacts::SignedMessage;
use threshold_ceremony::artifacts::SigningCommitment;
use threshold_ceremony::artifacts::SigningNonces;
use threshold_ceremony::artifacts::SigningPackage;
use threshold_ceremony::artifacts::SigningShare;
use threshold_ceremony::artifacts::SppOutput;
use threshold_ceremony::artifacts::ThresholdAccount;
use threshold_ceremony::dkg::dkg_round1_prepare;
use threshold_ceremony::dkg::dkg_round1_record;
use threshold_ceremony::dkg::dkg_round2_prepare;
use threshold_ceremony::dkg::dkg_round2_record;
use threshold_ceremony::errors::CeremonyError;
use threshold_ceremony::hexcodec::decode_hex_field;
use threshold_ceremony::signing::record_signature;
use threshold_ceremony::signing::sign_round1_prepare;
use threshold_ceremony::signing::sign_round1_record;
use threshold_ceremony::signing::SigningSession;
use threshold_ceremony::store::ArtifactKey;
use threshold_ceremony::store::ArtifactStore;
use threshold_ceremony::store::ArtifactValue;

fn secret_bytes(seed: u8) -> [u8; 32] {
    [seed; 32]
}

fn public_key_hex(seed: u8) -> String {
    let public = schnorrkel::MiniSecretKey::from_bytes(&secret_bytes(seed))
        .unwrap()
        .expand_to_keypair(schnorrkel::ExpansionMode::Ed25519)
        .public
        .to_bytes();
    format!("0x{}", hex::encode(public))
}

fn secret_key_hex(seed: u8) -> Vec<u8> {
    format!("0x{}", hex::encode(secret_bytes(seed))).into_bytes()
}

fn recipient_fields(n: u8) -> Vec<Vec<u8>> {
    (0..n).map(|i| public_key_hex(i + 1).into_bytes()).collect()
}

#[test]
fn store_put_get_round_trip() {
    let mut store = ArtifactStore::new();
    store.put(7, ArtifactKey::Share, ArtifactValue::One(vec![1, 2, 3]));
    match store.get_bytes(7, ArtifactKey::Share) {
        Ok(b) => assert_eq!(b, &vec![1, 2, 3]),
        Err(_) => panic!("expected the stored bytes"),
    }
}

#[test]
fn store_missing_is_not_found() {
    let store = ArtifactStore::new();
    assert_eq!(
        store.get_bytes(7, ArtifactKey::Share).unwrap_err(),
        CeremonyError::NotFound
    );
    assert_eq!(
        store.get_list(7, ArtifactKey::Contributions).unwrap_err(),
        CeremonyError::NotFound
    );
}

#[test]
fn store_wrong_shape_is_corrupt() {
    let mut store = ArtifactStore::new();
    store.put(7, ArtifactKey::Share, ArtifactValue::Many(vec![vec![1]]));
    assert_eq!(
        store.get_bytes(7, ArtifactKey::Share).unwrap_err(),
        CeremonyError::Corrupt
    );
    store.put(7, ArtifactKey::Contributions, ArtifactValue::One(vec![1]));
    assert_eq!(
        store.get_list(7, ArtifactKey::Contributions).unwrap_err(),
        CeremonyError::Corrupt
    );
}

#[test]
fn store_overwrite_replaces_and_keeps_other_addresses() {
    let mut store = ArtifactStore::new();
    store.put(1, ArtifactKey::Share, ArtifactValue::One(vec![1]));
    store.put(2, ArtifactKey::Share, ArtifactValue::One(vec![2]));
    store.put(1, ArtifactKey::Share, ArtifactValue::One(vec![9]));
    assert_eq!(store.get_bytes(1, ArtifactKey::Share).unwrap(), &vec![9]);
    assert_eq!(store.get_bytes(2, ArtifactKey::Share).unwrap(), &vec![2]);
}

#[test]
fn hex_field_decodes_exactly() {
    let bytes = decode_hex_field(b"0x0a0bff").unwrap();
    assert_eq!(bytes, vec![0x0a, 0x0b, 0xff]);
}

#[test]
fn hex_field_rejects_malformed_input() {
    assert!(decode_hex_field(b"0a0bff").is_none());
    assert!(decode_hex_field(b"0x0a0").is_none());
    assert!(decode_hex_field(b"0x0g").is_none());
    assert!(decode_hex_field(b"0").is_none());
}

#[test]
fn dkg_round1_assembles_the_contribution_request() {
    let recipients = recipient_fields(3);
    let req = dkg_round1_prepare(2, &secret_key_hex(1), &recipients).unwrap();
    assert_eq!(req.threshold, 2);
    assert_eq!(req.secret_key, secret_bytes(1).to_vec());
    let expected_public = schnorrkel::MiniSecretKey::from_bytes(&secret_bytes(1))
        .unwrap()
        .expand_to_keypair(schnorrkel::ExpansionMode::Ed25519)
        .public
        .to_bytes()
        .to_vec();
    assert_eq!(req.own_public, expected_public);
    assert_eq!(req.recipients.len(), 3);
    for (i, r) in req.recipients.iter().enumerate() {
        assert_eq!(r.index, i as u16);
        assert_eq!(
            format!("0x{}", hex::encode(&r.public_key)).into_bytes(),
            recipients[i]
        );
    }
}

#[test]
fn dkg_round1_rejects_threshold_out_of_range() {
    let recipients = recipient_fields(3);
    assert_eq!(
        dkg_round1_prepare(0, &secret_key_hex(1), &recipients).unwrap_err(),
        CeremonyError::InvalidThreshold
    );
    assert_eq!(
        dkg_round1_prepare(4, &secret_key_hex(1), &recipients).unwrap_err(),
        CeremonyError::InvalidThreshold
    );
    assert!(dkg_round1_prepare(1, &secret_key_hex(1), &recipients).is_ok());
    assert!(dkg_round1_prepare(3, &secret_key_hex(1), &recipients).is_ok());
}

#[test]
fn dkg_round1_rejects_bad_secret_key() {
    let recipients = recipient_fields(3);
    assert_eq!(
        dkg_round1_prepare(2, &b"0x0a0b".to_vec(), &recipients).unwrap_err(),
        CeremonyError::InvalidSecretKey
    );
    assert_eq!(
        dkg_round1_prepare(2, &b"no-prefix".to_vec(), &recipients).unwrap_err(),
        CeremonyError::InvalidSecretKey
    );
}

#[test]
fn dkg_round1_rejects_bad_recipient() {
    let mut recipients = recipient_fields(3);
    recipients[1] = b"0x0a0b".to_vec();
    assert_eq!(
        dkg_round1_prepare(2, &secret_key_hex(1), &recipients).unwrap_err(),
        CeremonyError::InvalidRecipient
    );
}

#[test]
fn dkg_round1_records_a_single_element_list() {
    let mut store = ArtifactStore::new();
    let contribution = Contribution { bytes: vec![5, 6, 7] };
    dkg_round1_record(&mut store, 1, &contribution);
    let list = store.get_list(1, ArtifactKey::Contributions).unwrap();
    assert_eq!(list, &vec![vec![5, 6, 7]]);
}

#[test]
fn dkg_round2_requires_the_full_contribution_set() {
    let mut store = ArtifactStore::new();
    store.put(
        1,
        ArtifactKey::Contributions,
        ArtifactValue::Many(vec![vec![1], vec![2]]),
    );
    assert_eq!(
        dkg_round2_prepare(&store, 1, 3, &secret_key_hex(1)).unwrap_err(),
        CeremonyError::WrongParticipantCount
    );
    // The failure recorded nothing: there is no account artifact.
    assert_eq!(
        store.get_bytes(1, ArtifactKey::PublicKey).unwrap_err(),
        CeremonyError::NotFound
    );
}

#[test]
fn dkg_round2_missing_set_is_not_found() {
    let store = ArtifactStore::new();
    assert_eq!(
        dkg_round2_prepare(&store, 1, 3, &secret_key_hex(1)).unwrap_err(),
        CeremonyError::NotFound
    );
}

#[test]
fn dkg_round2_collects_the_ordered_set_and_records_three_artifacts() {
    let mut store = ArtifactStore::new();
    store.put(
        1,
        ArtifactKey::Contributions,
        ArtifactValue::Many(vec![vec![1], vec![2], vec![3]]),
    );
    let req = dkg_round2_prepare(&store, 1, 3, &secret_key_hex(2)).unwrap();
    assert_eq!(req.secret_key, secret_bytes(2).to_vec());
    let collected: Vec<Vec<u8>> = req.contributions.iter().map(|c| c.bytes.clone()).collect();
    assert_eq!(collected, vec![vec![1], vec![2], vec![3]]);

    let public_key = vec![9u8; 32];
    let share = SigningShare { bytes: vec![11, 11] };
    let output = SppOutput { bytes: vec![22, 22] };
    let account = dkg_round2_record(&mut store, 1, &public_key, &share, &output, 2, 3);
    assert_eq!(account.public_key, public_key);
    assert_eq!(account.threshold, 2);
    assert_eq!(account.participants, 3);
    assert_eq!(
        store.get_bytes(1, ArtifactKey::PublicKey).unwrap(),
        &public_key
    );
    assert_eq!(store.get_bytes(1, ArtifactKey::Share).unwrap(), &vec![11, 11]);
    assert_eq!(store.get_bytes(1, ArtifactKey::Output).unwrap(), &vec![22, 22]);
}

#[test]
fn sign_round1_needs_a_recorded_share() {
    let store = ArtifactStore::new();
    assert_eq!(
        sign_round1_prepare(&store, 1).unwrap_err(),
        CeremonyError::NotFound
    );
}

#[test]
fn sign_round1_fetches_the_share_and_records_the_commitment() {
    let mut store = ArtifactStore::new();
    store.put(1, ArtifactKey::Share, ArtifactValue::One(vec![11, 11]));
    let req = sign_round1_prepare(&store, 1).unwrap();
    assert_eq!(req.signing_share.bytes, vec![11, 11]);
    let commitment = SigningCommitment { signer: 0, payload: vec![44] };
    sign_round1_record(&mut store, 1, &commitment);
    let list = store.get_list(1, ArtifactKey::Commitments).unwrap();
    assert_eq!(list, &vec![vec![44]]);
}

fn test_account() -> ThresholdAccount {
    ThresholdAccount { public_key: vec![9u8; 32], threshold: 2, participants: 3 }
}

#[test]
fn a_session_pins_its_message_exactly_once() {
    let mut session = SigningSession::new(test_account(), b"ctx".to_vec());
    assert!(session.message().is_none());
    session.pin_message(SignedMessage { bytes: vec![1, 2] }).unwrap();
    assert_eq!(
        session
            .pin_message(SignedMessage { bytes: vec![3, 4] })
            .unwrap_err(),
        CeremonyError::MessageAlreadyPinned
    );
    assert_eq!(session.message().unwrap().bytes, vec![1, 2]);
}

fn commitments_for(signers: &[u16]) -> Vec<SigningCommitment> {
    signers
        .iter()
        .map(|s| SigningCommitment { signer: *s, payload: vec![*s as u8] })
        .collect()
}

#[test]
fn sign_round2_needs_a_pinned_message() {
    let session = SigningSession::new(test_account(), b"ctx".to_vec());
    let r = session.sign_round2_prepare(
        SigningShare { bytes: vec![1] },
        SppOutput { bytes: vec![2] },
        commitments_for(&[0, 1]),
        0,
        SigningNonces { bytes: vec![3] },
    );
    assert_eq!(r.unwrap_err(), CeremonyError::MessageNotSet);
}

#[test]
fn sign_round2_needs_threshold_many_commitments() {
    let mut session = SigningSession::new(test_account(), b"ctx".to_vec());
    session.pin_message(SignedMessage { bytes: vec![7] }).unwrap();
    let r = session.sign_round2_prepare(
        SigningShare { bytes: vec![1] },
        SppOutput { bytes: vec![2] },
        commitments_for(&[0]),
        0,
        SigningNonces { bytes: vec![3] },
    );
    assert_eq!(r.unwrap_err(), CeremonyError::InsufficientSigners);
}

#[test]
fn sign_round2_needs_the_signers_own_commitment() {
    let mut session = SigningSession::new(test_account(), b"ctx".to_vec());
    session.pin_message(SignedMessage { bytes: vec![7] }).unwrap();
    let r = session.sign_round2_prepare(
        SigningShare { bytes: vec![1] },
        SppOutput { bytes: vec![2] },
        commitments_for(&[1, 2]),
        0,
        SigningNonces { bytes: vec![3] },
    );
    assert_eq!(r.unwrap_err(), CeremonyError::SelfCommitmentMissing);
}

#[test]
fn sign_round2_consumes_the_nonces_into_the_request() {
    let mut session = SigningSession::new(test_account(), b"ctx".to_vec());
    session.pin_message(SignedMessage { bytes: vec![7, 8] }).unwrap();
    let req = session
        .sign_round2_prepare(
            SigningShare { bytes: vec![1] },
            SppOutput { bytes: vec![2] },
            commitments_for(&[0, 1]),
            0,
            SigningNonces { bytes: vec![3, 3] },
        )
        .unwrap();
    assert_eq!(req.message, vec![7, 8]);
    assert_eq!(req.context, b"ctx".to_vec());
    assert_eq!(req.nonces.bytes, vec![3, 3]);
    // The nonce value moved into the request above; signing for a second
    // message needs a session of its own and fresh nonces from a new
    // commit round.
    let mut second = SigningSession::new(test_account(), b"ctx".to_vec());
    second.pin_message(SignedMessage { bytes: vec![9] }).unwrap();
    let fresh = SigningNonces { bytes: vec![4, 4] };
    let req2 = second
        .sign_round2_prepare(
            SigningShare { bytes: vec![1] },
            SppOutput { bytes: vec![2] },
            commitments_for(&[0, 1]),
            0,
            fresh,
        )
        .unwrap();
    assert_eq!(req2.nonces.bytes, vec![4, 4]);
}

#[test]
fn a_package_carries_the_pinned_message() {
    let mut session = SigningSession::new(test_account(), b"ctx".to_vec());
    session.pin_message(SignedMessage { bytes: vec![7, 8] }).unwrap();
    let package = session.make_package(2, vec![99]).unwrap();
    assert_eq!(package.signer, 2);
    assert_eq!(package.message, vec![7, 8]);
    assert_eq!(package.payload, vec![99]);
}

fn package(session: &SigningSession, signer: u16, payload: u8) -> SigningPackage {
    session.make_package(signer, vec![payload]).unwrap()
}

#[test]
fn aggregation_needs_threshold_many_distinct_signers() {
    let mut session = SigningSession::new(test_account(), b"ctx".to_vec());
    session.pin_message(SignedMessage { bytes: vec![7] }).unwrap();
    let one = vec![package(&session, 0, 10)];
    assert_eq!(
        session.aggregate_prepare(&one).unwrap_err(),
        CeremonyError::InsufficientSigners
    );
    // Two packages from the same signer are one distinct signer.
    let duplicated = vec![package(&session, 0, 10), package(&session, 0, 11)];
    assert_eq!(
        session.aggregate_prepare(&duplicated).unwrap_err(),
        CeremonyError::InsufficientSigners
    );
}

#[test]
fn aggregation_refuses_a_message_mismatch() {
    let mut session = SigningSession::new(test_account(), b"ctx".to_vec());
    session.pin_message(SignedMessage { bytes: vec![7] }).unwrap();
    let mut other = SigningSession::new(test_account(), b"ctx".to_vec());
    other.pin_message(SignedMessage { bytes: vec![8] }).unwrap();
    let packages = vec![package(&session, 0, 10), package(&other, 1, 11)];
    assert_eq!(
        session.aggregate_prepare(&packages).unwrap_err(),
        CeremonyError::MessageMismatch
    );
}

#[test]
fn aggregation_accepts_t_and_t_plus_one_signers() {
    let mut session = SigningSession::new(test_account(), b"ctx".to_vec());
    session.pin_message(SignedMessage { bytes: vec![7] }).unwrap();
    let two = vec![package(&session, 0, 10), package(&session, 2, 12)];
    let req = session.aggregate_prepare(&two).unwrap();
    assert_eq!(req.payloads, vec![vec![10], vec![12]]);
    let three = vec![
        package(&session, 0, 10),
        package(&session, 1, 11),
        package(&session, 2, 12),
    ];
    let req = session.aggregate_prepare(&three).unwrap();
    assert_eq!(req.payloads, vec![vec![10], vec![11], vec![12]]);
}

#[test]
fn end_to_end_two_of_three_without_the_absent_signer() {
    // Key generation: all three participants contribute and finalize.
    let ceremony = 42u64;
    let mut store = ArtifactStore::new();
    let recipients = recipient_fields(3);
    let mut contributions: Vec<Vec<u8>> = Vec::new();
    for seed in 1..=3u8 {
        let req = dkg_round1_prepare(2, &secret_key_hex(seed), &recipients).unwrap();
        assert_eq!(req.recipients.len(), 3);
        // The contribution primitive is an external collaborator; its
        // output is an opaque payload derived from the request.
        contributions.push(vec![seed, req.threshold as u8]);
    }
    store.put(
        ceremony,
        ArtifactKey::Contributions,
        ArtifactValue::Many(contributions),
    );
    let fin = dkg_round2_prepare(&store, ceremony, 3, &secret_key_hex(1)).unwrap();
    assert_eq!(fin.contributions.len(), 3);
    let account = dkg_round2_record(
        &mut store,
        ceremony,
        &vec![9u8; 32],
        &SigningShare { bytes: vec![11] },
        &SppOutput { bytes: vec![22] },
        2,
        3,
    );

    // Signing: participants 0 and 2 take part; participant 1 is absent.
    let message = SignedMessage { bytes: vec![5, 5, 5] };
    let mut sessions: Vec<SigningSession> = Vec::new();
    for _ in 0..2 {
        let mut s = SigningSession::new(account.clone(), b"substrate".to_vec());
        s.pin_message(SignedMessage { bytes: message.bytes.clone() }).unwrap();
        sessions.push(s);
    }
    let commitments = commitments_for(&[0, 2]);
    let share = sign_round1_prepare(&store, ceremony).unwrap().signing_share;
    let r0 = sessions[0]
        .sign_round2_prepare(
            share,
            SppOutput { bytes: vec![22] },
            commitments.clone(),
            0,
            SigningNonces { bytes: vec![1] },
        )
        .unwrap();
    assert_eq!(r0.message, vec![5, 5, 5]);
    let r2 = sessions[1]
        .sign_round2_prepare(
            SigningShare { bytes: vec![11] },
            SppOutput { bytes: vec![22] },
            commitments,
            2,
            SigningNonces { bytes: vec![2] },
        )
        .unwrap();
    assert_eq!(r2.message, vec![5, 5, 5]);

    let packages = vec![
        sessions[0].make_package(0, vec![70]).unwrap(),
        sessions[1].make_package(2, vec![72]).unwrap(),
    ];
    let agg = sessions[0].aggregate_prepare(&packages).unwrap();
    assert_eq!(agg.payloads, vec![vec![70], vec![72]]);

    // The aggregation primitive is external; record its opaque signature.
    let signature = GroupSignature { bytes: vec![88; 64] };
    record_signature(&mut store, ceremony, &signature);
    assert_eq!(
        store.get_bytes(ceremony, ArtifactKey::Signature).unwrap(),
        &vec![88; 64]
    );
    let submission = sessions[0].submission(&signature).unwrap();
    assert_eq!(submission.account_public_key, vec![9u8; 32]);
    assert_eq!(submission.message, vec![5, 5, 5]);
    assert_eq!(submission.signature, vec![88; 64]);
}

#[test]
fn error_labels_are_stable() {
    assert_eq!(CeremonyError::NotFound.label(), "not found");
    assert_eq!(CeremonyError::MessageMismatch.label(), "message mismatch");
}

#[test]
fn commands_carry_their_parameters() {
    let round1 = threshold_ceremony::commands::GenerateThresholdRound1Cmd {
        threshold: 2,
        files_path: "ceremony-files".to_string(),
    };
    assert_eq!(round1.threshold, 2);
    assert_eq!(round1.files_path, "ceremony-files");
    let round2 = threshold_ceremony::commands::SignThresholdRound2Cmd {
        files_path: "ceremony-files".to_string(),
        context: "substrate".to_string(),
        url: None,
        pallet: "Balances".to_string(),
        call: "transfer_allow_death".to_string(),
        trailing_args: vec!["{ dest: (1), value: 2 }".to_string()],
    };
    assert_eq!(round2.trailing_args.join(" "), "{ dest: (1), value: 2 }");
}

#[test]
fn a_refused_package_set_records_no_signature() {
    let mut store = ArtifactStore::new();
    let mut session = SigningSession::new(test_account(), b"ctx".to_vec());
    session.pin_message(SignedMessage { bytes: vec![7] }).unwrap();
    let short = vec![package(&session, 0, 10)];
    let signature = GroupSignature { bytes: vec![88; 64] };
    assert_eq!(
        threshold_ceremony::signing::record_aggregate_signature(
            &mut store, 42, &session, &short, &signature
        )
        .unwrap_err(),
        CeremonyError::InsufficientSigners
    );
    assert_eq!(
        store.get_bytes(42, ArtifactKey::Signature).unwrap_err(),
        CeremonyError::NotFound
    );
    let mut other = SigningSession::new(test_account(), b"ctx".to_vec());
    other.pin_message(SignedMessage { bytes: vec![8] }).unwrap();
    let mixed = vec![package(&session, 0, 10), package(&other, 1, 11)];
    assert_eq!(
        threshold_ceremony::signing::record_aggregate_signature(
            &mut store, 42, &session, &mixed, &signature
        )
        .unwrap_err(),
        CeremonyError::MessageMismatch
    );
    assert_eq!(
        store.get_bytes(42, ArtifactKey::Signature).unwrap_err(),
        CeremonyError::NotFound
    );
}

#[test]
fn an_accepted_package_set_records_its_signature_and_builds_the_submission() {
    let mut store = ArtifactStore::new();
    let mut session = SigningSession::new(test_account(), b"ctx".to_vec());
    session.pin_message(SignedMessage { bytes: vec![7] }).unwrap();
    let packages = vec![package(&session, 0, 10), package(&session, 2, 12)];
    let signature = GroupSignature { bytes: vec![88; 64] };
    let submission = threshold_ceremony::signing::record_aggregate_signature(
        &mut store, 42, &session, &packages, &signature,
    )
    .unwrap();
    assert_eq!(
        store.get_bytes(42, ArtifactKey::Signature).unwrap(),
        &vec![88; 64]
    );
    assert_eq!(submission.account_public_key, vec![9u8; 32]);
    assert_eq!(submission.message, vec![7]);
    assert_eq!(submission.signature, vec![88; 64]);
}
