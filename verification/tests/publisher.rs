use arcdna::publisher::{match_event, nonce_to_le_bytes};
use arcdna::{
    compute_dna_similarity_callback, Attestation, ComputationOutput, DnaMatchEvent, ErrorCode,
    PendingRequest, RequestCoordinator, RequestState,
};

fn output(request_id: u64, authentic: bool) -> ComputationOutput {
    let mut score = [0x5a; 32];
    score[0] = 1;
    let mut verdict = [0xa5; 32];
    verdict[31] = 2;
    ComputationOutput {
        ciphertexts: [score, verdict],
        nonce: 0x0f0e_0d0c_0b0a_0908_0706_0504_0302_0100,
        attestation: Attestation { request_id, authentic },
    }
}

fn pending(coordinator: &mut RequestCoordinator, id: u64) -> PendingRequest {
    let request = PendingRequest { pubkey: [id as u8; 32], nonce: 17 };
    coordinator.submit(id, request).unwrap();
    request
}

#[test]
fn nonce_bytes_are_little_endian() {
    assert_eq!(nonce_to_le_bytes(0), [0u8; 16]);
    assert_eq!(nonce_to_le_bytes(1), [1, 0, 0, 0, 0, 0, 0, 0, 0, 0, 0, 0, 0, 0, 0, 0]);
    assert_eq!(
        nonce_to_le_bytes(0x0f0e_0d0c_0b0a_0908_0706_0504_0302_0100),
        [0, 1, 2, 3, 4, 5, 6, 7, 8, 9, 10, 11, 12, 13, 14, 15]
    );
    assert_eq!(nonce_to_le_bytes(u128::MAX), [0xff; 16]);
    assert_eq!(nonce_to_le_bytes(1 << 127)[15], 0x80);
    for nonce in [0u128, 1, 255, 256, 0xdead_beef, u128::MAX - 1, 1 << 64, (1 << 120) + 3] {
        assert_eq!(nonce_to_le_bytes(nonce), nonce.to_le_bytes());
        assert_eq!(u128::from_le_bytes(nonce_to_le_bytes(nonce)), nonce);
    }
}

#[test]
fn event_carries_the_blocks_unread() {
    let out = output(1, true);
    let event = match_event(&out, Some(1_700_000_000));
    assert_eq!(
        event,
        DnaMatchEvent {
            encrypted_score: out.ciphertexts[0],
            encrypted_is_relative: out.ciphertexts[1],
            nonce: [0, 1, 2, 3, 4, 5, 6, 7, 8, 9, 10, 11, 12, 13, 14, 15],
            timestamp: Some(1_700_000_000),
        }
    );
    let untimed = match_event(&out, None);
    assert_eq!(untimed.timestamp, None);
    assert_eq!(untimed.encrypted_score, out.ciphertexts[0]);
}

#[test]
fn authentic_output_of_a_pending_request_is_published() {
    let mut coordinator = RequestCoordinator::new();
    pending(&mut coordinator, 9);
    let out = output(9, true);
    let published = compute_dna_similarity_callback(&mut coordinator, &out, Some(-5));
    assert_eq!(published, Ok(match_event(&out, Some(-5))));
    assert_eq!(published.unwrap().encrypted_is_relative, out.ciphertexts[1]);
    assert_eq!(coordinator.state(9), RequestState::Completed);
}

#[test]
fn output_that_fails_verification_aborts_and_publishes_nothing() {
    let mut coordinator = RequestCoordinator::new();
    pending(&mut coordinator, 9);
    let published = compute_dna_similarity_callback(&mut coordinator, &output(9, false), Some(1));
    assert_eq!(published, Err(ErrorCode::AbortedComputation));
    assert_eq!(coordinator.state(9), RequestState::Aborted);
    let retried = compute_dna_similarity_callback(&mut coordinator, &output(9, true), Some(2));
    assert_eq!(retried, Err(ErrorCode::UnknownRequestId));
    assert_eq!(coordinator.state(9), RequestState::Aborted);
}

#[test]
fn output_for_no_pending_request_publishes_nothing() {
    let mut coordinator = RequestCoordinator::new();
    let first = pending(&mut coordinator, 9);
    for authentic in [true, false] {
        let published =
            compute_dna_similarity_callback(&mut coordinator, &output(10, authentic), Some(1));
        assert_eq!(published, Err(ErrorCode::UnknownRequestId));
        assert_eq!(coordinator.state(10), RequestState::Unsubmitted);
        assert_eq!(coordinator.state(9), RequestState::Pending);
        assert_eq!(coordinator.pending(9), Some(first));
    }
}

#[test]
fn replayed_output_is_published_once() {
    let mut coordinator = RequestCoordinator::new();
    pending(&mut coordinator, 9);
    let out = output(9, true);
    assert!(compute_dna_similarity_callback(&mut coordinator, &out, None).is_ok());
    assert_eq!(
        compute_dna_similarity_callback(&mut coordinator, &out, None),
        Err(ErrorCode::UnknownRequestId)
    );
    assert_eq!(coordinator.state(9), RequestState::Completed);
}
