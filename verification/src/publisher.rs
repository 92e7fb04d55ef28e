//! The result verifier and publisher: from the output of a computation to the
//! event that tells the requester its encrypted result.
//!
//! The payload is never decrypted here. An output is published only where it
//! resolves a pending request and its attestation holds; any other output
//! publishes nothing.

use vstd::prelude::*;

use crate::coordinator::{
    after_settle,
    is_pending,
    settle_outcome,
    PendingRequest,
    RequestCoordinator,
    RequestRecord,
};
use crate::error::ErrorCode;

verus! {

/// What is known of where an output comes from.
#[derive(Clone, Copy, Debug, PartialEq, Eq, Structural)]
pub struct Attestation {
    /// The request that the output claims to resolve.
    pub request_id: u64,
    /// Whether the executing cluster's proof over the output, bound to that
    /// request, was checked and holds. A failure reported by the executor and
    /// an expired request both count as a proof that does not hold.
    pub authentic: bool,
}

/// The output of one computation.
#[derive(Clone, Copy, Debug, PartialEq, Eq)]
pub struct ComputationOutput {
    /// The encrypted result, one block per field: the score first, the
    /// verdict second.
    pub ciphertexts: [[u8; 32]; 2],
    /// The nonce under which the requester decrypts the result.
    pub nonce: u128,
    /// Where the output comes from.
    pub attestation: Attestation,
}

/// What is published for a completed request. Only the holder of the private
/// key that belongs to the request can read the two encrypted fields.
#[derive(Clone, Copy, Debug, PartialEq, Eq)]
pub struct DnaMatchEvent {
    /// The encrypted number of agreeing positions.
    pub encrypted_score: [u8; 32],
    /// The encrypted verdict.
    pub encrypted_is_relative: [u8; 32],
    /// The nonce of the output, least significant byte first.
    pub nonce: [u8; 16],
    /// When the result was published, in seconds since the Unix epoch, where
    /// the publisher has a clock.
    pub timestamp: Option<i64>,
}

/// Byte `i` of a nonce, counted from the least significant.
pub open spec fn nonce_byte(nonce: u128, i: int) -> u8 {
    ((nonce >> ((8 * i) as u128)) & 0xff) as u8
}

/// The 16 bytes of a nonce, least significant first.
pub open spec fn nonce_le_bytes(nonce: u128) -> Seq<u8> {
    Seq::new(16, |i: int| nonce_byte(nonce, i))
}

/// Whether `event` is what the output of a completed request is published as:
/// the two blocks and the nonce of the output, unread, and the time given.
pub open spec fn publishes(
    event: DnaMatchEvent,
    output: ComputationOutput,
    timestamp: Option<i64>,
) -> bool {
    &&& event.encrypted_score == output.ciphertexts[0]
    &&& event.encrypted_is_relative == output.ciphertexts[1]
    &&& event.nonce@ == nonce_le_bytes(output.nonce)
    &&& event.timestamp == timestamp
}

/// Whether the completion that `output` reports is published, given the
/// records at its arrival: the request it names is pending and its
/// attestation holds.
pub open spec fn is_published(records: Map<u64, RequestRecord>, output: ComputationOutput) -> bool {
    is_pending(records, output.attestation.request_id) && output.attestation.authentic
}

/// An output that names no pending request is never published, whatever its
/// attestation says, and it leaves every request as it was.
pub proof fn lemma_unmatched_output_not_published(
    records: Map<u64, RequestRecord>,
    output: ComputationOutput,
)
    requires
        !is_pending(records, output.attestation.request_id),
    ensures
        !is_published(records, output),
        settle_outcome(records, output.attestation.request_id, output.attestation.authentic)
            == Err::<PendingRequest, ErrorCode>(ErrorCode::UnknownRequestId),
        after_settle(records, output.attestation.request_id, output.attestation.authentic)
            == records,
{
}

/// The number that 16 bytes stand for, least significant byte first.
pub open spec fn nonce_from_le_bytes(bytes: Seq<u8>) -> u128
    recommends
        bytes.len() == 16,
{
    (bytes[0] as u128) | (bytes[1] as u128) << 8 | (bytes[2] as u128) << 16 | (bytes[3] as u128)
        << 24 | (bytes[4] as u128) << 32 | (bytes[5] as u128) << 40 | (bytes[6] as u128) << 48 | (
    bytes[7] as u128) << 56 | (bytes[8] as u128) << 64 | (bytes[9] as u128) << 72 | (bytes[10] as u128)
        << 80 | (bytes[11] as u128) << 88 | (bytes[12] as u128) << 96 | (bytes[13] as u128) << 104
        | (bytes[14] as u128) << 112 | (bytes[15] as u128) << 120
}

/// The bytes of a nonce give the nonce back, so the requester can tell from
/// an event which nonce it carries.
pub proof fn lemma_nonce_bytes_round_trip(nonce: u128)
    ensures
        nonce_le_bytes(nonce).len() == 16,
        nonce_from_le_bytes(nonce_le_bytes(nonce)) == nonce,
{
    let b = nonce_le_bytes(nonce);
    assert(nonce == (((nonce >> 0u128) & 0xff) as u8 as u128) | (((nonce >> 8u128) & 0xff) as u8
        as u128) << 8 | (((nonce >> 16u128) & 0xff) as u8 as u128) << 16 | (((nonce >> 24u128)
        & 0xff) as u8 as u128) << 24 | (((nonce >> 32u128) & 0xff) as u8 as u128) << 32 | (((nonce
        >> 40u128) & 0xff) as u8 as u128) << 40 | (((nonce >> 48u128) & 0xff) as u8 as u128) << 48
        | (((nonce >> 56u128) & 0xff) as u8 as u128) << 56 | (((nonce >> 64u128) & 0xff) as u8
        as u128) << 64 | (((nonce >> 72u128) & 0xff) as u8 as u128) << 72 | (((nonce >> 80u128)
        & 0xff) as u8 as u128) << 80 | (((nonce >> 88u128) & 0xff) as u8 as u128) << 88 | (((nonce
        >> 96u128) & 0xff) as u8 as u128) << 96 | (((nonce >> 104u128) & 0xff) as u8 as u128)
        << 104 | (((nonce >> 112u128) & 0xff) as u8 as u128) << 112 | (((nonce >> 120u128) & 0xff)
        as u8 as u128) << 120) by (bit_vector);
}

/// The bytes of a nonce, least significant first.
pub fn nonce_to_le_bytes(nonce: u128) -> (bytes: [u8; 16])
    ensures
        bytes@ == nonce_le_bytes(nonce),
{
    let mut bytes: [u8; 16] = [0u8; 16];
    let mut i: usize = 0;
    while i < 16
        invariant
            i <= 16,
            forall|j: int| 0 <= j < i ==> bytes@[j] == nonce_byte(nonce, j),
        decreases 16 - i,
    {
        let shift: u128 = 8 * (i as u128);
        let low: u128 = (nonce >> shift) & 0xff;
        assert(low < 256) by (bit_vector)
            requires
                low == (nonce >> shift) & 0xff,
        ;
        bytes[i] = low as u8;
        i = i + 1;
    }
    assert(bytes@ =~= nonce_le_bytes(nonce));
    bytes
}

/// The event for the output of a completed request.
pub fn match_event(output: &ComputationOutput, timestamp: Option<i64>) -> (event: DnaMatchEvent)
    ensures
        publishes(event, *output, timestamp),
{
    DnaMatchEvent {
        encrypted_score: output.ciphertexts[0],
        encrypted_is_relative: output.ciphertexts[1],
        nonce: nonce_to_le_bytes(output.nonce),
        timestamp,
    }
}

/// Handles the completion of a computation.
///
/// Where the request that the output names is pending and the attestation
/// holds, the request becomes completed and its event is returned for
/// publication. Where the request is pending and the attestation does not
/// hold, the request becomes aborted. Where the request is not pending,
/// nothing changes. In the last two cases nothing is published.
pub fn compute_dna_similarity_callback(
    coordinator: &mut RequestCoordinator,
    output: &ComputationOutput,
    timestamp: Option<i64>,
) -> (published: Result<DnaMatchEvent, ErrorCode>)
    ensures
        final(coordinator)@ == after_settle(
            old(coordinator)@,
            output.attestation.request_id,
            output.attestation.authentic,
        ),
        published is Ok <==> is_published(old(coordinator)@, *output),
        published matches Ok(event) ==> publishes(event, *output, timestamp),
        published matches Err(e) ==> settle_outcome(
            old(coordinator)@,
            output.attestation.request_id,
            output.attestation.authentic,
        ) == Err::<PendingRequest, ErrorCode>(e),
{
    match coordinator.settle(output.attestation.request_id, output.attestation.authentic) {
        Ok(_) => Ok(match_event(output, timestamp)),
        Err(e) => Err(e),
    }
}

} // verus!
