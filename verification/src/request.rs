//! Submission: from the inputs of a request to the encoded request that is
//! handed to the executor.

use arcium_anchor::prelude::ArgumentList;
use vstd::prelude::*;

use crate::arguments::{encode_arguments, list_arguments, well_formed, wire_layout};
use crate::config::CircuitConfig;
use crate::coordinator::{after_submit, is_pending, PendingRequest, RequestCoordinator};
use crate::error::ErrorCode;
use crate::profile::UserProfile;

verus! {

/// An accepted request, ready for the executor.
pub struct ComputationRequest {
    /// The identifier under which the request is pending.
    pub id: u64,
    /// The circuit that the executor is to evaluate.
    pub circuit: u32,
    /// The requester's public encryption key.
    pub pubkey: [u8; 32],
    /// The nonce of the request.
    pub nonce: u128,
    /// The encoded arguments of the circuit.
    pub arguments: ArgumentList,
}

/// Submits a request to compare the requester's fingerprint with that of a
/// registered party.
///
/// The arguments are encoded first: inputs of the wrong width are refused
/// with `MalformedArgument`. An identifier that is still pending is refused
/// with `DuplicateRequest`. A refused request changes nothing. An accepted
/// request is pending from then on, and is returned with its encoded
/// arguments for the executor.
pub fn request_match(
    coordinator: &mut RequestCoordinator,
    config: &CircuitConfig,
    target_profile: &UserProfile,
    computation_offset: u64,
    ciphertext_user: &[[u8; 32]],
    encrypted_threshold: Option<[u8; 32]>,
    pubkey: [u8; 32],
    nonce: u128,
) -> (requested: Result<ComputationRequest, ErrorCode>)
    ensures
        requested is Ok <==> well_formed(
            *config,
            ciphertext_user@,
            target_profile.encrypted_dna_shards@,
            encrypted_threshold,
        ) && !is_pending(old(coordinator)@, computation_offset),
        requested matches Err(e) ==> e == if well_formed(
            *config,
            ciphertext_user@,
            target_profile.encrypted_dna_shards@,
            encrypted_threshold,
        ) {
            ErrorCode::DuplicateRequest
        } else {
            ErrorCode::MalformedArgument
        },
        requested matches Ok(request) ==> {
            &&& request.id == computation_offset
            &&& request.circuit == config.circuit
            &&& request.pubkey == pubkey
            &&& request.nonce == nonce
            &&& list_arguments(request.arguments) == wire_layout(
                pubkey,
                nonce,
                ciphertext_user@,
                target_profile.encrypted_dna_shards@,
                encrypted_threshold,
            )
        },
        final(coordinator)@ == if well_formed(
            *config,
            ciphertext_user@,
            target_profile.encrypted_dna_shards@,
            encrypted_threshold,
        ) {
            after_submit(old(coordinator)@, computation_offset, PendingRequest { pubkey, nonce })
        } else {
            old(coordinator)@
        },
{
    let arguments = match encode_arguments(
        config,
        pubkey,
        nonce,
        ciphertext_user,
        target_profile.encrypted_dna_shards.as_slice(),
        encrypted_threshold,
    ) {
        Ok(arguments) => arguments,
        Err(e) => {
            return Err(e);
        },
    };
    match coordinator.submit(computation_offset, PendingRequest { pubkey, nonce }) {
        Ok(()) => Ok(
            ComputationRequest {
                id: computation_offset,
                circuit: config.circuit,
                pubkey,
                nonce,
                arguments,
            },
        ),
        Err(e) => Err(e),
    }
}

} // verus!
