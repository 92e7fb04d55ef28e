//! The argument encoder: the positional list of encrypted inputs that the
//! comparison circuit consumes.
//!
//! The circuit knows its inputs by position only, so the order is fixed: the
//! requester's key, the nonce, the blocks of the requester's fingerprint, the
//! blocks of the target's fingerprint and, where the deployed circuit takes
//! one, the block of the threshold.

use arcium_anchor::prelude::ArgumentList;
use arcium_anchor::ArgBuilder;
use vstd::prelude::*;

use crate::config::CircuitConfig;
use crate::error::ErrorCode;

verus! {

/// The widest fingerprint an argument list can carry. A list refers to each
/// block by an 8-bit index, and a request holds the key, two fingerprints and
/// the threshold as blocks.
pub const MAX_WIDTH: usize = 127;

/// One positional argument of the circuit, with the value it stands for.
#[derive(Clone, Copy, Debug, PartialEq, Eq)]
pub enum WireArg {
    /// The requester's public encryption key.
    X25519Pubkey([u8; 32]),
    /// A 128-bit number in the clear: the nonce.
    PlaintextU128(u128),
    /// One ciphertext block of an encrypted 64-bit value.
    EncryptedU64([u8; 32]),
}

/// `arcium_anchor::ArgBuilder`, the builder of argument lists. Nothing inside
/// it is visible to the verifier; what it holds is named by
/// `builder_arguments` and `builder_blocks`.
#[verifier::external_type_specification]
#[verifier::external_body]
pub struct ExArgBuilder(ArgBuilder);

/// The argument list of the Arcium program, as `ArgBuilder::build` returns
/// it. Nothing inside it is visible to the verifier; what it holds is named
/// by `list_arguments`.
#[verifier::external_type_specification]
#[verifier::external_body]
pub struct ExArgumentList(ArgumentList);

/// The arguments a builder holds, in the order they were added, each with the
/// value that its entry refers to.
pub uninterp spec fn builder_arguments(builder: ArgBuilder) -> Seq<WireArg>;

/// How many 32-byte blocks a builder has stored.
pub uninterp spec fn builder_blocks(builder: ArgBuilder) -> nat;

/// The arguments of a finished list, in order, each with the value that its
/// entry refers to.
pub uninterp spec fn list_arguments(list: ArgumentList) -> Seq<WireArg>;

/// `ArgBuilder::new`: a builder that holds nothing.
#[verifier::external_body]
fn builder_new() -> (builder: ArgBuilder)
    ensures
        builder_arguments(builder) == Seq::<WireArg>::empty(),
        builder_blocks(builder) == 0,
{
    ArgBuilder::new()
}

/// `ArgBuilder::x25519_pubkey`: stores `key` as one more block and appends a
/// key argument that refers to it. The reference is the block's position cut
/// to 8 bits, so it is claimed to reach `key` only while fewer than 256 blocks
/// are stored.
#[verifier::external_body]
fn builder_x25519_pubkey(builder: ArgBuilder, key: [u8; 32]) -> (out: ArgBuilder)
    requires
        builder_blocks(builder) < 256,
    ensures
        builder_arguments(out) == builder_arguments(builder).push(WireArg::X25519Pubkey(key)),
        builder_blocks(out) == builder_blocks(builder) + 1,
{
    builder.x25519_pubkey(key)
}

/// `ArgBuilder::plaintext_u128`: stores `value` as one more 128-bit value and
/// appends a plaintext argument that refers to it, leaving the blocks alone.
/// The reference is the value's position cut to 8 bits. Every stored value
/// has an argument of its own, so the reference is claimed to reach `value`
/// while the builder holds fewer than 256 arguments.
#[verifier::external_body]
fn builder_plaintext_u128(builder: ArgBuilder, value: u128) -> (out: ArgBuilder)
    requires
        builder_arguments(builder).len() < 256,
    ensures
        builder_arguments(out) == builder_arguments(builder).push(WireArg::PlaintextU128(value)),
        builder_blocks(out) == builder_blocks(builder),
{
    builder.plaintext_u128(value)
}

/// `ArgBuilder::encrypted_u64`: stores `block` as one more block and appends
/// an encrypted 64-bit argument that refers to it. The reference is the
/// block's position cut to 8 bits, so it is claimed to reach `block` only
/// while fewer than 256 blocks are stored.
#[verifier::external_body]
fn builder_encrypted_u64(builder: ArgBuilder, block: [u8; 32]) -> (out: ArgBuilder)
    requires
        builder_blocks(builder) < 256,
    ensures
        builder_arguments(out) == builder_arguments(builder).push(WireArg::EncryptedU64(block)),
        builder_blocks(out) == builder_blocks(builder) + 1,
{
    builder.encrypted_u64(block)
}

/// `ArgBuilder::build`: hands out the list that the builder has filled,
/// unchanged.
#[verifier::external_body]
fn builder_build(builder: ArgBuilder) -> (list: ArgumentList)
    ensures
        list_arguments(list) == builder_arguments(builder),
{
    builder.build()
}

/// The arguments that carry the blocks of one encrypted fingerprint.
pub open spec fn encrypted_blocks(blocks: Seq<[u8; 32]>) -> Seq<WireArg> {
    Seq::new(blocks.len(), |i: int| WireArg::EncryptedU64(blocks[i]))
}

/// The argument that carries the threshold, where there is one.
pub open spec fn threshold_argument(threshold: Option<[u8; 32]>) -> Seq<WireArg> {
    match threshold {
        Some(block) => seq![WireArg::EncryptedU64(block)],
        None => Seq::<WireArg>::empty(),
    }
}

/// The list that a request is encoded to.
pub open spec fn wire_layout(
    pubkey: [u8; 32],
    nonce: u128,
    user: Seq<[u8; 32]>,
    target: Seq<[u8; 32]>,
    threshold: Option<[u8; 32]>,
) -> Seq<WireArg> {
    seq![WireArg::X25519Pubkey(pubkey), WireArg::PlaintextU128(nonce)] + encrypted_blocks(user)
        + encrypted_blocks(target) + threshold_argument(threshold)
}

/// Whether the inputs of a request have the widths that the deployed circuit
/// takes: both fingerprints of the configured width, a width that a list can
/// carry, and a threshold exactly where the circuit takes one.
pub open spec fn well_formed(
    config: CircuitConfig,
    user: Seq<[u8; 32]>,
    target: Seq<[u8; 32]>,
    threshold: Option<[u8; 32]>,
) -> bool {
    &&& config.width <= MAX_WIDTH
    &&& user.len() == config.width
    &&& target.len() == config.width
    &&& threshold.is_some() == config.dynamic_threshold
}

/// Where each input stands in the encoded list: the key first, the nonce
/// second, then the requester's blocks, then the target's blocks, and the
/// threshold last. Nothing is reordered, skipped or padded.
pub proof fn lemma_wire_layout_positions(
    pubkey: [u8; 32],
    nonce: u128,
    user: Seq<[u8; 32]>,
    target: Seq<[u8; 32]>,
    threshold: Option<[u8; 32]>,
)
    ensures
        wire_layout(pubkey, nonce, user, target, threshold).len() == 2 + user.len() + target.len()
            + if threshold.is_some() { 1nat } else { 0nat },
        wire_layout(pubkey, nonce, user, target, threshold)[0] == WireArg::X25519Pubkey(pubkey),
        wire_layout(pubkey, nonce, user, target, threshold)[1] == WireArg::PlaintextU128(nonce),
        forall|i: int|
            0 <= i < user.len() ==> #[trigger] wire_layout(pubkey, nonce, user, target, threshold)[2
                + i] == WireArg::EncryptedU64(user[i]),
        forall|i: int|
            0 <= i < target.len() ==> #[trigger] wire_layout(
                pubkey,
                nonce,
                user,
                target,
                threshold,
            )[2 + user.len() as int + i] == WireArg::EncryptedU64(target[i]),
        threshold matches Some(block) ==> wire_layout(pubkey, nonce, user, target, threshold)[2
            + user.len() as int + target.len() as int] == WireArg::EncryptedU64(block),
{
}

/// An encoded list gives its inputs back: two requests of one width that are
/// encoded to the same list have the same key, nonce, fingerprints and
/// threshold.
pub proof fn lemma_wire_layout_injective(
    pubkey: [u8; 32],
    nonce: u128,
    user: Seq<[u8; 32]>,
    target: Seq<[u8; 32]>,
    threshold: Option<[u8; 32]>,
    other_pubkey: [u8; 32],
    other_nonce: u128,
    other_user: Seq<[u8; 32]>,
    other_target: Seq<[u8; 32]>,
    other_threshold: Option<[u8; 32]>,
)
    requires
        user.len() == target.len(),
        other_user.len() == other_target.len(),
        user.len() == other_user.len(),
        wire_layout(pubkey, nonce, user, target, threshold) == wire_layout(
            other_pubkey,
            other_nonce,
            other_user,
            other_target,
            other_threshold,
        ),
    ensures
        pubkey == other_pubkey,
        nonce == other_nonce,
        user == other_user,
        target == other_target,
        threshold == other_threshold,
{
    let list = wire_layout(pubkey, nonce, user, target, threshold);
    lemma_wire_layout_positions(pubkey, nonce, user, target, threshold);
    lemma_wire_layout_positions(other_pubkey, other_nonce, other_user, other_target, other_threshold);
    assert(list[0] == WireArg::X25519Pubkey(pubkey));
    assert(list[1] == WireArg::PlaintextU128(nonce));
    assert forall|i: int| 0 <= i < user.len() implies user[i] == other_user[i] by {
        assert(list[2 + i] == WireArg::EncryptedU64(user[i]));
        assert(list[2 + i] == WireArg::EncryptedU64(other_user[i]));
    }
    assert(user =~= other_user);
    assert forall|i: int| 0 <= i < target.len() implies target[i] == other_target[i] by {
        assert(list[2 + user.len() as int + i] == WireArg::EncryptedU64(target[i]));
        assert(list[2 + user.len() as int + i] == WireArg::EncryptedU64(other_target[i]));
    }
    assert(target =~= other_target);
    match (threshold, other_threshold) {
        (Some(block), Some(other_block)) => {
            assert(list[2 + user.len() as int + target.len() as int] == WireArg::EncryptedU64(
                block,
            ));
            assert(list[2 + user.len() as int + target.len() as int] == WireArg::EncryptedU64(
                other_block,
            ));
        },
        _ => {},
    }
}

/// Appends the blocks of one fingerprint to a builder, first block first.
fn append_blocks(builder: ArgBuilder, blocks: &[[u8; 32]]) -> (out: ArgBuilder)
    requires
        builder_blocks(builder) + blocks@.len() <= 256,
    ensures
        builder_arguments(out) == builder_arguments(builder) + encrypted_blocks(blocks@),
        builder_blocks(out) == builder_blocks(builder) + blocks@.len(),
{
    let ghost before = builder_arguments(builder);
    let ghost stored = builder_blocks(builder);
    let mut out = builder;
    let mut i: usize = 0;
    while i < blocks.len()
        invariant
            i <= blocks@.len(),
            stored + blocks@.len() <= 256,
            builder_arguments(out) == before + encrypted_blocks(blocks@.take(i as int)),
            builder_blocks(out) == stored + i,
        decreases blocks@.len() - i,
    {
        out = builder_encrypted_u64(out, blocks[i]);
        i = i + 1;
        assert(before + encrypted_blocks(blocks@.take(i as int)) =~= (before + encrypted_blocks(
            blocks@.take(i - 1),
        )).push(WireArg::EncryptedU64(blocks@[i - 1])));
    }
    assert(blocks@.take(i as int) =~= blocks@);
    out
}

/// Encodes the inputs of one request as the argument list of the circuit.
///
/// Succeeds exactly on inputs of the deployed widths; the list then holds the
/// inputs in the fixed order. On any other input nothing is encoded.
pub fn encode_arguments(
    config: &CircuitConfig,
    pubkey: [u8; 32],
    nonce: u128,
    ciphertext_user: &[[u8; 32]],
    ciphertext_target: &[[u8; 32]],
    encrypted_threshold: Option<[u8; 32]>,
) -> (encoded: Result<ArgumentList, ErrorCode>)
    ensures
        encoded is Ok <==> well_formed(
            *config,
            ciphertext_user@,
            ciphertext_target@,
            encrypted_threshold,
        ),
        encoded matches Ok(list) ==> list_arguments(list) == wire_layout(
            pubkey,
            nonce,
            ciphertext_user@,
            ciphertext_target@,
            encrypted_threshold,
        ),
        encoded matches Err(e) ==> e == ErrorCode::MalformedArgument,
{
    if config.width > MAX_WIDTH || ciphertext_user.len() != config.width || ciphertext_target.len()
        != config.width || encrypted_threshold.is_some() != config.dynamic_threshold {
        return Err(ErrorCode::MalformedArgument);
    }
    let mut builder = builder_new();
    builder = builder_x25519_pubkey(builder, pubkey);
    builder = builder_plaintext_u128(builder, nonce);
    builder = append_blocks(builder, ciphertext_user);
    builder = append_blocks(builder, ciphertext_target);
    match encrypted_threshold {
        Some(block) => {
            builder = builder_encrypted_u64(builder, block);
        },
        None => {},
    }
    let list = builder_build(builder);
    assert(list_arguments(list) =~= wire_layout(
        pubkey,
        nonce,
        ciphertext_user@,
        ciphertext_target@,
        encrypted_threshold,
    ));
    Ok(list)
}

} // verus!
