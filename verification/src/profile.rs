//! Profiles: the encrypted fingerprint that a party has registered, to stand
//! as the target of later requests.

use vstd::prelude::*;

verus! {

/// A registered party and its encrypted fingerprint.
#[derive(Clone, Debug, PartialEq, Eq)]
pub struct UserProfile {
    /// The identity that registered the profile. Only it may replace the
    /// fingerprint.
    pub owner: [u8; 32],
    /// The encrypted fingerprint, one block per feature value.
    pub encrypted_dna_shards: Vec<[u8; 32]>,
    /// The bump of the address under which the profile is stored.
    pub bump: u8,
}

/// Whether two identities are the same.
pub fn same_identity(a: &[u8; 32], b: &[u8; 32]) -> (same: bool)
    ensures
        same <==> *a == *b,
{
    let mut i: usize = 0;
    while i < 32
        invariant
            i <= 32,
            forall|j: int| 0 <= j < i ==> a[j] == b[j],
        decreases 32 - i,
    {
        if a[i] != b[i] {
            return false;
        }
        i = i + 1;
    }
    assert(*a =~= *b);
    true
}

/// Registers the profile of `owner` with its encrypted fingerprint.
pub fn register_profile(owner: [u8; 32], encrypted_dna_shards: Vec<[u8; 32]>, bump: u8) -> (profile:
    UserProfile)
    ensures
        profile.owner == owner,
        profile.encrypted_dna_shards@ == encrypted_dna_shards@,
        profile.bump == bump,
{
    UserProfile { owner, encrypted_dna_shards, bump }
}

impl UserProfile {
    /// Replaces the fingerprint on behalf of `caller`. Only the owner may:
    /// for any other caller the profile is left as it was. Returns whether
    /// the fingerprint was replaced.
    pub fn repopulate(&mut self, caller: &[u8; 32], encrypted_dna_shards: Vec<[u8; 32]>) -> (replaced:
        bool)
        ensures
            replaced <==> *caller == old(self).owner,
            final(self).owner == old(self).owner,
            final(self).bump == old(self).bump,
            final(self).encrypted_dna_shards@ == if replaced {
                encrypted_dna_shards@
            } else {
                old(self).encrypted_dna_shards@
            },
    {
        if same_identity(caller, &self.owner) {
            self.encrypted_dna_shards = encrypted_dna_shards;
            true
        } else {
            false
        }
    }
}

} // verus!
