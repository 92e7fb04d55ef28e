//! The comparison circuit: how many positions of two fingerprints agree, and
//! whether that count reaches a threshold.
//!
//! The executable code never branches on a fingerprint value, a score or a
//! threshold. Equality and ordering are computed as bits by arithmetic, and
//! the running score absorbs those bits by addition, so the sequence of
//! operations depends on the width of the fingerprints alone.

use vstd::prelude::*;

verus! {

/// A fingerprint of `K` feature values. The values are opaque: the circuit
/// only ever asks whether two of them are the same.
#[derive(Clone, Copy, Debug, PartialEq, Eq)]
pub struct GenomeData<const K: usize> {
    pub sequences: [u64; K],
}

/// The number of agreeing positions from which two fingerprints count as
/// related.
#[derive(Clone, Copy, Debug, PartialEq, Eq, Structural)]
pub struct MatchParams {
    pub threshold: u64,
}

/// What a comparison yields.
#[derive(Clone, Copy, Debug, PartialEq, Eq, Structural)]
pub struct MatchResult {
    /// Number of positions at which the two fingerprints agree.
    pub matching_segments: u64,
    /// Whether that number reaches the threshold.
    pub is_relative: bool,
}

impl<const K: usize> View for GenomeData<K> {
    type V = Seq<u64>;

    open spec fn view(&self) -> Seq<u64> {
        self.sequences@
    }
}

/// The positions at which `user` and `target` hold the same value.
pub open spec fn matching_positions(user: Seq<u64>, target: Seq<u64>) -> Set<int> {
    Set::new(|i: int| 0 <= i < user.len() && i < target.len() && user[i] == target[i])
}

/// The score of a comparison: how many positions agree.
pub open spec fn matching_segments(user: Seq<u64>, target: Seq<u64>) -> nat {
    matching_positions(user, target).len()
}

/// The verdict of a comparison: the score reaches the threshold.
pub open spec fn is_relative(user: Seq<u64>, target: Seq<u64>, threshold: u64) -> bool {
    matching_segments(user, target) >= threshold
}

/// The result that the circuit owes for two fingerprints and a threshold.
pub open spec fn similarity(user: Seq<u64>, target: Seq<u64>, threshold: u64) -> MatchResult {
    MatchResult {
        matching_segments: matching_segments(user, target) as u64,
        is_relative: is_relative(user, target, threshold),
    }
}

/// How many of the first `n` positions agree.
pub open spec fn matches_below(user: Seq<u64>, target: Seq<u64>, n: int) -> nat
    decreases n,
{
    if n <= 0 {
        0
    } else {
        matches_below(user, target, n - 1) + if user[n - 1] == target[n - 1] {
            1nat
        } else {
            0nat
        }
    }
}

/// The agreeing positions among the first `n`.
pub open spec fn positions_below(user: Seq<u64>, target: Seq<u64>, n: int) -> Set<int> {
    Set::new(|i: int| 0 <= i < n && user[i] == target[i])
}

/// Counting position by position gives the size of the set of agreeing
/// positions, and that set is finite.
pub proof fn lemma_matches_below_counts(user: Seq<u64>, target: Seq<u64>, n: int)
    requires
        0 <= n,
    ensures
        positions_below(user, target, n).finite(),
        positions_below(user, target, n).len() == matches_below(user, target, n),
        matches_below(user, target, n) <= n,
    decreases n,
{
    if n == 0 {
        assert(positions_below(user, target, 0) =~= Set::<int>::empty());
    } else {
        lemma_matches_below_counts(user, target, n - 1);
        let before = positions_below(user, target, n - 1);
        let now = positions_below(user, target, n);
        if user[n - 1] == target[n - 1] {
            assert(now =~= before.insert(n - 1));
        } else {
            assert(now =~= before);
        }
    }
}

/// A score is never negative and never exceeds the width of the fingerprints.
pub proof fn lemma_score_within_width(user: Seq<u64>, target: Seq<u64>)
    requires
        user.len() == target.len(),
    ensures
        matching_positions(user, target).finite(),
        0 <= matching_segments(user, target) <= user.len(),
        matching_segments(user, target) == matches_below(user, target, user.len() as int),
{
    lemma_matches_below_counts(user, target, user.len() as int);
    assert(matching_positions(user, target) =~= positions_below(
        user,
        target,
        user.len() as int,
    ));
}

/// What a comparison owes: the score is the number of agreeing positions, it
/// lies between zero and the width of the fingerprints, and the verdict holds
/// exactly when the score reaches the threshold.
pub proof fn lemma_similarity_sound(user: Seq<u64>, target: Seq<u64>, threshold: u64)
    requires
        user.len() == target.len(),
        user.len() <= usize::MAX,
    ensures
        similarity(user, target, threshold).matching_segments == matching_positions(
            user,
            target,
        ).len(),
        0 <= similarity(user, target, threshold).matching_segments <= user.len(),
        similarity(user, target, threshold).is_relative <==> similarity(
            user,
            target,
            threshold,
        ).matching_segments >= threshold,
{
    lemma_score_within_width(user, target);
}

/// A comparison depends on the two fingerprints and the threshold alone:
/// evaluated twice on the same inputs it gives the same score and the same
/// verdict.
pub proof fn lemma_similarity_deterministic(
    user: Seq<u64>,
    target: Seq<u64>,
    threshold: u64,
    user_again: Seq<u64>,
    target_again: Seq<u64>,
    threshold_again: u64,
)
    requires
        user == user_again,
        target == target_again,
        threshold == threshold_again,
    ensures
        similarity(user, target, threshold) == similarity(
            user_again,
            target_again,
            threshold_again,
        ),
{
}

/// The verdict turns exactly at the threshold: a score equal to it is
/// related, a score one below it is not.
pub proof fn lemma_threshold_boundary(user: Seq<u64>, target: Seq<u64>, threshold: u64)
    requires
        user.len() == target.len(),
        user.len() <= usize::MAX,
    ensures
        similarity(user, target, threshold).matching_segments == threshold ==> similarity(
            user,
            target,
            threshold,
        ).is_relative,
        threshold >= 1 && similarity(user, target, threshold).matching_segments == threshold - 1
            ==> !similarity(user, target, threshold).is_relative,
{
    lemma_score_within_width(user, target);
}

/// The ends of the range: a threshold of zero is always reached, a threshold
/// above the width never, and fingerprints that agree nowhere score zero.
pub proof fn lemma_threshold_extremes(user: Seq<u64>, target: Seq<u64>, threshold: u64)
    requires
        user.len() == target.len(),
    ensures
        threshold == 0 ==> is_relative(user, target, threshold),
        threshold > user.len() ==> !is_relative(user, target, threshold),
        (forall|i: int| 0 <= i < user.len() ==> user[i] != target[i]) ==> matching_segments(
            user,
            target,
        ) == 0,
{
    lemma_score_within_width(user, target);
    if forall|i: int| 0 <= i < user.len() ==> user[i] != target[i] {
        assert(matching_positions(user, target) =~= Set::<int>::empty());
    }
}

/// One if `a` and `b` are the same value, zero if not, computed without a
/// branch on either.
pub fn equal_bit(a: u64, b: u64) -> (bit: u64)
    ensures
        bit == if a == b { 1u64 } else { 0u64 },
{
    let difference: u64 = a ^ b;
    let folded: u64 = (difference >> 1) | (difference & 1);
    assert(folded <= 0x7fff_ffff_ffff_ffff && (folded == 0 <==> a == b)) by (bit_vector)
        requires
            folded == ((a ^ b) >> 1) | ((a ^ b) & 1),
    ;
    let carried: u64 = (folded + 0x7fff_ffff_ffff_ffff) >> 63;
    assert(carried == if folded == 0 { 0u64 } else { 1u64 }) by (bit_vector)
        requires
            folded <= 0x7fff_ffff_ffff_ffff,
            carried == (folded + 0x7fff_ffff_ffff_ffff) as u64 >> 63,
    ;
    1 - carried
}

/// One if `a` is at least `b`, zero if not, computed without a branch on
/// either.
pub fn at_least_bit(a: u64, b: u64) -> (bit: u64)
    ensures
        bit == if a >= b { 1u64 } else { 0u64 },
{
    let lifted: u128 = (a as u128) + 0x1_0000_0000_0000_0000u128 - (b as u128);
    let carried: u128 = lifted >> 64;
    assert(carried == if a >= b { 1u128 } else { 0u128 }) by (bit_vector)
        requires
            lifted == (a as u128) + 0x1_0000_0000_0000_0000u128 - (b as u128),
            carried == lifted >> 64,
    ;
    carried as u64
}

/// Compares two fingerprints of the same width: the score is the number of
/// positions at which they agree, and the verdict says whether the score
/// reaches `params.threshold`.
///
/// A threshold above the width is not an error: the verdict is then `false`.
pub fn compute_dna_similarity<const K: usize>(
    user_dna: &GenomeData<K>,
    target_dna: &GenomeData<K>,
    params: &MatchParams,
) -> (result: MatchResult)
    ensures
        result == similarity(user_dna@, target_dna@, params.threshold),
        result.matching_segments == matching_segments(user_dna@, target_dna@),
        result.matching_segments <= K,
        result.is_relative <==> result.matching_segments >= params.threshold,
{
    let mut score: u64 = 0;
    let mut i: usize = 0;
    while i < K
        invariant
            i <= K,
            score == matches_below(user_dna@, target_dna@, i as int),
            score <= i,
        decreases K - i,
    {
        let bit: u64 = equal_bit(user_dna.sequences[i], target_dna.sequences[i]);
        score = score + bit;
        i = i + 1;
    }
    proof {
        lemma_score_within_width(user_dna@, target_dna@);
    }
    let verdict: u64 = at_least_bit(score, params.threshold);
    MatchResult { matching_segments: score, is_relative: verdict == 1 }
}

} // verus!
