//! What is fixed when a circuit is deployed: which circuit it is and what
//! inputs it takes.

use vstd::prelude::*;

verus! {

/// The configuration of a deployed comparison circuit.
#[derive(Clone, Copy, Debug, PartialEq, Eq, Structural)]
pub struct CircuitConfig {
    /// The identifier under which the executor knows the circuit.
    pub circuit: u32,
    /// Number of feature values in a fingerprint.
    pub width: usize,
    /// Whether the circuit takes the threshold as an encrypted argument. A
    /// circuit that does not has its threshold built in.
    pub dynamic_threshold: bool,
}

/// The identifier that the executor derives from a circuit's name.
pub uninterp spec fn circuit_offset(name: Seq<char>) -> u32;

/// `arcium_anchor::comp_def_offset`: the identifier of the circuit with the
/// given name, which that crate takes from the SHA-256 digest of the name.
/// The contract claims only that the identifier is a function of the name.
#[verifier::external_body]
fn comp_def_offset(name: &str) -> (offset: u32)
    ensures
        offset == circuit_offset(name@),
{
    arcium_anchor::comp_def_offset(name)
}

impl CircuitConfig {
    /// The configuration of the circuit deployed under `name`, for
    /// fingerprints of `width` values.
    pub fn for_circuit(name: &str, width: usize, dynamic_threshold: bool) -> (config: CircuitConfig)
        ensures
            config.circuit == circuit_offset(name@),
            config.width == width,
            config.dynamic_threshold == dynamic_threshold,
    {
        CircuitConfig { circuit: comp_def_offset(name), width, dynamic_threshold }
    }
}

} // verus!
