//! Confidential comparison of genomic fingerprints: the comparison circuit,
//! the encoding of its encrypted arguments, and the coordination of requests
//! from submission to the publication of their encrypted results.

pub mod arguments;
pub mod circuit;
pub mod config;
pub mod coordinator;
pub mod error;
pub mod profile;
pub mod publisher;
pub mod request;

pub use crate::arguments::{encode_arguments, WireArg, MAX_WIDTH};
pub use crate::circuit::{compute_dna_similarity, GenomeData, MatchParams, MatchResult};
pub use crate::config::CircuitConfig;
pub use crate::coordinator::{PendingRequest, RequestCoordinator, RequestRecord, RequestState};
pub use crate::error::ErrorCode;
pub use crate::profile::{register_profile, UserProfile};
pub use crate::publisher::{
    compute_dna_similarity_callback, Attestation, ComputationOutput, DnaMatchEvent,
};
pub use crate::request::{request_match, ComputationRequest};
