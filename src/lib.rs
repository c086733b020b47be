//! Verification of signed cross-chain proofs and dispatch of the actions they authorize.
pub mod contract;
pub mod payload;
pub mod signature;

pub use contract::TonVerifierContract;
pub use payload::{dispatch, DecodeError, Effect, ProofError, TonPayload};
pub use signature::verify_signature;
