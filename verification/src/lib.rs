//! Structured reference strings for a KZG-style univariate polynomial
//! commitment scheme over BLS12-381: trusted setup and trimming.

mod bytes;
pub mod codec;
pub mod entropy;
pub mod error;
pub mod fixed_base;
pub mod group;
pub mod laws;
pub mod scalar;
pub mod srs;

pub use crate::error::SrsError;
pub use crate::group::{G1Point, G2Point};
pub use crate::scalar::Scalar;
pub use crate::srs::{MercuryProverParam, MercuryUniversalParams, MercuryVerifierParam};
