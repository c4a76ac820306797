//! Identity-based signatures over a pairing: a trusted authority holds a
//! master secret and derives each user's signing key from the user's
//! identity; anyone verifies a signature against the identity and the
//! authority's public key.
//!
//! Four schemes are offered, each with the phases setup, extract, sign and
//! verify. They share the hashes into the scalars and the groups, and the
//! algebra of the pairing groups, which is stated over exponents.

pub mod arith;
pub mod blm05;
pub mod bytes;
pub mod cui07;
pub mod g1;
pub mod g2;
pub mod gt;
pub mod hess03;
pub mod pat02;
pub mod scalar;

pub use crate::g1::hash_to_g1;
pub use crate::g2::hash_to_g2;
pub use crate::scalar::hash_to_scalar;
