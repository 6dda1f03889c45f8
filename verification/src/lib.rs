//! Public-key encryption with keyword search over the BLS12-381 pairing.
//!
//! A sender tags a keyword under the public key of a recipient. The
//! recipient issues a trapdoor for a keyword, and whoever holds the trapdoor
//! can test tags for that keyword without learning it.
//!
//! - [`scheme`] holds the keys, the ciphertexts, the trapdoors and the five
//!   operations on them.
//! - [`c_api`] offers the same operations on opaque handles that own the
//!   text of an entity, for callers on the other side of a language
//!   boundary.
//! - [`codec`] and [`hex`] write and read that text.
//! - [`entropy`] and [`scalar`] turn random bytes into scalars.
//! - [`field`], [`group`] and [`digest`] state what the arithmetic of the
//!   `paired` crate and the SHA-256 of the `sha2` crate compute.
//! - [`laws`] states what holds of the operations taken together.
//!
//! No function of this library panics, and none needs its caller to have
//! checked anything: what cannot be used is answered with a [`error::PeksError`].

pub mod c_api;
pub mod codec;
pub mod constant_time;
pub mod digest;
pub mod entropy;
pub mod error;
pub mod field;
pub mod group;
pub mod hex;
pub mod laws;
pub mod scalar;
pub mod scheme;
