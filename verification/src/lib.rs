//! An algebraic duplex sponge over a prime field, built on the Poseidon
//! permutation: a round function of round-key addition, a power S-box and a
//! linear mixing layer, driven by an absorb/squeeze state machine.
//!
//! The field arithmetic itself comes from the `snarkvm` crates; everything
//! layered on top of it — the round schedule, the state indexing and the
//! duplex mode transitions — is specified and verified here.

pub mod field;
pub mod params;
pub mod state;
pub mod sponge;
pub mod hash;
pub mod laws;
pub mod mode;
pub mod integer;
pub mod typed;
