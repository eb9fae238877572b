//! The visibility of a circuit value: fixed in the circuit itself, publicly
//! known, or private to the prover.

use vstd::prelude::*;

verus! {

/// The mode of a circuit value.
#[derive(Clone, Copy, Debug, PartialEq, Eq, Hash, Structural)]
pub enum Mode {
    /// Baked into the circuit; costs constants only.
    Constant,
    /// Part of the public input.
    Public,
    /// Part of the private witness.
    Private,
}

} // verus!
