//! The one-shot hash: construct a fresh sponge with capacity one, absorb the
//! whole input in a single call, squeeze exactly one element, discard the
//! sponge. Stateless across calls.

use vstd::prelude::*;
use std::sync::Arc;
use crate::field::{Fe, all_in_field, fes, in_field};
use crate::params::{ParameterError, Parameters, ParamsView, default_params_of, supported_rate};
use crate::sponge::{PoseidonSponge, SpongeV, absorb_spec, squeeze_spec};

verus! {

/// The all-zero absorbing sponge a hash starts from.
pub open spec fn init_sponge(p: ParamsView) -> SpongeV {
    SpongeV { state: Seq::new(p.width() as nat, |j: int| 0int), absorbing: true, offset: 0 }
}

/// What the one-shot hash returns: a fresh sponge absorbs the input and is
/// squeezed for one element.
pub open spec fn evaluate_spec(p: ParamsView, input: Seq<int>) -> int {
    squeeze_spec(p, absorb_spec(p, init_sponge(p), input), 1).0[0]
}

/// A one-shot cryptographic hash over the duplex sponge.
pub struct PoseidonCryptoHash {
    /// The shared, immutable parameter table; its capacity is one.
    pub parameters: Arc<Parameters>,
}

impl PoseidonCryptoHash {
    /// The parameter table is consistent and its capacity is one element, as
    /// the one-shot hash requires.
    pub open spec fn wf(self) -> bool {
        self.parameters@.wf() && self.parameters@.capacity == 1
    }

    /// Initializes the hash on the canonical parameter table for the given
    /// rate; fails with a configuration error exactly when no such table
    /// exists.
    pub fn setup(rate: usize) -> (r: Result<Self, ParameterError>)
        ensures
            r is Ok <==> supported_rate(rate as int),
            r matches Ok(h) ==> h.wf() && h.parameters@ == default_params_of(rate as int)
                && h.parameters@.rate == rate as int,
            r matches Err(e) ==> e == ParameterError::UnsupportedRate,
    {
        match Parameters::default_for_rate(rate) {
            Ok(p) => Ok(Self { parameters: Arc::new(p) }),
            Err(e) => Err(e),
        }
    }

    /// Hashes the input. The result is a function of the parameter table and
    /// the input alone: repeated calls return the same element.
    pub fn evaluate(&self, input: &Vec<Fe>) -> (r: Fe)
        requires
            self.wf(),
            all_in_field(fes(input@)),
        ensures
            r@ == evaluate_spec(self.parameters@, fes(input@)),
            in_field(r@),
    {
        let mut sponge = PoseidonSponge::with_parameters(&self.parameters);
        proof {
            assert(sponge@ =~= init_sponge(self.parameters@));
        }
        sponge.absorb(input);
        let out = sponge.squeeze_field_elements(1);
        let r = out[0];
        proof {
            assert(r@ == fes(out@)[0]);
        }
        r
    }

    /// The parameter table of this hash.
    pub fn parameters(&self) -> (r: &Arc<Parameters>)
        ensures
            r == &self.parameters,
    {
        &self.parameters
    }
}

} // verus!
