//! The duplex sponge: a state, a mode, and a shared parameter table. The
//! permutation applies `full_rounds + partial_rounds` rounds of round-key
//! addition, S-box and linear mixing; absorb adds input into the rate region
//! and squeeze copies output out of it, each running the permutation exactly
//! at region boundaries and on every change of direction.
//!
//! The whole machine is mirrored by spec functions over sequences of field
//! values; every method's contract ties it to that mirror.

use vstd::prelude::*;
use std::sync::Arc;
use crate::field::{Fe, add_f, all_in_field, fe_add, fe_mul, fe_pow, fes, in_field, lemma_ops_in_field, mul_f, pow_f};
use crate::params::{Parameters, ParamsView};
use crate::state::State;

verus! {

// ---------------------------------------------------------------------------
// The mathematical mirror of the machine.
// ---------------------------------------------------------------------------

/// One round-key addition: round `r`'s constants added element-wise.
pub open spec fn ark_step(p: ParamsView, s: Seq<int>, r: int) -> Seq<int> {
    Seq::new(s.len(), |j: int| add_f(s[j], p.ark[r][j]))
}

/// The nonlinear layer: every element is raised to `alpha` in a full round,
/// element 0 alone in a partial round.
pub open spec fn sbox_step(p: ParamsView, s: Seq<int>, full: bool) -> Seq<int> {
    if full {
        Seq::new(s.len(), |j: int| pow_f(s[j], p.alpha))
    } else {
        s.update(0, pow_f(s[0], p.alpha))
    }
}

/// The first `k` terms of row `row` dotted with state `s`, summed left to
/// right in the field.
pub open spec fn dot_prefix(row: Seq<int>, s: Seq<int>, k: nat) -> int
    decreases k,
{
    if k == 0 {
        0int
    } else {
        add_f(dot_prefix(row, s, (k - 1) as nat), mul_f(row[k - 1], s[k - 1]))
    }
}

/// The linear layer: the mixing matrix applied to the state.
pub open spec fn mds_step(p: ParamsView, s: Seq<int>) -> Seq<int> {
    Seq::new(s.len(), |j: int| dot_prefix(p.mds[j], s, s.len()))
}

/// Round `i` is full exactly when it lies outside the contiguous middle
/// block of `partial_rounds` rounds that starts at `full_rounds / 2`.
pub open spec fn is_full_round(p: ParamsView, i: int) -> bool {
    !(p.full_rounds / 2 <= i < p.full_rounds / 2 + p.partial_rounds)
}

/// One whole round: round key, S-box, mixing.
pub open spec fn round_step(p: ParamsView, s: Seq<int>, i: int) -> Seq<int> {
    mds_step(p, sbox_step(p, ark_step(p, s, i), is_full_round(p, i)))
}

/// The first `n` rounds applied in order.
pub open spec fn rounds_prefix(p: ParamsView, s: Seq<int>, n: nat) -> Seq<int>
    decreases n,
{
    if n == 0 {
        s
    } else {
        round_step(p, rounds_prefix(p, s, (n - 1) as nat), n - 1)
    }
}

/// One full permutation: all rounds applied in order.
pub open spec fn permute_spec(p: ParamsView, s: Seq<int>) -> Seq<int> {
    rounds_prefix(p, s, p.rounds() as nat)
}

/// The mathematical content of a sponge: its state values, its direction,
/// and the offset of the next rate slot to use.
#[verifier::ext_equal]
pub struct SpongeV {
    pub state: Seq<int>,
    pub absorbing: bool,
    pub offset: int,
}

/// Absorbs `input` one element at a time from rate offset `off`, permuting
/// exactly when a slot is asked for while the rate region is full. The final
/// offset may equal the rate; no trailing permutation happens.
pub open spec fn absorb_all(p: ParamsView, s: Seq<int>, off: int, input: Seq<int>) -> (Seq<int>, int)
    decreases input.len(),
{
    if input.len() == 0 {
        (s, off)
    } else {
        let s0 = if off == p.rate { permute_spec(p, s) } else { s };
        let off0 = if off == p.rate { 0int } else { off };
        let idx = p.capacity + off0;
        absorb_all(p, s0.update(idx, add_f(s0[idx], input[0])), off0 + 1, input.drop_first())
    }
}

/// Squeezes `n` elements one at a time from rate offset `off`, permuting
/// exactly when a slot is asked for while the rate region is exhausted.
/// Returns the output, the final state and the final offset.
pub open spec fn squeeze_all(p: ParamsView, s: Seq<int>, off: int, n: nat) -> (Seq<int>, Seq<int>, int)
    decreases n,
{
    if n == 0 {
        (Seq::<int>::empty(), s, off)
    } else {
        let s0 = if off == p.rate { permute_spec(p, s) } else { s };
        let off0 = if off == p.rate { 0int } else { off };
        let rest = squeeze_all(p, s0, off0 + 1, (n - 1) as nat);
        (seq![s0[p.capacity + off0]] + rest.0, rest.1, rest.2)
    }
}

/// What absorbing a sequence does to a sponge: an empty input changes
/// nothing; otherwise a squeezing sponge permutes once and restarts at
/// offset 0, and the input is absorbed element-wise.
pub open spec fn absorb_spec(p: ParamsView, v: SpongeV, input: Seq<int>) -> SpongeV {
    if input.len() == 0 {
        v
    } else {
        let s0 = if v.absorbing { v.state } else { permute_spec(p, v.state) };
        let off0 = if v.absorbing { v.offset } else { 0int };
        let r = absorb_all(p, s0, off0, input);
        SpongeV { state: r.0, absorbing: true, offset: r.1 }
    }
}

/// What squeezing `n` elements does to a sponge and what it returns: a zero
/// request changes nothing; otherwise an absorbing sponge permutes once and
/// restarts at offset 0, and the output is drawn element-wise.
pub open spec fn squeeze_spec(p: ParamsView, v: SpongeV, n: nat) -> (Seq<int>, SpongeV) {
    if n == 0 {
        (Seq::<int>::empty(), v)
    } else {
        let s0 = if v.absorbing { permute_spec(p, v.state) } else { v.state };
        let off0 = if v.absorbing { 0int } else { v.offset };
        let r = squeeze_all(p, s0, off0, n);
        (r.0, SpongeV { state: r.1, absorbing: false, offset: r.2 })
    }
}

// ---------------------------------------------------------------------------
// The machine itself.
// ---------------------------------------------------------------------------

/// Whether the sponge is taking input or giving output, and where in the
/// rate region the next element goes to or comes from.
#[derive(Clone, Copy, Debug, PartialEq, Eq, Structural)]
pub enum DuplexSpongeMode {
    /// The next absorbed element is added at this rate offset.
    Absorbing { next_absorb_index: usize },
    /// The next squeezed element is copied from this rate offset.
    Squeezing { next_squeeze_index: usize },
}

/// A duplex sponge over the Poseidon permutation.
pub struct PoseidonSponge {
    /// The shared, immutable parameter table.
    pub parameters: Arc<Parameters>,
    /// The current state.
    pub state: State,
    /// The current direction and rate offset.
    pub mode: DuplexSpongeMode,
}

impl View for PoseidonSponge {
    type V = SpongeV;

    open spec fn view(&self) -> SpongeV {
        SpongeV {
            state: self.state@,
            absorbing: self.mode is Absorbing,
            offset: match self.mode {
                DuplexSpongeMode::Absorbing { next_absorb_index } => next_absorb_index as int,
                DuplexSpongeMode::Squeezing { next_squeeze_index } => next_squeeze_index as int,
            },
        }
    }
}

impl PoseidonSponge {
    /// The parameter table is consistent, the state matches its dimensions,
    /// and the rate offset is in range.
    pub open spec fn wf(self) -> bool {
        &&& self.parameters@.wf()
        &&& self.state.wf(self.parameters@.capacity, self.parameters@.rate)
        &&& 0 <= self@.offset <= self.parameters@.rate
    }

    /// A fresh sponge: zero state, absorbing at offset 0.
    pub fn with_parameters(parameters: &Arc<Parameters>) -> (sponge: Self)
        requires
            parameters@.wf(),
        ensures
            sponge.wf(),
            sponge.parameters == *parameters,
            sponge@.state =~= Seq::new(parameters@.width() as nat, |j: int| 0int),
            sponge@.absorbing,
            sponge@.offset == 0,
    {
        let capacity = parameters.capacity;
        let rate = parameters.rate;
        Self {
            parameters: arc_clone(parameters),
            state: State::new(capacity, rate),
            mode: DuplexSpongeMode::Absorbing { next_absorb_index: 0 },
        }
    }

    /// A fresh sponge on the canonical parameter table for the given rate,
    /// or a configuration error exactly when no such table exists.
    pub fn with_default_parameters(rate: usize) -> (r: Result<Self, crate::params::ParameterError>)
        ensures
            r is Ok <==> crate::params::supported_rate(rate as int),
            r matches Ok(sponge) ==> {
                &&& sponge.wf()
                &&& sponge.parameters@ == crate::params::default_params_of(rate as int)
                &&& sponge@.state =~= Seq::new(sponge.parameters@.width() as nat, |j: int| 0int)
                &&& sponge@.absorbing
                &&& sponge@.offset == 0
            },
            r matches Err(e) ==> e == crate::params::ParameterError::UnsupportedRate,
    {
        let parameters = match Parameters::default_for_rate(rate) {
            Ok(p) => p,
            Err(e) => {
                return Err(e);
            },
        };
        Ok(Self::with_parameters(&Arc::new(parameters)))
    }

    /// The canonical shared parameter table for the given rate, with
    /// capacity one, or a configuration error exactly when no such table
    /// exists. The table is a fixed function of the rate: repeated calls
    /// return equal tables.
    pub fn sample_parameters(rate: usize) -> (r: Result<Arc<Parameters>, crate::params::ParameterError>)
        ensures
            r is Ok <==> crate::params::supported_rate(rate as int),
            r matches Ok(p) ==> p@ == crate::params::default_params_of(rate as int) && p@.wf()
                && p@.rate == rate as int && p@.capacity == 1,
            r matches Err(e) ==> e == crate::params::ParameterError::UnsupportedRate,
    {
        match Parameters::default_for_rate(rate) {
            Ok(p) => Ok(Arc::new(p)),
            Err(e) => Err(e),
        }
    }

    /// One application of the round-key layer of round `round_number`.
    #[verifier::loop_isolation(false)]
    fn apply_ark(&self, state: &mut State, round_number: usize)
        requires
            self.parameters@.wf(),
            old(state).wf(self.parameters@.capacity, self.parameters@.rate),
            round_number < self.parameters@.rounds(),
        ensures
            final(state).wf(self.parameters@.capacity, self.parameters@.rate),
            final(state)@ == ark_step(self.parameters@, old(state)@, round_number as int),
    {
        let width = self.parameters.capacity + self.parameters.rate;
        let mut j: usize = 0;
        while j < width
            invariant
                j <= width,
                state.capacity_state@.len() == self.parameters@.capacity,
                state.rate_state@.len() == self.parameters@.rate,
                all_in_field(state@),
                forall|k: int| 0 <= k < j ==> state@[k] == ark_step(self.parameters@, old(state)@, round_number as int)[k],
                forall|k: int| j <= k < width ==> state@[k] == old(state)@[k],
            decreases width - j,
        {
            let a = state.get(j);
            proof {
                assert(self.parameters.ark@.len() == self.parameters@.ark.len());
                assert(self.parameters@.ark[round_number as int] == fes(self.parameters.ark@[round_number as int]@));
                assert(self.parameters@.ark[round_number as int].len() == self.parameters@.width());
            }
            let c = self.parameters.ark[round_number][j];
            proof {
                assert(c@ == self.parameters@.ark[round_number as int][j as int]);
            }
            state.set(j, fe_add(&a, &c));
            j = j + 1;
        }
        proof {
            assert(state@ =~= ark_step(self.parameters@, old(state)@, round_number as int));
        }
    }

    /// One application of the nonlinear layer.
    #[verifier::loop_isolation(false)]
    fn apply_s_box(&self, state: &mut State, is_full_round: bool)
        requires
            self.parameters@.wf(),
            old(state).wf(self.parameters@.capacity, self.parameters@.rate),
        ensures
            final(state).wf(self.parameters@.capacity, self.parameters@.rate),
            final(state)@ == sbox_step(self.parameters@, old(state)@, is_full_round),
    {
        let alpha = self.parameters.alpha;
        if is_full_round {
            let width = self.parameters.capacity + self.parameters.rate;
            let mut j: usize = 0;
            while j < width
                invariant
                    j <= width,
                    state.capacity_state@.len() == self.parameters@.capacity,
                    state.rate_state@.len() == self.parameters@.rate,
                    all_in_field(state@),
                    forall|k: int| 0 <= k < j ==> state@[k] == pow_f(old(state)@[k], self.parameters@.alpha),
                    forall|k: int| j <= k < width ==> state@[k] == old(state)@[k],
                decreases width - j,
            {
                let a = state.get(j);
                proof {
                    lemma_ops_in_field(a@, a@, self.parameters@.alpha);
                }
                state.set(j, fe_pow(&a, alpha));
                j = j + 1;
            }
            proof {
                assert(state@ =~= sbox_step(self.parameters@, old(state)@, is_full_round));
            }
        } else {
            let a = state.get(0);
            proof {
                lemma_ops_in_field(a@, a@, self.parameters@.alpha);
            }
            state.set(0, fe_pow(&a, alpha));
            proof {
                assert(state@ =~= sbox_step(self.parameters@, old(state)@, is_full_round));
            }
        }
    }

    /// One application of the linear mixing layer.
    #[verifier::loop_isolation(false)]
    fn apply_mds(&self, state: &mut State)
        requires
            self.parameters@.wf(),
            old(state).wf(self.parameters@.capacity, self.parameters@.rate),
        ensures
            final(state).wf(self.parameters@.capacity, self.parameters@.rate),
            final(state)@ == mds_step(self.parameters@, old(state)@),
    {
        let width = self.parameters.capacity + self.parameters.rate;
        let mut new_state = State::new(self.parameters.capacity, self.parameters.rate);
        let mut j: usize = 0;
        while j < width
            invariant
                j <= width,
                new_state.capacity_state@.len() == self.parameters@.capacity,
                new_state.rate_state@.len() == self.parameters@.rate,
                all_in_field(new_state@),
                forall|k: int| 0 <= k < j ==> new_state@[k] == mds_step(self.parameters@, old(state)@)[k],
            decreases width - j,
        {
            let mut acc = Fe::zero();
            let mut k: usize = 0;
            while k < width
                invariant
                    k <= width,
                    in_field(acc@),
                    acc@ == dot_prefix(self.parameters@.mds[j as int], old(state)@, k as nat),
                decreases width - k,
            {
                let m = self.parameters.mds[j][k];
                let x = state.get(k);
                proof {
                    assert(m@ == self.parameters@.mds[j as int][k as int]);
                    lemma_ops_in_field(m@, x@, 0);
                    lemma_ops_in_field(acc@, mul_f(m@, x@), 0);
                }
                acc = fe_add(&acc, &fe_mul(&m, &x));
                k = k + 1;
            }
            new_state.set(j, acc);
            j = j + 1;
        }
        *state = new_state;
        proof {
            assert(state@ =~= mds_step(self.parameters@, old(state)@));
        }
    }

    /// One full permutation of the state: all rounds, in order. The mode and
    /// the parameters are untouched.
    #[verifier::loop_isolation(false)]
    pub fn permute(&mut self)
        requires
            old(self).wf(),
        ensures
            final(self).wf(),
            final(self)@.state == permute_spec(old(self).parameters@, old(self)@.state),
            final(self)@.absorbing == old(self)@.absorbing,
            final(self)@.offset == old(self)@.offset,
            final(self).mode == old(self).mode,
            final(self).parameters == old(self).parameters,
    {
        let full_rounds_over_2 = self.parameters.full_rounds / 2;
        let partial_end = full_rounds_over_2 + self.parameters.partial_rounds;
        let total = self.parameters.full_rounds + self.parameters.partial_rounds;
        let mut state = self.state.duplicate();
        let mut i: usize = 0;
        while i < total
            invariant
                i <= total,
                state.wf(self.parameters@.capacity, self.parameters@.rate),
                state@ == rounds_prefix(self.parameters@, old(self)@.state, i as nat),
            decreases total - i,
        {
            let is_full = !(i >= full_rounds_over_2 && i < partial_end);
            proof {
                assert(is_full == is_full_round(self.parameters@, i as int));
            }
            self.apply_ark(&mut state, i);
            self.apply_s_box(&mut state, is_full);
            self.apply_mds(&mut state);
            i = i + 1;
            proof {
                assert(state@ == rounds_prefix(self.parameters@, old(self)@.state, i as nat));
            }
        }
        self.state = state;
    }

    /// Absorbs `elements`, the first going to rate offset `rate_start`; the
    /// call never ends with a permutation.
    #[verifier::loop_isolation(false)]
    fn absorb_internal(&mut self, rate_start: usize, elements: &Vec<Fe>)
        requires
            old(self).wf(),
            rate_start < old(self).parameters@.rate,
            elements@.len() > 0,
            all_in_field(fes(elements@)),
        ensures
            final(self).wf(),
            final(self).parameters == old(self).parameters,
            final(self)@.absorbing,
            ({
                let r = absorb_all(old(self).parameters@, old(self)@.state, rate_start as int, fes(elements@));
                final(self)@.state == r.0 && final(self)@.offset == r.1
            }),
    {
        let ghost p = self.parameters@;
        let ghost gin = fes(elements@);
        let ghost target = absorb_all(p, self@.state, rate_start as int, gin);
        let mut offset = rate_start;
        let mut i: usize = 0;
        proof {
            assert(gin.skip(0) =~= gin);
        }
        while i < elements.len()
            invariant
                i <= elements@.len(),
                offset <= p.rate,
                self.parameters == old(self).parameters,
                self.state.wf(p.capacity, p.rate),
                self.mode == old(self).mode,
                absorb_all(p, self.state@, offset as int, gin.skip(i as int)) == target,
            decreases elements@.len() - i,
        {
            let ghost rest = gin.skip(i as int);
            proof {
                assert(rest.len() > 0);
            }
            if offset == self.parameters.rate {
                let ghost s_pre = self.state@;
                self.permute();
                offset = 0;
                proof {
                    assert(absorb_all(p, self.state@, 0int, rest) == absorb_all(p, s_pre, p.rate, rest));
                }
            }
            let idx = self.parameters.capacity + offset;
            let e = elements[i];
            let cur = self.state.get(idx);
            proof {
                assert(e@ == gin[i as int]);
                assert(in_field(e@));
                lemma_ops_in_field(cur@, e@, 0);
            }
            self.state.set(idx, fe_add(&cur, &e));
            proof {
                assert(rest.drop_first() =~= gin.skip(i as int + 1));
                assert(rest[0] == e@);
                assert(absorb_all(p, self.state@, offset as int + 1, gin.skip(i as int + 1)) == target);
            }
            offset = offset + 1;
            i = i + 1;
        }
        self.mode = DuplexSpongeMode::Absorbing { next_absorb_index: offset };
        proof {
            assert(gin.skip(gin.len() as int) =~= Seq::<int>::empty());
        }
    }

    /// Absorbs a sequence of field elements. An empty input changes nothing;
    /// a sponge that was squeezing permutes once and restarts absorption at
    /// offset 0; a full rate region is permuted before any input is taken.
    pub fn absorb(&mut self, input: &Vec<Fe>)
        requires
            old(self).wf(),
            all_in_field(fes(input@)),
        ensures
            final(self).wf(),
            final(self).parameters == old(self).parameters,
            final(self)@ == absorb_spec(old(self).parameters@, old(self)@, fes(input@)),
    {
        let ghost p = self.parameters@;
        let ghost gin = fes(input@);
        if input.len() != 0 {
            match self.mode {
                DuplexSpongeMode::Absorbing { next_absorb_index } => {
                    let mut start = next_absorb_index;
                    if start == self.parameters.rate {
                        self.permute();
                        start = 0;
                        proof {
                            assert(absorb_all(p, old(self)@.state, p.rate, gin)
                                == absorb_all(p, self.state@, 0int, gin));
                        }
                    }
                    self.absorb_internal(start, input);
                },
                DuplexSpongeMode::Squeezing { next_squeeze_index: _ } => {
                    self.permute();
                    self.absorb_internal(0, input);
                },
            }
            proof {
                assert(final(self)@ =~= absorb_spec(p, old(self)@, gin));
            }
        } else {
            proof {
                assert(fes(input@).len() == 0);
            }
        }
    }

    /// Squeezes `num_elements` elements, the first from rate offset
    /// `rate_start`; the call never ends with a permutation.
    #[verifier::loop_isolation(false)]
    fn squeeze_internal(&mut self, rate_start: usize, num_elements: usize) -> (out: Vec<Fe>)
        requires
            old(self).wf(),
            rate_start < old(self).parameters@.rate,
            num_elements > 0,
        ensures
            final(self).wf(),
            final(self).parameters == old(self).parameters,
            !final(self)@.absorbing,
            out@.len() == num_elements,
            all_in_field(fes(out@)),
            ({
                let r = squeeze_all(old(self).parameters@, old(self)@.state, rate_start as int, num_elements as nat);
                fes(out@) == r.0 && final(self)@.state == r.1 && final(self)@.offset == r.2
            }),
    {
        let ghost p = self.parameters@;
        let ghost target = squeeze_all(p, self@.state, rate_start as int, num_elements as nat);
        let mut out: Vec<Fe> = Vec::new();
        let mut offset = rate_start;
        let mut i: usize = 0;
        while i < num_elements
            invariant
                i <= num_elements,
                offset <= p.rate,
                self.parameters == old(self).parameters,
                self.state.wf(p.capacity, p.rate),
                self.mode == old(self).mode,
                out@.len() == i,
                all_in_field(fes(out@)),
                ({
                    let r = squeeze_all(p, self.state@, offset as int, (num_elements - i) as nat);
                    target.0 == fes(out@) + r.0 && target.1 == r.1 && target.2 == r.2
                }),
            decreases num_elements - i,
        {
            let ghost n_left = (num_elements - i) as nat;
            if offset == self.parameters.rate {
                let ghost s_pre = self.state@;
                self.permute();
                offset = 0;
                proof {
                    assert(squeeze_all(p, self.state@, 0int, n_left) == squeeze_all(p, s_pre, p.rate, n_left));
                }
            }
            let e = self.state.get(self.parameters.capacity + offset);
            let ghost prev = out@;
            out.push(e);
            proof {
                assert(fes(out@) =~= fes(prev).push(e@));
                let r = squeeze_all(p, self.state@, offset as int + 1, (n_left - 1) as nat);
                assert(squeeze_all(p, self.state@, offset as int, n_left).0
                    == seq![self.state@[p.capacity + offset]] + r.0);
                assert(target.0 =~= fes(out@) + r.0);
            }
            offset = offset + 1;
            i = i + 1;
        }
        self.mode = DuplexSpongeMode::Squeezing { next_squeeze_index: offset };
        proof {
            assert(target.0 =~= fes(out@));
        }
        out
    }

    /// Squeezes exactly `num_elements` field elements. A zero request
    /// changes nothing; a sponge that was absorbing permutes once before any
    /// output is drawn; an exhausted rate region is permuted before more
    /// output is drawn.
    pub fn squeeze_field_elements(&mut self, num_elements: usize) -> (out: Vec<Fe>)
        requires
            old(self).wf(),
        ensures
            final(self).wf(),
            final(self).parameters == old(self).parameters,
            out@.len() == num_elements,
            all_in_field(fes(out@)),
            ({
                let r = squeeze_spec(old(self).parameters@, old(self)@, num_elements as nat);
                fes(out@) == r.0 && final(self)@ == r.1
            }),
    {
        let ghost p = self.parameters@;
        if num_elements == 0 {
            let out: Vec<Fe> = Vec::new();
            proof {
                assert(fes(out@) =~= Seq::<int>::empty());
            }
            return out;
        }
        let out = match self.mode {
            DuplexSpongeMode::Absorbing { next_absorb_index: _ } => {
                self.permute();
                self.squeeze_internal(0, num_elements)
            },
            DuplexSpongeMode::Squeezing { next_squeeze_index } => {
                let mut start = next_squeeze_index;
                if start == self.parameters.rate {
                    self.permute();
                    start = 0;
                    proof {
                        assert(squeeze_all(p, old(self)@.state, p.rate, num_elements as nat)
                            == squeeze_all(p, self.state@, 0int, num_elements as nat));
                    }
                }
                self.squeeze_internal(start, num_elements)
            },
        };
        proof {
            assert(final(self)@ =~= squeeze_spec(p, old(self)@, num_elements as nat).1);
        }
        out
    }
}

/// Relies on std's `Arc::clone`: the returned handle points at the same
/// value.
#[verifier::external_body]
fn arc_clone(parameters: &Arc<Parameters>) -> (r: Arc<Parameters>)
    ensures
        r == *parameters,
{
    parameters.clone()
}

} // verus!
