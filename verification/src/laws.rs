//! The laws of the duplex machine, stated over its mathematical mirror. Each
//! public proof function here is a promise about every sponge built from this
//! library, since the methods' contracts tie them to the same mirror.

use vstd::prelude::*;
use crate::field::{add_f, pow_f};
use crate::params::ParamsView;
use crate::sponge::{
    SpongeV, absorb_all, absorb_spec, is_full_round, permute_spec, sbox_step, squeeze_all,
    squeeze_spec,
};

verus! {

/// Absorbing `a` and then `b` from any inner position equals absorbing their
/// concatenation in one run.
proof fn lemma_absorb_all_append(p: ParamsView, s: Seq<int>, off: int, a: Seq<int>, b: Seq<int>)
    ensures
        ({
            let r1 = absorb_all(p, s, off, a);
            absorb_all(p, s, off, a + b) == absorb_all(p, r1.0, r1.1, b)
        }),
    decreases a.len(),
{
    if a.len() == 0 {
        assert(a + b =~= b);
    } else {
        let s0 = if off == p.rate { permute_spec(p, s) } else { s };
        let off0 = if off == p.rate { 0int } else { off };
        let idx = p.capacity + off0;
        let s1 = s0.update(idx, add_f(s0[idx], a[0]));
        assert((a + b).len() > 0);
        assert((a + b)[0] == a[0]);
        assert((a + b).drop_first() =~= a.drop_first() + b);
        lemma_absorb_all_append(p, s1, off0 + 1, a.drop_first(), b);
    }
}

/// Chunk invariance: for any split of an input into two pieces, absorbing
/// the pieces in order leaves the sponge exactly as absorbing the whole in
/// one call; by induction on the pieces, the same holds for any split.
pub proof fn lemma_absorb_chunk_invariance(p: ParamsView, v: SpongeV, s1: Seq<int>, s2: Seq<int>)
    ensures
        absorb_spec(p, absorb_spec(p, v, s1), s2) == absorb_spec(p, v, s1 + s2),
{
    if s1.len() == 0 {
        assert(s1 + s2 =~= s2);
    } else if s2.len() == 0 {
        assert(s1 + s2 =~= s1);
    } else {
        let s0 = if v.absorbing { v.state } else { permute_spec(p, v.state) };
        let off0 = if v.absorbing { v.offset } else { 0int };
        lemma_absorb_all_append(p, s0, off0, s1, s2);
        assert(absorb_spec(p, absorb_spec(p, v, s1), s2) =~= absorb_spec(p, v, s1 + s2));
    }
}

/// Absorbing a list of pieces, one call per piece, in order.
pub open spec fn absorb_pieces(p: ParamsView, v: SpongeV, pieces: Seq<Seq<int>>) -> SpongeV
    decreases pieces.len(),
{
    if pieces.len() == 0 {
        v
    } else {
        absorb_pieces(p, absorb_spec(p, v, pieces.first()), pieces.drop_first())
    }
}

/// Chunk invariance for any split: absorbing the pieces of a split one call
/// at a time, in order, leaves the sponge exactly as absorbing the whole
/// input in one call.
pub proof fn lemma_absorb_any_split(p: ParamsView, v: SpongeV, pieces: Seq<Seq<int>>)
    ensures
        absorb_pieces(p, v, pieces) == absorb_spec(p, v, pieces.flatten()),
    decreases pieces.len(),
{
    if pieces.len() == 0 {
        assert(pieces.flatten() =~= Seq::<int>::empty());
    } else {
        lemma_absorb_any_split(p, absorb_spec(p, v, pieces.first()), pieces.drop_first());
        lemma_absorb_chunk_invariance(p, v, pieces.first(), pieces.drop_first().flatten());
    }
}

/// Squeezing `a` and then `b` more from any inner position draws the same
/// elements as squeezing `a + b` in one run.
proof fn lemma_squeeze_all_append(p: ParamsView, s: Seq<int>, off: int, a: nat, b: nat)
    ensures
        ({
            let r1 = squeeze_all(p, s, off, a);
            let r2 = squeeze_all(p, r1.1, r1.2, b);
            squeeze_all(p, s, off, a + b) == (r1.0 + r2.0, r2.1, r2.2)
        }),
    decreases a,
{
    let r1 = squeeze_all(p, s, off, a);
    let r2 = squeeze_all(p, r1.1, r1.2, b);
    if a == 0 {
        assert(r1.0 + r2.0 =~= r2.0);
    } else {
        let s0 = if off == p.rate { permute_spec(p, s) } else { s };
        let off0 = if off == p.rate { 0int } else { off };
        lemma_squeeze_all_append(p, s0, off0 + 1, (a - 1) as nat, b);
        let rest = squeeze_all(p, s0, off0 + 1, (a - 1) as nat);
        let r2p = squeeze_all(p, rest.1, rest.2, b);
        assert((a + b) as nat - 1 == (a - 1) as nat + b);
        assert(seq![s0[p.capacity + off0]] + (rest.0 + r2p.0) =~= (seq![s0[p.capacity + off0]]
            + rest.0) + r2p.0);
    }
}

/// Squeeze composability: `squeeze(a)` followed by `squeeze(b)`, with no
/// intervening absorb, returns the concatenation of what one `squeeze(a + b)`
/// returns and leaves the sponge in the same state.
pub proof fn lemma_squeeze_composability(p: ParamsView, v: SpongeV, a: nat, b: nat)
    ensures
        ({
            let r1 = squeeze_spec(p, v, a);
            let r2 = squeeze_spec(p, r1.1, b);
            let r = squeeze_spec(p, v, a + b);
            r.0 == r1.0 + r2.0 && r.1 == r2.1
        }),
{
    let r1 = squeeze_spec(p, v, a);
    let r2 = squeeze_spec(p, r1.1, b);
    let r = squeeze_spec(p, v, a + b);
    if a == 0 {
        assert(r.0 =~= r1.0 + r2.0);
    } else if b == 0 {
        assert(r.0 =~= r1.0 + r2.0);
    } else {
        let s0 = if v.absorbing { permute_spec(p, v.state) } else { v.state };
        let off0 = if v.absorbing { 0int } else { v.offset };
        lemma_squeeze_all_append(p, s0, off0, a, b);
        assert(r.1 =~= r2.1);
    }
}

/// A direction switch forces exactly one permutation. Absorbing into a
/// squeezing sponge consumes the input from offset 0 of the once-permuted
/// state — whatever the squeeze offset was; squeezing an absorbing sponge
/// draws output from offset 0 of the once-permuted state — whatever the
/// absorb offset was.
pub proof fn lemma_direction_switch_forces_permutation(
    p: ParamsView,
    st: Seq<int>,
    k1: int,
    k2: int,
    input: Seq<int>,
    n: nat,
)
    requires
        input.len() > 0,
        n > 0,
    ensures
        absorb_spec(p, SpongeV { state: st, absorbing: false, offset: k1 }, input) == absorb_spec(
            p,
            SpongeV { state: st, absorbing: false, offset: k2 },
            input,
        ),
        ({
            let r = absorb_all(p, permute_spec(p, st), 0, input);
            absorb_spec(p, SpongeV { state: st, absorbing: false, offset: k1 }, input) == SpongeV {
                state: r.0,
                absorbing: true,
                offset: r.1,
            }
        }),
        squeeze_spec(p, SpongeV { state: st, absorbing: true, offset: k1 }, n) == squeeze_spec(
            p,
            SpongeV { state: st, absorbing: true, offset: k2 },
            n,
        ),
        ({
            let r = squeeze_all(p, permute_spec(p, st), 0, n);
            squeeze_spec(p, SpongeV { state: st, absorbing: true, offset: k1 }, n) == (
                r.0,
                SpongeV { state: r.1, absorbing: false, offset: r.2 },
            )
        }),
{
}

/// With 8 full and 31 partial rounds, the nonlinear layer covers the whole
/// state exactly in rounds 0 to 3 and 35 to 38, and element 0 alone in
/// rounds 4 to 34: the partial block is the contiguous middle segment.
pub proof fn lemma_round_split(p: ParamsView, i: int, s: Seq<int>)
    requires
        p.full_rounds == 8,
        p.partial_rounds == 31,
        0 <= i < 39,
    ensures
        is_full_round(p, i) <==> (i < 4 || 35 <= i),
        (i < 4 || 35 <= i) ==> sbox_step(p, s, is_full_round(p, i)) == Seq::new(
            s.len(),
            |j: int| pow_f(s[j], p.alpha),
        ),
        (4 <= i < 35) ==> sbox_step(p, s, is_full_round(p, i)) == s.update(
            0,
            pow_f(s[0], p.alpha),
        ),
{
}

/// No-op boundaries: an empty absorb and a zero squeeze run no permutation
/// and leave the sponge untouched.
pub proof fn lemma_noop_boundaries(p: ParamsView, v: SpongeV)
    ensures
        absorb_spec(p, v, Seq::<int>::empty()) == v,
        squeeze_spec(p, v, 0) == (Seq::<int>::empty(), v),
{
}

/// The state after `input` is added element-wise into the rate region,
/// starting at rate offset `off`; everything else is untouched.
pub open spec fn rate_added(p: ParamsView, s: Seq<int>, off: int, input: Seq<int>) -> Seq<int> {
    Seq::new(
        s.len(),
        |j: int|
            if p.capacity + off <= j < p.capacity + off + input.len() {
                add_f(s[j], input[j - p.capacity - off])
            } else {
                s[j]
            },
    )
}

/// Absorbing input that fits the room left in the rate region adds it
/// element-wise, runs no permutation, and advances the offset by the input
/// length.
proof fn lemma_absorb_all_fits(p: ParamsView, s: Seq<int>, off: int, input: Seq<int>)
    requires
        p.wf(),
        0 <= off,
        off + input.len() <= p.rate,
        s.len() == p.capacity + p.rate,
    ensures
        absorb_all(p, s, off, input) == (rate_added(p, s, off, input), off + input.len()),
    decreases input.len(),
{
    let r = absorb_all(p, s, off, input);
    if input.len() == 0 {
        assert(r.0 =~= rate_added(p, s, off, input));
    } else {
        let idx = p.capacity + off;
        let s1 = s.update(idx, add_f(s[idx], input[0]));
        lemma_absorb_all_fits(p, s1, off + 1, input.drop_first());
        assert(r.0 =~= rate_added(p, s, off, input));
    }
}

/// Exact fill: absorbing exactly `rate` elements into an absorbing sponge at
/// offset 0 adds them into the rate region with no permutation during the
/// call and leaves the sponge absorbing at offset `rate`.
pub proof fn lemma_exact_fill(p: ParamsView, v: SpongeV, input: Seq<int>)
    requires
        p.wf(),
        v.absorbing,
        v.offset == 0,
        input.len() == p.rate,
        v.state.len() == p.capacity + p.rate,
    ensures
        absorb_spec(p, v, input) == (SpongeV {
            state: rate_added(p, v.state, 0, input),
            absorbing: true,
            offset: p.rate,
        }),
{
    lemma_absorb_all_fits(p, v.state, 0, input);
    assert(absorb_spec(p, v, input) =~= (SpongeV {
        state: rate_added(p, v.state, 0, input),
        absorbing: true,
        offset: p.rate,
    }));
}

/// A sponge whose rate region is exactly full permutes before its next call
/// of either kind: the next absorb consumes input from offset 0 of the
/// once-permuted state, and the next squeeze draws output from offset 0 of
/// the once-permuted state.
pub proof fn lemma_full_rate_forces_permutation(p: ParamsView, v: SpongeV, input: Seq<int>, n: nat)
    requires
        p.wf(),
        v.absorbing,
        v.offset == p.rate,
        input.len() > 0,
        n > 0,
    ensures
        ({
            let r = absorb_all(p, permute_spec(p, v.state), 0, input);
            absorb_spec(p, v, input) == SpongeV { state: r.0, absorbing: true, offset: r.1 }
        }),
        ({
            let r = squeeze_all(p, permute_spec(p, v.state), 0, n);
            squeeze_spec(p, v, n) == (r.0, SpongeV { state: r.1, absorbing: false, offset: r.2 })
        }),
{
    assert(absorb_all(p, v.state, p.rate, input) == absorb_all(
        p,
        permute_spec(p, v.state),
        0,
        input,
    ));
}

} // verus!
