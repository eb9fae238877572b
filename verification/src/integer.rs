//! Circuit integers and their wrapped addition. An integer is a little-endian
//! vector of bits together with a mode; wrapped addition sums the two bit
//! vectors with a carry and drops the final carry bit, so the value wraps
//! modulo two to the width. Adding two constants yields a constant; any other
//! combination yields a private value, and its circuit cost is fixed by the
//! width alone.

use vstd::prelude::*;
use vstd::arithmetic::div_mod::{lemma_mod_multiples_vanish, lemma_small_mod};
use vstd::arithmetic::power2::{
    lemma2_to64, lemma_pow2_adds, lemma_pow2_pos, lemma_pow2_strictly_increases,
    lemma_pow2_unfold, pow2,
};
use crate::mode::Mode;

verus! {

/// The value of a little-endian bit sequence.
pub open spec fn bits_value(s: Seq<bool>) -> nat
    decreases s.len(),
{
    if s.len() == 0 {
        0nat
    } else {
        bits_value(s.drop_last()) + if s.last() {
            pow2((s.len() - 1) as nat)
        } else {
            0nat
        }
    }
}

/// A bit sequence is worth less than two to its length.
pub proof fn lemma_bits_value_bound(s: Seq<bool>)
    ensures
        bits_value(s) < pow2(s.len()),
    decreases s.len(),
{
    if s.len() == 0 {
        lemma_pow2_pos(0);
    } else {
        lemma_bits_value_bound(s.drop_last());
        lemma_pow2_unfold(s.len());
    }
}

/// Appending a bit adds its weight at the old length.
proof fn lemma_bits_value_push(u: Seq<bool>, b: bool)
    ensures
        bits_value(u.push(b)) == bits_value(u) + if b {
            pow2(u.len())
        } else {
            0nat
        },
{
    assert(u.push(b).drop_last() =~= u);
    assert(u.push(b).last() == b);
}

/// Taking one more bit adds its weight at its index.
proof fn lemma_bits_value_take_step(s: Seq<bool>, j: int)
    requires
        0 <= j < s.len(),
    ensures
        bits_value(s.take(j + 1)) == bits_value(s.take(j)) + if s[j] {
            pow2(j as nat)
        } else {
            0nat
        },
{
    assert(s.take(j + 1).drop_last() =~= s.take(j));
    assert(s.take(j + 1).last() == s[j]);
}

/// The first bit weighs one; the rest weigh double their weight in the tail.
proof fn lemma_bits_value_first(s: Seq<bool>)
    requires
        s.len() > 0,
    ensures
        bits_value(s) == (if s[0] {
            1nat
        } else {
            0nat
        }) + 2 * bits_value(s.drop_first()),
    decreases s.len(),
{
    lemma2_to64();
    if s.len() == 1 {
        assert(s.drop_last() =~= Seq::<bool>::empty());
        assert(s.drop_first() =~= Seq::<bool>::empty());
    } else {
        let u = s.drop_last();
        lemma_bits_value_first(u);
        assert(u.drop_first() =~= s.drop_first().drop_last());
        assert(s.drop_first().last() == s.last());
        assert(u[0] == s[0]);
        lemma_pow2_unfold((s.len() - 1) as nat);
        assert(bits_value(s.drop_first()) == bits_value(s.drop_first().drop_last()) + if s.last() {
            pow2((s.len() - 2) as nat)
        } else {
            0nat
        });
    }
}

/// An exact circuit cost: how many constants, public inputs, private
/// witnesses and constraints an operation takes.
#[derive(Clone, Copy, Debug, PartialEq, Eq, Structural)]
pub struct Count {
    pub constants: u64,
    pub public: u64,
    pub private: u64,
    pub constraints: u64,
}

impl Count {
    /// The cost with exactly these four figures.
    pub fn is(constants: u64, public: u64, private: u64, constraints: u64) -> (c: Count)
        ensures
            c == (Count { constants, public, private, constraints }),
    {
        Count { constants, public, private, constraints }
    }
}

/// A circuit integer: little-endian bits and a mode.
pub struct Integer {
    mode: Mode,
    bits_le: Vec<bool>,
}

impl Integer {
    /// The mode the integer carries.
    pub closed spec fn spec_mode(self) -> Mode {
        self.mode
    }

    /// The bit width.
    pub closed spec fn width(self) -> nat {
        self.bits_le@.len()
    }

    /// The value the bits stand for.
    pub closed spec fn value(self) -> nat {
        bits_value(self.bits_le@)
    }

    /// A new integer of the given bit width holding `value`, in the given
    /// mode. Signed values are passed in their two's-complement bit pattern.
    pub fn new(mode: Mode, width: usize, value: u128) -> (r: Integer)
        requires
            width <= 128,
            (value as nat) < pow2(width as nat),
        ensures
            r.spec_mode() == mode,
            r.width() == width as nat,
            r.value() == value as nat,
    {
        let mut bits_le: Vec<bool> = Vec::new();
        let mut rem = value;
        let mut j: usize = 0;
        proof {
            lemma2_to64();
        }
        while j < width
            invariant
                j <= width,
                bits_le@.len() == j,
                bits_value(bits_le@) + pow2(j as nat) * (rem as nat) == value as nat,
            decreases width - j,
        {
            let bit = rem % 2 == 1;
            let ghost prev = bits_le@;
            let ghost rem0 = rem as nat;
            bits_le.push(bit);
            rem = rem / 2;
            proof {
                lemma_bits_value_push(prev, bit);
                lemma_pow2_unfold((j + 1) as nat);
                assert(rem0 == 2 * (rem as nat) + (if bit {
                    1nat
                } else {
                    0nat
                }));
                assert(pow2(j as nat) * rem0 == pow2((j + 1) as nat) * (rem as nat) + (if bit {
                    pow2(j as nat)
                } else {
                    0nat
                })) by (nonlinear_arith)
                    requires
                        pow2((j + 1) as nat) == 2 * pow2(j as nat),
                        rem0 == 2 * (rem as nat) + (if bit {
                            1nat
                        } else {
                            0nat
                        }),
                ;
            }
            j = j + 1;
        }
        proof {
            if rem > 0 {
                assert(pow2(width as nat) * (rem as nat) >= pow2(width as nat))
                    by (nonlinear_arith)
                    requires
                        (rem as nat) >= 1,
                        pow2(width as nat) >= 0,
                ;
            }
        }
        Integer { mode, bits_le }
    }

    /// The value held, read back out of the bits.
    #[verifier::loop_isolation(false)]
    pub fn eject_value(&self) -> (r: u128)
        requires
            self.width() <= 128,
        ensures
            r as nat == self.value(),
    {
        let ghost bits = self.bits_le@;
        let mut acc: u128 = 0;
        let mut j: usize = self.bits_le.len();
        proof {
            assert(bits.skip(j as int) =~= Seq::<bool>::empty());
            lemma2_to64();
            lemma_pow2_adds(64, 64);
        }
        while j > 0
            invariant
                j <= bits.len() <= 128,
                acc as nat == bits_value(bits.skip(j as int)),
            decreases j,
        {
            j = j - 1;
            let b = self.bits_le[j];
            proof {
                let t = bits.skip(j as int);
                lemma_bits_value_first(t);
                assert(t.drop_first() =~= bits.skip(j as int + 1));
                assert(t[0] == bits[j as int]);
                lemma_bits_value_bound(t);
                lemma2_to64();
                lemma_pow2_adds(64, 64);
                if t.len() < 128 {
                    lemma_pow2_strictly_increases(t.len(), 128);
                }
            }
            acc = 2 * acc + (if b {
                1
            } else {
                0
            });
        }
        proof {
            assert(bits.skip(0) =~= bits);
        }
        acc
    }

    /// Whether the integer is a constant of the circuit.
    pub fn is_constant(&self) -> (r: bool)
        ensures
            r == (self.spec_mode() == Mode::Constant),
    {
        self.mode == Mode::Constant
    }

    /// The mode the integer carries.
    pub fn mode(&self) -> (m: Mode)
        ensures
            m == self.spec_mode(),
    {
        self.mode
    }

    /// Wrapped addition: the sum of the two values, modulo two to the width.
    /// Two constants make a constant; any other combination is private.
    #[verifier::loop_isolation(false)]
    pub fn add_wrapped(&self, other: &Integer) -> (r: Integer)
        requires
            self.width() == other.width(),
        ensures
            r.width() == self.width(),
            r.value() == (self.value() + other.value()) % pow2(self.width()),
            r.spec_mode() == (if self.spec_mode() == Mode::Constant && other.spec_mode()
                == Mode::Constant {
                Mode::Constant
            } else {
                Mode::Private
            }),
    {
        let mode = if self.is_constant() && other.is_constant() {
            Mode::Constant
        } else {
            Mode::Private
        };
        let ghost wa = self.bits_le@;
        let ghost wb = other.bits_le@;
        let mut bits_le: Vec<bool> = Vec::new();
        let mut carry = false;
        let mut j: usize = 0;
        proof {
            assert(wa.take(0) =~= Seq::<bool>::empty());
            assert(wb.take(0) =~= Seq::<bool>::empty());
        }
        while j < self.bits_le.len()
            invariant
                j <= wa.len(),
                wb.len() == wa.len(),
                bits_le@.len() == j,
                bits_value(bits_le@) + pow2(j as nat) * (if carry {
                    1nat
                } else {
                    0nat
                }) == bits_value(wa.take(j as int)) + bits_value(wb.take(j as int)),
            decreases wa.len() - j,
        {
            let a = self.bits_le[j];
            let b = other.bits_le[j];
            let s = (a != b) != carry;
            let c2 = (a && b) || (carry && (a || b));
            let ghost prev = bits_le@;
            let ghost c0 = carry;
            bits_le.push(s);
            proof {
                lemma_bits_value_push(prev, s);
                lemma_bits_value_take_step(wa, j as int);
                lemma_bits_value_take_step(wb, j as int);
                lemma_pow2_unfold((j + 1) as nat);
                let sv: nat = if s { 1nat } else { 0nat };
                let av: nat = if a { 1nat } else { 0nat };
                let bv: nat = if b { 1nat } else { 0nat };
                let cv: nat = if c0 { 1nat } else { 0nat };
                let c2v: nat = if c2 { 1nat } else { 0nat };
                assert(sv + 2 * c2v == av + bv + cv);
                assert(bits_value(prev) + pow2(j as nat) * sv + pow2((j + 1) as nat) * c2v
                    == bits_value(wa.take(j as int)) + pow2(j as nat) * av
                    + bits_value(wb.take(j as int)) + pow2(j as nat) * bv) by (nonlinear_arith)
                    requires
                        pow2((j + 1) as nat) == 2 * pow2(j as nat),
                        sv + 2 * c2v == av + bv + cv,
                        bits_value(prev) + pow2(j as nat) * cv == bits_value(wa.take(j as int))
                            + bits_value(wb.take(j as int)),
                ;
            }
            carry = c2;
            j = j + 1;
        }
        let r = Integer { mode, bits_le };
        proof {
            assert(wa.take(wa.len() as int) =~= wa);
            assert(wb.take(wb.len() as int) =~= wb);
            lemma_bits_value_bound(r.bits_le@);
            lemma_pow2_pos(wa.len());
            let m = pow2(wa.len()) as int;
            let cv: int = if carry { 1int } else { 0int };
            lemma_mod_multiples_vanish(cv, bits_value(r.bits_le@) as int, m);
            lemma_small_mod(bits_value(r.bits_le@), pow2(wa.len()));
        }
        r
    }

    /// The circuit cost of one wrapped addition of integers of the given bit
    /// width: `width` constants when both operands are constants, else
    /// `width + 1` private witnesses and `width + 2` constraints.
    pub fn count(case: (Mode, Mode), width: u64) -> (c: Count)
        requires
            width + 2 <= u64::MAX,
        ensures
            (case.0 == Mode::Constant && case.1 == Mode::Constant) ==> c == (Count {
                constants: width,
                public: 0,
                private: 0,
                constraints: 0,
            }),
            !(case.0 == Mode::Constant && case.1 == Mode::Constant) ==> c == (Count {
                constants: 0,
                public: 0,
                private: (width + 1) as u64,
                constraints: (width + 2) as u64,
            }),
    {
        match case {
            (Mode::Constant, Mode::Constant) => Count {
                constants: width,
                public: 0,
                private: 0,
                constraints: 0,
            },
            (_, _) => Count {
                constants: 0,
                public: 0,
                private: width + 1,
                constraints: width + 2,
            },
        }
    }

    /// The mode of the sum, by the modes of its operands: constant exactly
    /// when both operands are constants, else private.
    pub fn output_mode(case: (Mode, Mode)) -> (m: Mode)
        ensures
            (case.0 == Mode::Constant && case.1 == Mode::Constant) ==> m == Mode::Constant,
            !(case.0 == Mode::Constant && case.1 == Mode::Constant) ==> m == Mode::Private,
    {
        match case {
            (Mode::Constant, Mode::Constant) => Mode::Constant,
            (_, _) => Mode::Private,
        }
    }
}

} // verus!
