//! The field element the sponge works on: the scalar field of BLS12-377,
//! held as four 64-bit limbs in little-endian order, always in canonical
//! (fully reduced) form. The arithmetic is done by `snarkvm`; its results
//! are stated here as modular arithmetic over the integer value of a limb
//! vector.

use vstd::prelude::*;
use snarkvm_curves::bls12_377::Fr;
use snarkvm_fields::Field as SnarkvmField;
use snarkvm_fields::PrimeField;
use snarkvm_utilities::biginteger::BigInteger256;

verus! {

/// The prime modulus of the scalar field of BLS12-377.
pub open spec fn modulus() -> int {
    8444461749428370424248824938781546531375899335154063827935233455917409239041int
}

/// A value in canonical range for the field.
pub open spec fn in_field(x: int) -> bool {
    0 <= x < modulus()
}

/// Field addition on canonical values.
pub open spec fn add_f(a: int, b: int) -> int {
    (a + b) % modulus()
}

/// Field multiplication on canonical values.
pub open spec fn mul_f(a: int, b: int) -> int {
    (a * b) % modulus()
}

/// Field exponentiation on canonical values, by repeated multiplication.
pub open spec fn pow_f(a: int, e: nat) -> int
    decreases e,
{
    if e == 0 {
        1int % modulus()
    } else {
        mul_f(a, pow_f(a, (e - 1) as nat))
    }
}

/// A field element in canonical form: limbs little-endian, value below the
/// modulus. The value it stands for is its view.
#[derive(Clone, Copy, Debug, PartialEq, Eq, Structural)]
pub struct Fe {
    pub(crate) l0: u64,
    pub(crate) l1: u64,
    pub(crate) l2: u64,
    pub(crate) l3: u64,
}

impl View for Fe {
    type V = int;

    closed spec fn view(&self) -> int {
        self.l0 as int
            + self.l1 as int * 0x10000000000000000int
            + self.l2 as int * 0x100000000000000000000000000000000int
            + self.l3 as int * 0x1000000000000000000000000000000000000000000000000int
    }
}

/// The values a sequence of field elements stands for.
pub open spec fn fes(s: Seq<Fe>) -> Seq<int> {
    s.map_values(|f: Fe| f@)
}

/// Every element of a sequence of field elements is in canonical range.
pub open spec fn all_in_field(s: Seq<int>) -> bool {
    forall|i: int| 0 <= i < s.len() ==> in_field(#[trigger] s[i])
}

impl Fe {
    /// The additive identity.
    pub fn zero() -> (r: Fe)
        ensures
            r@ == 0,
            in_field(r@),
    {
        Fe { l0: 0, l1: 0, l2: 0, l3: 0 }
    }

    /// The multiplicative identity.
    pub fn one() -> (r: Fe)
        ensures
            r@ == 1,
            in_field(r@),
    {
        Fe { l0: 1, l1: 0, l2: 0, l3: 0 }
    }

    /// Embeds a small integer into the field.
    pub fn from_u64(x: u64) -> (r: Fe)
        ensures
            r@ == x as int,
            in_field(r@),
    {
        Fe { l0: x, l1: 0, l2: 0, l3: 0 }
    }

    /// The canonical limbs of the element, least significant first.
    pub fn limbs(&self) -> (r: (u64, u64, u64, u64))
        ensures
            self@ == r.0 as int + r.1 as int * 0x10000000000000000int + r.2 as int
                * 0x100000000000000000000000000000000int + r.3 as int
                * 0x1000000000000000000000000000000000000000000000000int,
    {
        (self.l0, self.l1, self.l2, self.l3)
    }
}

/// Relies on `snarkvm_fields`: addition of two canonical `Fr` elements is
/// addition modulo the prime, and `to_bigint` returns the canonical limbs.
#[verifier::external_body]
pub fn fe_add(a: &Fe, b: &Fe) -> (r: Fe)
    requires
        in_field(a@),
        in_field(b@),
    ensures
        r@ == add_f(a@, b@),
{
    let x = Fr::from_bigint(BigInteger256([a.l0, a.l1, a.l2, a.l3])).unwrap();
    let y = Fr::from_bigint(BigInteger256([b.l0, b.l1, b.l2, b.l3])).unwrap();
    let l = (x + y).to_bigint().0;
    Fe { l0: l[0], l1: l[1], l2: l[2], l3: l[3] }
}

/// Relies on `snarkvm_fields`: multiplication of two canonical `Fr` elements
/// is multiplication modulo the prime, and `to_bigint` returns the canonical
/// limbs.
#[verifier::external_body]
pub fn fe_mul(a: &Fe, b: &Fe) -> (r: Fe)
    requires
        in_field(a@),
        in_field(b@),
    ensures
        r@ == mul_f(a@, b@),
{
    let x = Fr::from_bigint(BigInteger256([a.l0, a.l1, a.l2, a.l3])).unwrap();
    let y = Fr::from_bigint(BigInteger256([b.l0, b.l1, b.l2, b.l3])).unwrap();
    let l = (x * y).to_bigint().0;
    Fe { l0: l[0], l1: l[1], l2: l[2], l3: l[3] }
}

/// Relies on `snarkvm_fields`: `Field::pow` raises a canonical `Fr` element
/// to the given power in the field, by square and multiply.
#[verifier::external_body]
pub fn fe_pow(a: &Fe, e: u64) -> (r: Fe)
    requires
        in_field(a@),
    ensures
        r@ == pow_f(a@, e as nat),
{
    let x = Fr::from_bigint(BigInteger256([a.l0, a.l1, a.l2, a.l3])).unwrap();
    let l = x.pow([e]).to_bigint().0;
    Fe { l0: l[0], l1: l[1], l2: l[2], l3: l[3] }
}

/// The result of a field operation is itself in canonical range.
pub proof fn lemma_ops_in_field(a: int, b: int, e: nat)
    requires
        in_field(a),
        in_field(b),
    ensures
        in_field(add_f(a, b)),
        in_field(mul_f(a, b)),
        in_field(pow_f(a, e)),
    decreases e,
{
    vstd::arithmetic::mul::lemma_mul_nonnegative(a, b);
    if e != 0 {
        lemma_ops_in_field(a, b, (e - 1) as nat);
        vstd::arithmetic::mul::lemma_mul_nonnegative(a, pow_f(a, (e - 1) as nat));
    }
}

} // verus!
