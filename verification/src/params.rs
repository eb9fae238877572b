//! The permutation's parameter table: round constants, mixing matrix, round
//! counts and the S-box exponent, together with the rate and capacity of the
//! sponge that uses it. The table is immutable once built; sponges share it
//! through a reference-counted handle.

use vstd::prelude::*;
use snarkvm_curves::bls12_377::Fr;
use snarkvm_fields::PoseidonDefaultField;
use snarkvm_fields::PrimeField;
use crate::field::{Fe, all_in_field, fes};

verus! {

/// The mathematical content of a parameter table.
#[verifier::ext_equal]
pub struct ParamsView {
    pub full_rounds: int,
    pub partial_rounds: int,
    pub alpha: nat,
    pub ark: Seq<Seq<int>>,
    pub mds: Seq<Seq<int>>,
    pub rate: int,
    pub capacity: int,
}

impl ParamsView {
    /// The state width the table is made for.
    pub open spec fn width(self) -> int {
        self.capacity + self.rate
    }

    /// How many rounds one permutation applies.
    pub open spec fn rounds(self) -> int {
        self.full_rounds + self.partial_rounds
    }

    /// Dimensions are consistent and every table entry is a canonical field
    /// value.
    pub open spec fn wf(self) -> bool {
        &&& 1 <= self.rate
        &&& 0 <= self.capacity
        &&& self.width() <= usize::MAX as int
        &&& 0 <= self.full_rounds
        &&& 0 <= self.partial_rounds
        &&& self.rounds() <= usize::MAX as int
        &&& self.ark.len() == self.rounds()
        &&& forall|r: int|
            0 <= r < self.ark.len() ==> (#[trigger] self.ark[r]).len() == self.width()
                && all_in_field(self.ark[r])
        &&& self.mds.len() == self.width()
        &&& forall|r: int|
            0 <= r < self.mds.len() ==> (#[trigger] self.mds[r]).len() == self.width()
                && all_in_field(self.mds[r])
    }
}

/// An immutable parameter table for the permutation.
pub struct Parameters {
    /// Number of rounds that apply the S-box to the whole state.
    pub full_rounds: usize,
    /// Number of rounds that apply the S-box to state element 0 only.
    pub partial_rounds: usize,
    /// Exponent of the S-box.
    pub alpha: u64,
    /// Additive round keys, indexed by round, then by state element.
    pub ark: Vec<Vec<Fe>>,
    /// The linear mixing matrix, row by row.
    pub mds: Vec<Vec<Fe>>,
    /// How many state elements absorb and squeeze touch directly.
    pub rate: usize,
    /// How many state elements are hidden from the caller.
    pub capacity: usize,
}

impl View for Parameters {
    type V = ParamsView;

    open spec fn view(&self) -> ParamsView {
        ParamsView {
            full_rounds: self.full_rounds as int,
            partial_rounds: self.partial_rounds as int,
            alpha: self.alpha as nat,
            ark: self.ark@.map_values(|row: Vec<Fe>| fes(row@)),
            mds: self.mds@.map_values(|row: Vec<Fe>| fes(row@)),
            rate: self.rate as int,
            capacity: self.capacity as int,
        }
    }
}

/// The canonical parameter table of the field for a given rate, with capacity
/// one: a fixed table, the same in every run.
pub uninterp spec fn default_params_of(rate: int) -> ParamsView;

/// Relies on `snarkvm_fields::PoseidonDefaultField::default_poseidon_parameters`:
/// for the scalar field of BLS12-377 the table for rate 2 has 8 full rounds, 31
/// partial rounds and exponent 17, round keys of width 3 per round and a 3 by 3
/// mixing matrix, all entries canonical; the table depends on the rate alone.
/// The call cannot fail here: the field's table lists this rate, the stream
/// generator's only error check compares the field's bit size with itself, and
/// the matrix inversion skips zeros and inverts a product of nonzero elements.
#[verifier::external_body]
fn default_table_rate_2() -> (p: Parameters)
    ensures
        p@ == default_params_of(2),
        p@.wf(),
        p@.rate == 2,
        p@.capacity == 1,
        p@.full_rounds == 8,
        p@.partial_rounds == 31,
        p@.alpha == 17,
{
    let t = <Fr as PoseidonDefaultField>::default_poseidon_parameters::<2>().unwrap();
    let to_fe = |f: &Fr| { let l = f.to_bigint().0; Fe { l0: l[0], l1: l[1], l2: l[2], l3: l[3] } };
    Parameters {
        full_rounds: t.full_rounds,
        partial_rounds: t.partial_rounds,
        alpha: t.alpha,
        ark: t.ark.iter().map(|row| row.iter().map(to_fe).collect()).collect(),
        mds: t.mds.iter().map(|row| row.iter().map(to_fe).collect()).collect(),
        rate: 2,
        capacity: 1,
    }
}

/// Relies on `snarkvm_fields::PoseidonDefaultField::default_poseidon_parameters`:
/// as for rate 2, which the field's table also lists, with round keys of width
/// 4 and a 4 by 4 mixing matrix.
#[verifier::external_body]
fn default_table_rate_3() -> (p: Parameters)
    ensures
        p@ == default_params_of(3),
        p@.wf(),
        p@.rate == 3,
        p@.capacity == 1,
        p@.full_rounds == 8,
        p@.partial_rounds == 31,
        p@.alpha == 17,
{
    let t = <Fr as PoseidonDefaultField>::default_poseidon_parameters::<3>().unwrap();
    let to_fe = |f: &Fr| { let l = f.to_bigint().0; Fe { l0: l[0], l1: l[1], l2: l[2], l3: l[3] } };
    Parameters {
        full_rounds: t.full_rounds,
        partial_rounds: t.partial_rounds,
        alpha: t.alpha,
        ark: t.ark.iter().map(|row| row.iter().map(to_fe).collect()).collect(),
        mds: t.mds.iter().map(|row| row.iter().map(to_fe).collect()).collect(),
        rate: 3,
        capacity: 1,
    }
}

/// Relies on `snarkvm_fields::PoseidonDefaultField::default_poseidon_parameters`:
/// as for rate 2, which the field's table also lists, with round keys of width
/// 5 and a 5 by 5 mixing matrix.
#[verifier::external_body]
fn default_table_rate_4() -> (p: Parameters)
    ensures
        p@ == default_params_of(4),
        p@.wf(),
        p@.rate == 4,
        p@.capacity == 1,
        p@.full_rounds == 8,
        p@.partial_rounds == 31,
        p@.alpha == 17,
{
    let t = <Fr as PoseidonDefaultField>::default_poseidon_parameters::<4>().unwrap();
    let to_fe = |f: &Fr| { let l = f.to_bigint().0; Fe { l0: l[0], l1: l[1], l2: l[2], l3: l[3] } };
    Parameters {
        full_rounds: t.full_rounds,
        partial_rounds: t.partial_rounds,
        alpha: t.alpha,
        ark: t.ark.iter().map(|row| row.iter().map(to_fe).collect()).collect(),
        mds: t.mds.iter().map(|row| row.iter().map(to_fe).collect()).collect(),
        rate: 4,
        capacity: 1,
    }
}

/// Relies on `snarkvm_fields::PoseidonDefaultField::default_poseidon_parameters`:
/// as for rate 2, which the field's table also lists, with round keys of width
/// 6 and a 6 by 6 mixing matrix.
#[verifier::external_body]
fn default_table_rate_5() -> (p: Parameters)
    ensures
        p@ == default_params_of(5),
        p@.wf(),
        p@.rate == 5,
        p@.capacity == 1,
        p@.full_rounds == 8,
        p@.partial_rounds == 31,
        p@.alpha == 17,
{
    let t = <Fr as PoseidonDefaultField>::default_poseidon_parameters::<5>().unwrap();
    let to_fe = |f: &Fr| { let l = f.to_bigint().0; Fe { l0: l[0], l1: l[1], l2: l[2], l3: l[3] } };
    Parameters {
        full_rounds: t.full_rounds,
        partial_rounds: t.partial_rounds,
        alpha: t.alpha,
        ark: t.ark.iter().map(|row| row.iter().map(to_fe).collect()).collect(),
        mds: t.mds.iter().map(|row| row.iter().map(to_fe).collect()).collect(),
        rate: 5,
        capacity: 1,
    }
}

/// Relies on `snarkvm_fields::PoseidonDefaultField::default_poseidon_parameters`:
/// as for rate 2, which the field's table also lists, with round keys of width
/// 7 and a 7 by 7 mixing matrix.
#[verifier::external_body]
fn default_table_rate_6() -> (p: Parameters)
    ensures
        p@ == default_params_of(6),
        p@.wf(),
        p@.rate == 6,
        p@.capacity == 1,
        p@.full_rounds == 8,
        p@.partial_rounds == 31,
        p@.alpha == 17,
{
    let t = <Fr as PoseidonDefaultField>::default_poseidon_parameters::<6>().unwrap();
    let to_fe = |f: &Fr| { let l = f.to_bigint().0; Fe { l0: l[0], l1: l[1], l2: l[2], l3: l[3] } };
    Parameters {
        full_rounds: t.full_rounds,
        partial_rounds: t.partial_rounds,
        alpha: t.alpha,
        ark: t.ark.iter().map(|row| row.iter().map(to_fe).collect()).collect(),
        mds: t.mds.iter().map(|row| row.iter().map(to_fe).collect()).collect(),
        rate: 6,
        capacity: 1,
    }
}

/// Relies on `snarkvm_fields::PoseidonDefaultField::default_poseidon_parameters`:
/// as for rate 2, which the field's table also lists, with round keys of width
/// 8 and a 8 by 8 mixing matrix.
#[verifier::external_body]
fn default_table_rate_7() -> (p: Parameters)
    ensures
        p@ == default_params_of(7),
        p@.wf(),
        p@.rate == 7,
        p@.capacity == 1,
        p@.full_rounds == 8,
        p@.partial_rounds == 31,
        p@.alpha == 17,
{
    let t = <Fr as PoseidonDefaultField>::default_poseidon_parameters::<7>().unwrap();
    let to_fe = |f: &Fr| { let l = f.to_bigint().0; Fe { l0: l[0], l1: l[1], l2: l[2], l3: l[3] } };
    Parameters {
        full_rounds: t.full_rounds,
        partial_rounds: t.partial_rounds,
        alpha: t.alpha,
        ark: t.ark.iter().map(|row| row.iter().map(to_fe).collect()).collect(),
        mds: t.mds.iter().map(|row| row.iter().map(to_fe).collect()).collect(),
        rate: 7,
        capacity: 1,
    }
}

/// Relies on `snarkvm_fields::PoseidonDefaultField::default_poseidon_parameters`:
/// as for rate 2, which the field's table also lists, with round keys of width
/// 9 and a 9 by 9 mixing matrix.
#[verifier::external_body]
fn default_table_rate_8() -> (p: Parameters)
    ensures
        p@ == default_params_of(8),
        p@.wf(),
        p@.rate == 8,
        p@.capacity == 1,
        p@.full_rounds == 8,
        p@.partial_rounds == 31,
        p@.alpha == 17,
{
    let t = <Fr as PoseidonDefaultField>::default_poseidon_parameters::<8>().unwrap();
    let to_fe = |f: &Fr| { let l = f.to_bigint().0; Fe { l0: l[0], l1: l[1], l2: l[2], l3: l[3] } };
    Parameters {
        full_rounds: t.full_rounds,
        partial_rounds: t.partial_rounds,
        alpha: t.alpha,
        ark: t.ark.iter().map(|row| row.iter().map(to_fe).collect()).collect(),
        mds: t.mds.iter().map(|row| row.iter().map(to_fe).collect()).collect(),
        rate: 8,
        capacity: 1,
    }
}

/// Failure to supply a parameter table: a configuration error, distinct from
/// any data handled by the sponge itself.
#[derive(Clone, Copy, Debug, PartialEq, Eq, Structural)]
pub enum ParameterError {
    /// No canonical parameter table exists for the requested rate.
    UnsupportedRate,
}

/// The rates the field has a canonical table for.
pub open spec fn supported_rate(rate: int) -> bool {
    2 <= rate <= 8
}

impl Parameters {
    /// Fetches the canonical parameter table of the field for the given rate,
    /// with capacity one. Succeeds exactly on the rates the field has a
    /// canonical table for; any other rate is a configuration error.
    pub fn default_for_rate(rate: usize) -> (r: Result<Parameters, ParameterError>)
        ensures
            r is Ok <==> supported_rate(rate as int),
            r matches Ok(p) ==> p@ == default_params_of(rate as int) && p@.wf()
                && p@.rate == rate as int && p@.capacity == 1 && p@.full_rounds == 8
                && p@.partial_rounds == 31 && p@.alpha == 17,
            r matches Err(e) ==> e == ParameterError::UnsupportedRate,
    {
        match rate {
            2 => Ok(default_table_rate_2()),
            3 => Ok(default_table_rate_3()),
            4 => Ok(default_table_rate_4()),
            5 => Ok(default_table_rate_5()),
            6 => Ok(default_table_rate_6()),
            7 => Ok(default_table_rate_7()),
            8 => Ok(default_table_rate_8()),
            _ => Err(ParameterError::UnsupportedRate),
        }
    }
}

} // verus!
