//! Wrapped addition of circuit integers, across every mode combination and
//! every integer width: random pairs, their commuted pairs, and the overflow
//! and underflow boundary cases.

use poseidon_sponge::integer::{Count, Integer};
use poseidon_sponge::mode::Mode;

const ITERATIONS: usize = 128;

struct Lcg(u64);

impl Lcg {
    fn new(seed: u64) -> Self {
        Lcg(seed)
    }

    fn next_u64(&mut self) -> u64 {
        self.0 = self.0.wrapping_mul(6364136223846793005).wrapping_add(1442695040888963407);
        self.0
    }

    fn next_u128(&mut self) -> u128 {
        ((self.next_u64() as u128) << 64) | (self.next_u64() as u128)
    }
}

trait TestInt: Copy {
    const WIDTH: usize;
    const SIGNED: bool;
    fn max_value() -> Self;
    fn min_value() -> Self;
    fn one() -> Self;
    fn minus_one() -> Self;
    fn wrap_add(self, other: Self) -> Self;
    fn from_rng(rng: &mut Lcg) -> Self;
    fn to_bits(self) -> u128;
}

impl TestInt for u8 {
    const WIDTH: usize = 8;
    const SIGNED: bool = false;

    fn max_value() -> Self {
        u8::MAX
    }

    fn min_value() -> Self {
        u8::MIN
    }

    fn one() -> Self {
        1
    }

    fn minus_one() -> Self {
        0
    }

    fn wrap_add(self, other: Self) -> Self {
        self.wrapping_add(other)
    }

    fn from_rng(rng: &mut Lcg) -> Self {
        rng.next_u128() as u8
    }

    fn to_bits(self) -> u128 {
        (self as u8) as u128
    }
}

impl TestInt for i8 {
    const WIDTH: usize = 8;
    const SIGNED: bool = true;

    fn max_value() -> Self {
        i8::MAX
    }

    fn min_value() -> Self {
        i8::MIN
    }

    fn one() -> Self {
        1
    }

    fn minus_one() -> Self {
        -1
    }

    fn wrap_add(self, other: Self) -> Self {
        self.wrapping_add(other)
    }

    fn from_rng(rng: &mut Lcg) -> Self {
        rng.next_u128() as i8
    }

    fn to_bits(self) -> u128 {
        (self as u8) as u128
    }
}

impl TestInt for u16 {
    const WIDTH: usize = 16;
    const SIGNED: bool = false;

    fn max_value() -> Self {
        u16::MAX
    }

    fn min_value() -> Self {
        u16::MIN
    }

    fn one() -> Self {
        1
    }

    fn minus_one() -> Self {
        0
    }

    fn wrap_add(self, other: Self) -> Self {
        self.wrapping_add(other)
    }

    fn from_rng(rng: &mut Lcg) -> Self {
        rng.next_u128() as u16
    }

    fn to_bits(self) -> u128 {
        (self as u16) as u128
    }
}

impl TestInt for i16 {
    const WIDTH: usize = 16;
    const SIGNED: bool = true;

    fn max_value() -> Self {
        i16::MAX
    }

    fn min_value() -> Self {
        i16::MIN
    }

    fn one() -> Self {
        1
    }

    fn minus_one() -> Self {
        -1
    }

    fn wrap_add(self, other: Self) -> Self {
        self.wrapping_add(other)
    }

    fn from_rng(rng: &mut Lcg) -> Self {
        rng.next_u128() as i16
    }

    fn to_bits(self) -> u128 {
        (self as u16) as u128
    }
}

impl TestInt for u32 {
    const WIDTH: usize = 32;
    const SIGNED: bool = false;

    fn max_value() -> Self {
        u32::MAX
    }

    fn min_value() -> Self {
        u32::MIN
    }

    fn one() -> Self {
        1
    }

    fn minus_one() -> Self {
        0
    }

    fn wrap_add(self, other: Self) -> Self {
        self.wrapping_add(other)
    }

    fn from_rng(rng: &mut Lcg) -> Self {
        rng.next_u128() as u32
    }

    fn to_bits(self) -> u128 {
        (self as u32) as u128
    }
}

impl TestInt for i32 {
    const WIDTH: usize = 32;
    const SIGNED: bool = true;

    fn max_value() -> Self {
        i32::MAX
    }

    fn min_value() -> Self {
        i32::MIN
    }

    fn one() -> Self {
        1
    }

    fn minus_one() -> Self {
        -1
    }

    fn wrap_add(self, other: Self) -> Self {
        self.wrapping_add(other)
    }

    fn from_rng(rng: &mut Lcg) -> Self {
        rng.next_u128() as i32
    }

    fn to_bits(self) -> u128 {
        (self as u32) as u128
    }
}

impl TestInt for u64 {
    const WIDTH: usize = 64;
    const SIGNED: bool = false;

    fn max_value() -> Self {
        u64::MAX
    }

    fn min_value() -> Self {
        u64::MIN
    }

    fn one() -> Self {
        1
    }

    fn minus_one() -> Self {
        0
    }

    fn wrap_add(self, other: Self) -> Self {
        self.wrapping_add(other)
    }

    fn from_rng(rng: &mut Lcg) -> Self {
        rng.next_u128() as u64
    }

    fn to_bits(self) -> u128 {
        (self as u64) as u128
    }
}

impl TestInt for i64 {
    const WIDTH: usize = 64;
    const SIGNED: bool = true;

    fn max_value() -> Self {
        i64::MAX
    }

    fn min_value() -> Self {
        i64::MIN
    }

    fn one() -> Self {
        1
    }

    fn minus_one() -> Self {
        -1
    }

    fn wrap_add(self, other: Self) -> Self {
        self.wrapping_add(other)
    }

    fn from_rng(rng: &mut Lcg) -> Self {
        rng.next_u128() as i64
    }

    fn to_bits(self) -> u128 {
        (self as u64) as u128
    }
}

impl TestInt for u128 {
    const WIDTH: usize = 128;
    const SIGNED: bool = false;

    fn max_value() -> Self {
        u128::MAX
    }

    fn min_value() -> Self {
        u128::MIN
    }

    fn one() -> Self {
        1
    }

    fn minus_one() -> Self {
        0
    }

    fn wrap_add(self, other: Self) -> Self {
        self.wrapping_add(other)
    }

    fn from_rng(rng: &mut Lcg) -> Self {
        rng.next_u128() as u128
    }

    fn to_bits(self) -> u128 {
        (self as u128) as u128
    }
}

impl TestInt for i128 {
    const WIDTH: usize = 128;
    const SIGNED: bool = true;

    fn max_value() -> Self {
        i128::MAX
    }

    fn min_value() -> Self {
        i128::MIN
    }

    fn one() -> Self {
        1
    }

    fn minus_one() -> Self {
        -1
    }

    fn wrap_add(self, other: Self) -> Self {
        self.wrapping_add(other)
    }

    fn from_rng(rng: &mut Lcg) -> Self {
        rng.next_u128() as i128
    }

    fn to_bits(self) -> u128 {
        (self as u128) as u128
    }
}

fn check_add<I: TestInt>(first: I, second: I, mode_a: Mode, mode_b: Mode) {
    let a = Integer::new(mode_a, I::WIDTH, first.to_bits());
    let b = Integer::new(mode_b, I::WIDTH, second.to_bits());
    let expected = first.wrap_add(second);
    let candidate = a.add_wrapped(&b);
    assert_eq!(expected.to_bits(), candidate.eject_value());
    let count = Integer::count((mode_a, mode_b), I::WIDTH as u64);
    if mode_a == Mode::Constant && mode_b == Mode::Constant {
        assert_eq!(count, Count::is(I::WIDTH as u64, 0, 0, 0));
    } else {
        assert_eq!(count, Count::is(0, 0, I::WIDTH as u64 + 1, I::WIDTH as u64 + 2));
    }
    assert_eq!(candidate.mode(), Integer::output_mode((mode_a, mode_b)));
}

fn run_test<I: TestInt>(mode_a: Mode, mode_b: Mode) {
    let mut rng = Lcg::new(0x5DEECE66D);
    for _ in 0..ITERATIONS {
        let first = I::from_rng(&mut rng);
        let second = I::from_rng(&mut rng);

        check_add(first, second, mode_a, mode_b);

        // Commutative
        check_add(second, first, mode_a, mode_b);
    }

    // Overflow
    check_add(I::max_value(), I::one(), mode_a, mode_b);
    check_add(I::one(), I::max_value(), mode_a, mode_b);

    // Underflow
    if I::SIGNED {
        check_add(I::min_value(), I::minus_one(), mode_a, mode_b);
        check_add(I::minus_one(), I::min_value(), mode_a, mode_b);
    }
}

#[test]
fn test_u8_constant_plus_constant() {
    type I = u8;
    run_test::<I>(Mode::Constant, Mode::Constant);
}

#[test]
fn test_u8_constant_plus_public() {
    type I = u8;
    run_test::<I>(Mode::Constant, Mode::Public);
}

#[test]
fn test_u8_constant_plus_private() {
    type I = u8;
    run_test::<I>(Mode::Constant, Mode::Private);
}

#[test]
fn test_u8_public_plus_constant() {
    type I = u8;
    run_test::<I>(Mode::Public, Mode::Constant);
}

#[test]
fn test_u8_private_plus_constant() {
    type I = u8;
    run_test::<I>(Mode::Private, Mode::Constant);
}

#[test]
fn test_u8_public_plus_public() {
    type I = u8;
    run_test::<I>(Mode::Public, Mode::Public);
}

#[test]
fn test_u8_public_plus_private() {
    type I = u8;
    run_test::<I>(Mode::Public, Mode::Private);
}

#[test]
fn test_u8_private_plus_public() {
    type I = u8;
    run_test::<I>(Mode::Private, Mode::Public);
}

#[test]
fn test_u8_private_plus_private() {
    type I = u8;
    run_test::<I>(Mode::Private, Mode::Private);
}

#[test]
fn test_i8_constant_plus_constant() {
    type I = i8;
    run_test::<I>(Mode::Constant, Mode::Constant);
}

#[test]
fn test_i8_constant_plus_public() {
    type I = i8;
    run_test::<I>(Mode::Constant, Mode::Public);
}

#[test]
fn test_i8_constant_plus_private() {
    type I = i8;
    run_test::<I>(Mode::Constant, Mode::Private);
}

#[test]
fn test_i8_public_plus_constant() {
    type I = i8;
    run_test::<I>(Mode::Public, Mode::Constant);
}

#[test]
fn test_i8_private_plus_constant() {
    type I = i8;
    run_test::<I>(Mode::Private, Mode::Constant);
}

#[test]
fn test_i8_public_plus_public() {
    type I = i8;
    run_test::<I>(Mode::Public, Mode::Public);
}

#[test]
fn test_i8_public_plus_private() {
    type I = i8;
    run_test::<I>(Mode::Public, Mode::Private);
}

#[test]
fn test_i8_private_plus_public() {
    type I = i8;
    run_test::<I>(Mode::Private, Mode::Public);
}

#[test]
fn test_i8_private_plus_private() {
    type I = i8;
    run_test::<I>(Mode::Private, Mode::Private);
}

#[test]
fn test_u16_constant_plus_constant() {
    type I = u16;
    run_test::<I>(Mode::Constant, Mode::Constant);
}

#[test]
fn test_u16_constant_plus_public() {
    type I = u16;
    run_test::<I>(Mode::Constant, Mode::Public);
}

#[test]
fn test_u16_constant_plus_private() {
    type I = u16;
    run_test::<I>(Mode::Constant, Mode::Private);
}

#[test]
fn test_u16_public_plus_constant() {
    type I = u16;
    run_test::<I>(Mode::Public, Mode::Constant);
}

#[test]
fn test_u16_private_plus_constant() {
    type I = u16;
    run_test::<I>(Mode::Private, Mode::Constant);
}

#[test]
fn test_u16_public_plus_public() {
    type I = u16;
    run_test::<I>(Mode::Public, Mode::Public);
}

#[test]
fn test_u16_public_plus_private() {
    type I = u16;
    run_test::<I>(Mode::Public, Mode::Private);
}

#[test]
fn test_u16_private_plus_public() {
    type I = u16;
    run_test::<I>(Mode::Private, Mode::Public);
}

#[test]
fn test_u16_private_plus_private() {
    type I = u16;
    run_test::<I>(Mode::Private, Mode::Private);
}

#[test]
fn test_i16_constant_plus_constant() {
    type I = i16;
    run_test::<I>(Mode::Constant, Mode::Constant);
}

#[test]
fn test_i16_constant_plus_public() {
    type I = i16;
    run_test::<I>(Mode::Constant, Mode::Public);
}

#[test]
fn test_i16_constant_plus_private() {
    type I = i16;
    run_test::<I>(Mode::Constant, Mode::Private);
}

#[test]
fn test_i16_public_plus_constant() {
    type I = i16;
    run_test::<I>(Mode::Public, Mode::Constant);
}

#[test]
fn test_i16_private_plus_constant() {
    type I = i16;
    run_test::<I>(Mode::Private, Mode::Constant);
}

#[test]
fn test_i16_public_plus_public() {
    type I = i16;
    run_test::<I>(Mode::Public, Mode::Public);
}

#[test]
fn test_i16_public_plus_private() {
    type I = i16;
    run_test::<I>(Mode::Public, Mode::Private);
}

#[test]
fn test_i16_private_plus_public() {
    type I = i16;
    run_test::<I>(Mode::Private, Mode::Public);
}

#[test]
fn test_i16_private_plus_private() {
    type I = i16;
    run_test::<I>(Mode::Private, Mode::Private);
}

#[test]
fn test_u32_constant_plus_constant() {
    type I = u32;
    run_test::<I>(Mode::Constant, Mode::Constant);
}

#[test]
fn test_u32_constant_plus_public() {
    type I = u32;
    run_test::<I>(Mode::Constant, Mode::Public);
}

#[test]
fn test_u32_constant_plus_private() {
    type I = u32;
    run_test::<I>(Mode::Constant, Mode::Private);
}

#[test]
fn test_u32_public_plus_constant() {
    type I = u32;
    run_test::<I>(Mode::Public, Mode::Constant);
}

#[test]
fn test_u32_private_plus_constant() {
    type I = u32;
    run_test::<I>(Mode::Private, Mode::Constant);
}

#[test]
fn test_u32_public_plus_public() {
    type I = u32;
    run_test::<I>(Mode::Public, Mode::Public);
}

#[test]
fn test_u32_public_plus_private() {
    type I = u32;
    run_test::<I>(Mode::Public, Mode::Private);
}

#[test]
fn test_u32_private_plus_public() {
    type I = u32;
    run_test::<I>(Mode::Private, Mode::Public);
}

#[test]
fn test_u32_private_plus_private() {
    type I = u32;
    run_test::<I>(Mode::Private, Mode::Private);
}

#[test]
fn test_i32_constant_plus_constant() {
    type I = i32;
    run_test::<I>(Mode::Constant, Mode::Constant);
}

#[test]
fn test_i32_constant_plus_public() {
    type I = i32;
    run_test::<I>(Mode::Constant, Mode::Public);
}

#[test]
fn test_i32_constant_plus_private() {
    type I = i32;
    run_test::<I>(Mode::Constant, Mode::Private);
}

#[test]
fn test_i32_public_plus_constant() {
    type I = i32;
    run_test::<I>(Mode::Public, Mode::Constant);
}

#[test]
fn test_i32_private_plus_constant() {
    type I = i32;
    run_test::<I>(Mode::Private, Mode::Public);
}

#[test]
fn test_i32_public_plus_public() {
    type I = i32;
    run_test::<I>(Mode::Public, Mode::Public);
}

#[test]
fn test_i32_public_plus_private() {
    type I = i32;
    run_test::<I>(Mode::Public, Mode::Private);
}

#[test]
fn test_i32_private_plus_public() {
    type I = i32;
    run_test::<I>(Mode::Private, Mode::Public);
}

#[test]
fn test_i32_private_plus_private() {
    type I = i32;
    run_test::<I>(Mode::Private, Mode::Private);
}

#[test]
fn test_u64_constant_plus_constant() {
    type I = u64;
    run_test::<I>(Mode::Constant, Mode::Constant);
}

#[test]
fn test_u64_constant_plus_public() {
    type I = u64;
    run_test::<I>(Mode::Constant, Mode::Public);
}

#[test]
fn test_u64_constant_plus_private() {
    type I = u64;
    run_test::<I>(Mode::Constant, Mode::Private);
}

#[test]
fn test_u64_public_plus_constant() {
    type I = u64;
    run_test::<I>(Mode::Public, Mode::Constant);
}

#[test]
fn test_u64_private_plus_constant() {
    type I = u64;
    run_test::<I>(Mode::Private, Mode::Constant);
}

#[test]
fn test_u64_public_plus_public() {
    type I = u64;
    run_test::<I>(Mode::Public, Mode::Public);
}

#[test]
fn test_u64_public_plus_private() {
    type I = u64;
    run_test::<I>(Mode::Public, Mode::Private);
}

#[test]
fn test_u64_private_plus_public() {
    type I = u64;
    run_test::<I>(Mode::Private, Mode::Public);
}

#[test]
fn test_u64_private_plus_private() {
    type I = u64;
    run_test::<I>(Mode::Private, Mode::Private);
}

#[test]
fn test_i64_constant_plus_constant() {
    type I = i64;
    run_test::<I>(Mode::Constant, Mode::Constant);
}

#[test]
fn test_i64_constant_plus_public() {
    type I = i64;
    run_test::<I>(Mode::Constant, Mode::Public);
}

#[test]
fn test_i64_constant_plus_private() {
    type I = i64;
    run_test::<I>(Mode::Constant, Mode::Private);
}

#[test]
fn test_i64_public_plus_constant() {
    type I = i64;
    run_test::<I>(Mode::Public, Mode::Constant);
}

#[test]
fn test_i64_private_plus_constant() {
    type I = i64;
    run_test::<I>(Mode::Private, Mode::Constant);
}

#[test]
fn test_i64_public_plus_public() {
    type I = i64;
    run_test::<I>(Mode::Public, Mode::Public);
}

#[test]
fn test_i64_public_plus_private() {
    type I = i64;
    run_test::<I>(Mode::Public, Mode::Private);
}

#[test]
fn test_i64_private_plus_public() {
    type I = i64;
    run_test::<I>(Mode::Private, Mode::Public);
}

#[test]
fn test_i64_private_plus_private() {
    type I = i64;
    run_test::<I>(Mode::Private, Mode::Private);
}

#[test]
fn test_u128_constant_plus_constant() {
    type I = u128;
    run_test::<I>(Mode::Constant, Mode::Constant);
}

#[test]
fn test_u128_constant_plus_public() {
    type I = u128;
    run_test::<I>(Mode::Constant, Mode::Public);
}

#[test]
fn test_u128_constant_plus_private() {
    type I = u128;
    run_test::<I>(Mode::Constant, Mode::Private);
}

#[test]
fn test_u128_public_plus_constant() {
    type I = u128;
    run_test::<I>(Mode::Public, Mode::Constant);
}

#[test]
fn test_u128_private_plus_constant() {
    type I = u128;
    run_test::<I>(Mode::Private, Mode::Constant);
}

#[test]
fn test_u128_public_plus_public() {
    type I = u128;
    run_test::<I>(Mode::Public, Mode::Public);
}

#[test]
fn test_u128_public_plus_private() {
    type I = u128;
    run_test::<I>(Mode::Public, Mode::Private);
}

#[test]
fn test_u128_private_plus_public() {
    type I = u128;
    run_test::<I>(Mode::Private, Mode::Public);
}

#[test]
fn test_u128_private_plus_private() {
    type I = u128;
    run_test::<I>(Mode::Private, Mode::Private);
}

#[test]
fn test_i128_constant_plus_constant() {
    type I = i128;
    run_test::<I>(Mode::Constant, Mode::Constant);
}

#[test]
fn test_i128_constant_plus_public() {
    type I = i128;
    run_test::<I>(Mode::Constant, Mode::Public);
}

#[test]
fn test_i128_constant_plus_private() {
    type I = i128;
    run_test::<I>(Mode::Constant, Mode::Private);
}

#[test]
fn test_i128_public_plus_constant() {
    type I = i128;
    run_test::<I>(Mode::Public, Mode::Constant);
}

#[test]
fn test_i128_private_plus_constant() {
    type I = i128;
    run_test::<I>(Mode::Private, Mode::Constant);
}

#[test]
fn test_i128_public_plus_public() {
    type I = i128;
    run_test::<I>(Mode::Public, Mode::Public);
}

#[test]
fn test_i128_public_plus_private() {
    type I = i128;
    run_test::<I>(Mode::Public, Mode::Private);
}

#[test]
fn test_i128_private_plus_public() {
    type I = i128;
    run_test::<I>(Mode::Private, Mode::Public);
}

#[test]
fn test_i128_private_plus_private() {
    type I = i128;
    run_test::<I>(Mode::Private, Mode::Private);
}
