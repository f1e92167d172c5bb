//! The field of integers modulo `2^31 - 1`, with its arithmetic done by the
//! `p3-mersenne-31` crate.

use crate::field::Field;
use p3_field::PrimeCharacteristicRing;
use p3_field::PrimeField32;
use p3_mersenne_31::Mersenne31;
use vstd::prelude::*;

verus! {

/// The Mersenne prime `2^31 - 1`.
pub const MERSENNE_PRIME: u32 = 0x7fff_ffff;

/// An element of the field modulo `2^31 - 1`, held as its canonical
/// representative.
#[derive(Clone, Copy, Debug)]
pub struct M31 {
    raw: u32,
}

/// Calls `Mersenne31::ZERO` and reads it back with `as_canonical_u32`: the
/// constant is the element whose canonical representative is 0.
#[verifier::external_body]
fn mersenne_zero() -> (r: u32)
    ensures
        r == 0,
{
    Mersenne31::ZERO.as_canonical_u32()
}

/// Calls `Mersenne31::ONE` and reads it back with `as_canonical_u32`: the
/// constant is the element whose canonical representative is 1.
#[verifier::external_body]
fn mersenne_one() -> (r: u32)
    ensures
        r == 1,
{
    Mersenne31::ONE.as_canonical_u32()
}

/// Calls `Mersenne31::from_u32` and reads the element back with
/// `as_canonical_u32`: the element is the class of `n` modulo the prime, and
/// its canonical representative is the remainder of `n`.
#[verifier::external_body]
fn mersenne_from_u32(n: u32) -> (r: u32)
    ensures
        r == n % MERSENNE_PRIME,
{
    Mersenne31::from_u32(n).as_canonical_u32()
}

/// Calls `+` of `Mersenne31` on the elements that `from_u32` makes of `a` and
/// `b`, and reads the sum back with `as_canonical_u32`: the result is the
/// remainder of the integer sum modulo the prime.
#[verifier::external_body]
fn mersenne_add(a: u32, b: u32) -> (r: u32)
    ensures
        r == (a + b) % (MERSENNE_PRIME as int),
{
    (Mersenne31::from_u32(a) + Mersenne31::from_u32(b)).as_canonical_u32()
}

/// Calls `*` of `Mersenne31` on the elements that `from_u32` makes of `a` and
/// `b`, and reads the product back with `as_canonical_u32`: the result is the
/// remainder of the integer product modulo the prime.
#[verifier::external_body]
fn mersenne_mul(a: u32, b: u32) -> (r: u32)
    ensures
        r == (a * b) % (MERSENNE_PRIME as int),
{
    (Mersenne31::from_u32(a) * Mersenne31::from_u32(b)).as_canonical_u32()
}

impl M31 {
    #[verifier::type_invariant]
    spec fn canonical(self) -> bool {
        self.raw < MERSENNE_PRIME
    }

    /// The representative as an integer, below the prime.
    pub fn as_canonical_u32(&self) -> (r: u32)
        ensures
            r == self.value(),
            r < MERSENNE_PRIME,
    {
        proof {
            use_type_invariant(self);
        }
        self.raw
    }
}

impl Field for M31 {
    closed spec fn modulus() -> nat {
        MERSENNE_PRIME as nat
    }

    closed spec fn value(self) -> nat {
        self.raw as nat
    }

    proof fn modulus_is_proper() {
    }

    proof fn value_is_injective(self, other: Self) {
    }

    fn zero() -> (r: Self) {
        M31 { raw: mersenne_zero() }
    }

    fn one() -> (r: Self) {
        M31 { raw: mersenne_one() }
    }

    fn from_u32(n: u32) -> (r: Self) {
        M31 { raw: mersenne_from_u32(n) }
    }

    fn add(self, rhs: Self) -> (r: Self) {
        M31 { raw: mersenne_add(self.raw, rhs.raw) }
    }

    fn mul(self, rhs: Self) -> (r: Self) {
        M31 { raw: mersenne_mul(self.raw, rhs.raw) }
    }

    fn equals(self, rhs: Self) -> (r: bool) {
        self.raw == rhs.raw
    }
}

/// The modulus of [`M31`] is the Mersenne prime.
pub proof fn mersenne_modulus()
    ensures
        M31::modulus() == MERSENNE_PRIME,
{
}

} // verus!
