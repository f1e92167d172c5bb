use fibonacci_air::field::Field;
use fibonacci_air::mersenne31::{M31, MERSENNE_PRIME};

#[test]
fn prime_is_two_to_the_31_minus_one() {
    assert_eq!(MERSENNE_PRIME, 2147483647);
    assert_eq!(MERSENNE_PRIME as u64, (1u64 << 31) - 1);
}

#[test]
fn zero_and_one_are_canonical() {
    assert_eq!(M31::zero().as_canonical_u32(), 0);
    assert_eq!(M31::one().as_canonical_u32(), 1);
}

#[test]
fn from_u32_keeps_small_values() {
    assert_eq!(M31::from_u32(0).as_canonical_u32(), 0);
    assert_eq!(M31::from_u32(21).as_canonical_u32(), 21);
    assert_eq!(M31::from_u32(MERSENNE_PRIME - 1).as_canonical_u32(), MERSENNE_PRIME - 1);
}

#[test]
fn from_u32_reduces_modulo_the_prime() {
    assert_eq!(M31::from_u32(MERSENNE_PRIME).as_canonical_u32(), 0);
    assert_eq!(M31::from_u32(MERSENNE_PRIME + 5).as_canonical_u32(), 5);
    assert_eq!(M31::from_u32(1u32 << 31).as_canonical_u32(), 1);
    assert_eq!(M31::from_u32(u32::MAX).as_canonical_u32(), 1);
}

#[test]
fn add_is_the_sum_for_small_values() {
    let s = M31::from_u32(8).add(M31::from_u32(13));
    assert_eq!(s.as_canonical_u32(), 21);
}

#[test]
fn add_wraps_at_the_prime() {
    let top = M31::from_u32(MERSENNE_PRIME - 1);
    assert_eq!(top.add(M31::one()).as_canonical_u32(), 0);
    assert_eq!(top.add(M31::from_u32(2)).as_canonical_u32(), 1);
    assert_eq!(top.add(top).as_canonical_u32(), MERSENNE_PRIME - 2);
}

#[test]
fn add_zero_changes_nothing() {
    let x = M31::from_u32(123456789);
    assert_eq!(x.add(M31::zero()).as_canonical_u32(), 123456789);
    assert_eq!(M31::zero().add(x).as_canonical_u32(), 123456789);
}

#[test]
fn mul_is_the_product_for_small_values() {
    assert_eq!(M31::from_u32(6).mul(M31::from_u32(7)).as_canonical_u32(), 42);
    assert_eq!(M31::from_u32(6).mul(M31::zero()).as_canonical_u32(), 0);
    assert_eq!(M31::from_u32(6).mul(M31::one()).as_canonical_u32(), 6);
}

#[test]
fn mul_reduces_modulo_the_prime() {
    let top = M31::from_u32(MERSENNE_PRIME - 1);
    assert_eq!(top.mul(top).as_canonical_u32(), 1);
    let x = M31::from_u32(1 << 16);
    assert_eq!(x.mul(x).as_canonical_u32(), 2);
    let a: u64 = 1234567890;
    let b: u64 = 2000000000;
    let expected = ((a * b) % (MERSENNE_PRIME as u64)) as u32;
    assert_eq!(
        M31::from_u32(a as u32).mul(M31::from_u32(b as u32)).as_canonical_u32(),
        expected
    );
}

#[test]
fn equals_compares_elements() {
    assert!(M31::from_u32(5).equals(M31::from_u32(5)));
    assert!(!M31::from_u32(5).equals(M31::from_u32(6)));
    assert!(M31::from_u32(MERSENNE_PRIME).equals(M31::zero()));
}
