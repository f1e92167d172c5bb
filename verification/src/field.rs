//! The arithmetic that traces and constraints are written over.

use vstd::prelude::*;

verus! {

/// A prime field. Each element is known in contracts by its canonical
/// representative, a natural number below the modulus.
pub trait Field: Sized + Copy {
    /// The number of elements of the field.
    spec fn modulus() -> nat;

    /// The canonical representative of an element.
    spec fn value(self) -> nat;

    /// A field has at least the two elements zero and one.
    proof fn modulus_is_proper()
        ensures
            Self::modulus() >= 2,
    ;

    /// Two elements with the same representative are the same element.
    proof fn value_is_injective(self, other: Self)
        requires
            self.value() == other.value(),
        ensures
            self == other,
    ;

    /// The additive identity.
    fn zero() -> (r: Self)
        ensures
            r.value() == 0,
    ;

    /// The multiplicative identity.
    fn one() -> (r: Self)
        ensures
            r.value() == 1,
    ;

    /// The image of an unsigned integer in the field.
    fn from_u32(n: u32) -> (r: Self)
        ensures
            r.value() == (n as nat) % Self::modulus(),
    ;

    /// The sum of two elements.
    fn add(self, rhs: Self) -> (r: Self)
        ensures
            r.value() == (self.value() + rhs.value()) % Self::modulus(),
    ;

    /// The product of two elements.
    fn mul(self, rhs: Self) -> (r: Self)
        ensures
            r.value() == (self.value() * rhs.value()) % Self::modulus(),
    ;

    /// Whether two elements are the same element of the field.
    fn equals(self, rhs: Self) -> (r: bool)
        ensures
            r == (self.value() == rhs.value()),
    ;
}

} // verus!
