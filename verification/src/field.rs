//! Prime-field scalars, held as their canonical integer representatives.

use vstd::prelude::*;

verus! {

/// A prime-field scalar, represented by its canonical integer value.
///
/// The bounded-domain addition engine only ever forms values far below any
/// realistic field modulus, so machine arithmetic on the representative
/// agrees with field arithmetic on every value the engine produces. The
/// operations below therefore require that no reduction would be needed;
/// equality is exact, never approximate.
#[derive(Clone, Copy, Debug, PartialEq, Eq, Structural)]
pub struct FieldElement {
    pub value: u64,
}

impl FieldElement {
    /// The additive identity.
    pub fn zero() -> (r: FieldElement)
        ensures
            r.value == 0,
    {
        FieldElement { value: 0 }
    }

    /// The multiplicative identity.
    pub fn one() -> (r: FieldElement)
        ensures
            r.value == 1,
    {
        FieldElement { value: 1 }
    }

    /// The scalar with the given canonical value.
    pub fn from_u64(v: u64) -> (r: FieldElement)
        ensures
            r.value == v,
    {
        FieldElement { value: v }
    }

    /// Field addition, on representatives small enough that no modular
    /// reduction occurs.
    pub fn add(self, other: FieldElement) -> (r: FieldElement)
        requires
            self.value + other.value <= u64::MAX,
        ensures
            r.value == self.value + other.value,
    {
        FieldElement { value: self.value + other.value }
    }

    /// Field multiplication, on representatives small enough that no modular
    /// reduction occurs.
    pub fn mul(self, other: FieldElement) -> (r: FieldElement)
        requires
            self.value * other.value <= u64::MAX,
        ensures
            r.value == self.value * other.value,
    {
        FieldElement { value: self.value * other.value }
    }
}

} // verus!
