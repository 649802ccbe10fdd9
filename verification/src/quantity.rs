//! Quantities: a numeric payload tagged with a [`Unit`].
//!
//! The payload type is a parameter and the library never computes on it:
//! each arithmetic operation takes the combined payload from the caller
//! and is verified to handle the unit tags correctly. Addition and
//! subtraction demand, as a `requires` clause, that both operands carry
//! the same dimension, so a verified caller that mixes dimensions is
//! rejected when it is checked, not when it runs. Multiplication,
//! division and reciprocal state the dimension of their result through
//! the unit algebra of the crate root.

use vstd::prelude::*;
use crate::{Unit, dims_div, dims_fit, dims_inv, dims_mul};

verus! {

/// A numeric payload tagged with the unit it is measured in.
///
/// The tag of a quantity never changes in place: every operation that
/// changes dimension returns a new quantity, and the in-place operations
/// are exactly those whose contracts keep the tag fixed.
#[derive(Clone, Copy, Debug)]
pub struct Quantity<V> {
    /// The raw payload.
    pub value: V,
    /// The unit the payload is measured in.
    pub unit: Unit,
}

impl<V> Quantity<V> {
    /// Wrap a payload with a unit tag. The payload is accepted as given;
    /// there is nothing to validate.
    pub fn new(value: V, unit: Unit) -> (q: Self)
        ensures
            q.value == value,
            q.unit == unit,
    {
        Quantity { value, unit }
    }

    /// The sum of two quantities of the same dimension: `sum` is the sum
    /// of the payloads, computed by the caller, and the unit tag carries
    /// over unchanged. Operands of different dimensions fail the
    /// `requires` clause, so a verified caller cannot add them.
    pub fn add(self, rhs: Self, sum: V) -> (r: Self)
        requires
            self.unit == rhs.unit,
        ensures
            r.unit == self.unit,
            r.value == sum,
    {
        Quantity { value: sum, unit: self.unit }
    }

    /// The difference of two quantities of the same dimension;
    /// `difference` is the difference of the payloads, computed by the
    /// caller. The unit tag carries over unchanged.
    pub fn sub(self, rhs: Self, difference: V) -> (r: Self)
        requires
            self.unit == rhs.unit,
        ensures
            r.unit == self.unit,
            r.value == difference,
    {
        Quantity { value: difference, unit: self.unit }
    }

    /// In-place addition of a quantity of the same dimension: the payload
    /// becomes `sum` and the unit tag stays what it was. Only operations
    /// that cannot change the tag exist in-place.
    pub fn add_assign(&mut self, rhs: Self, sum: V)
        requires
            old(self).unit == rhs.unit,
        ensures
            final(self).unit == old(self).unit,
            final(self).value == sum,
    {
        self.value = sum;
    }

    /// In-place subtraction of a quantity of the same dimension: the
    /// payload becomes `difference` and the unit tag stays what it was.
    pub fn sub_assign(&mut self, rhs: Self, difference: V)
        requires
            old(self).unit == rhs.unit,
        ensures
            final(self).unit == old(self).unit,
            final(self).value == difference,
    {
        self.value = difference;
    }

    /// Scaling by a bare number, in either order, and division by a bare
    /// number: the payload becomes `scaled` and the unit tag is
    /// unchanged.
    pub fn scale(self, scaled: V) -> (r: Self)
        ensures
            r.unit == self.unit,
            r.value == scaled,
    {
        Quantity { value: scaled, unit: self.unit }
    }

    /// In-place scaling by a bare number: the payload becomes `scaled`
    /// and the unit tag stays what it was.
    pub fn scale_assign(&mut self, scaled: V)
        ensures
            final(self).unit == old(self).unit,
            final(self).value == scaled,
    {
        self.value = scaled;
    }

    /// The product of two quantities of any dimensions: `product` is the
    /// product of the payloads, computed by the caller, and the result is
    /// tagged with the product of the two units.
    pub fn mul(self, rhs: Self, product: V) -> (r: Self)
        requires
            dims_fit(dims_mul(self.unit.dims(), rhs.unit.dims())),
        ensures
            r.unit.dims() == dims_mul(self.unit.dims(), rhs.unit.dims()),
            r.value == product,
    {
        Quantity { value: product, unit: self.unit.mul(rhs.unit) }
    }

    /// The quotient of two quantities of any dimensions: `quotient` is
    /// the quotient of the payloads, computed by the caller, and the
    /// result is tagged with the quotient of the two units.
    pub fn div(self, rhs: Self, quotient: V) -> (r: Self)
        requires
            dims_fit(dims_div(self.unit.dims(), rhs.unit.dims())),
        ensures
            r.unit.dims() == dims_div(self.unit.dims(), rhs.unit.dims()),
            r.value == quotient,
    {
        Quantity { value: quotient, unit: self.unit.div(rhs.unit) }
    }

    /// A bare number divided by this quantity: `reciprocal` is that
    /// quotient of the payloads, computed by the caller, and the result
    /// is tagged with the inverted unit.
    pub fn recip(self, reciprocal: V) -> (r: Self)
        requires
            dims_fit(dims_inv(self.unit.dims())),
        ensures
            r.unit.dims() == dims_inv(self.unit.dims()),
            r.value == reciprocal,
    {
        Quantity { value: reciprocal, unit: self.unit.inv() }
    }
}

} // verus!
