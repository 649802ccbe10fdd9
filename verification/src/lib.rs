//! Dimensional analysis over the seven SI base quantities.
//!
//! A [`Unit`] records the exponent of each base unit (metre, kilogram,
//! second, ampere, kelvin, mole, candela) of a physical dimension, and the
//! algebra on units (inversion, multiplication, division) is exponent
//! arithmetic. A [`Quantity`] ties a numeric payload to a unit, and its
//! contracts make dimensional consistency a verification-time obligation:
//! adding quantities of different dimensions is rejected before the program
//! runs.

use vstd::prelude::*;

pub mod quantity;
pub mod render;
pub mod units;

pub use quantity::Quantity;

verus! {

/// The dimension of a unit as unbounded integers: the mathematical model
/// that contracts and laws are stated over. Field names follow the symbols
/// of the SI base units.
#[allow(non_snake_case)]
pub ghost struct Dims {
    pub m: int,
    pub kg: int,
    pub s: int,
    pub A: int,
    pub K: int,
    pub mol: int,
    pub cd: int,
}

/// The dimensionless dimension: every exponent zero. It is the identity of
/// [`dims_mul`].
pub open spec fn dims_none() -> Dims {
    Dims { m: 0, kg: 0, s: 0, A: 0, K: 0, mol: 0, cd: 0 }
}

/// Inversion: every exponent negated.
pub open spec fn dims_inv(d: Dims) -> Dims {
    Dims {
        m: -d.m,
        kg: -d.kg,
        s: -d.s,
        A: -d.A,
        K: -d.K,
        mol: -d.mol,
        cd: -d.cd,
    }
}

/// Multiplication of dimensions: exponents added field by field.
pub open spec fn dims_mul(a: Dims, b: Dims) -> Dims {
    Dims {
        m: a.m + b.m,
        kg: a.kg + b.kg,
        s: a.s + b.s,
        A: a.A + b.A,
        K: a.K + b.K,
        mol: a.mol + b.mol,
        cd: a.cd + b.cd,
    }
}

/// Division of dimensions: exponents subtracted field by field.
pub open spec fn dims_div(a: Dims, b: Dims) -> Dims {
    Dims {
        m: a.m - b.m,
        kg: a.kg - b.kg,
        s: a.s - b.s,
        A: a.A - b.A,
        K: a.K - b.K,
        mol: a.mol - b.mol,
        cd: a.cd - b.cd,
    }
}

/// Whether every exponent of `d` fits the machine width used by [`Unit`].
pub open spec fn dims_fit(d: Dims) -> bool {
    &&& i32::MIN <= d.m <= i32::MAX
    &&& i32::MIN <= d.kg <= i32::MAX
    &&& i32::MIN <= d.s <= i32::MAX
    &&& i32::MIN <= d.A <= i32::MAX
    &&& i32::MIN <= d.K <= i32::MAX
    &&& i32::MIN <= d.mol <= i32::MAX
    &&& i32::MIN <= d.cd <= i32::MAX
}

/// A physical unit: one signed exponent per SI base unit. `m^1` is the
/// metre, `m^1 * s^-2` an acceleration, and the unit with all exponents
/// zero is dimensionless.
///
/// Exponents are kept in an `i32`, a deliberately generous width: the
/// contracts of [`Unit::inv`], [`Unit::mul`] and [`Unit::div`] make a
/// combination that would leave that range a verification-time error
/// rather than a runtime one.
#[allow(non_snake_case)]
#[derive(Clone, Copy, Debug, PartialEq, Eq, Structural)]
pub struct Unit {
    pub m: i32,
    pub kg: i32,
    pub s: i32,
    pub A: i32,
    pub K: i32,
    pub mol: i32,
    pub cd: i32,
}

impl Unit {
    /// The dimension this unit denotes, as unbounded integers.
    pub open spec fn dims(self) -> Dims {
        Dims {
            m: self.m as int,
            kg: self.kg as int,
            s: self.s as int,
            A: self.A as int,
            K: self.K as int,
            mol: self.mol as int,
            cd: self.cd as int,
        }
    }

    /// Construct a unit from its seven base-unit exponents, given in the
    /// fixed order metre, kilogram, second, ampere, kelvin, mole, candela.
    #[allow(non_snake_case)]
    pub fn new(m: i32, kg: i32, s: i32, A: i32, K: i32, mol: i32, cd: i32) -> (u: Unit)
        ensures
            u.dims() == (Dims {
                m: m as int,
                kg: kg as int,
                s: s as int,
                A: A as int,
                K: K as int,
                mol: mol as int,
                cd: cd as int,
            }),
    {
        Unit { m, kg, s, A, K, mol, cd }
    }

    /// Invert this unit by negating all exponents.
    pub fn inv(self) -> (r: Self)
        requires
            dims_fit(dims_inv(self.dims())),
        ensures
            r.dims() == dims_inv(self.dims()),
    {
        Self {
            m: -self.m,
            kg: -self.kg,
            s: -self.s,
            A: -self.A,
            K: -self.K,
            mol: -self.mol,
            cd: -self.cd,
        }
    }

    /// Multiply two units by adding their exponents.
    pub fn mul(self, rhs: Self) -> (r: Self)
        requires
            dims_fit(dims_mul(self.dims(), rhs.dims())),
        ensures
            r.dims() == dims_mul(self.dims(), rhs.dims()),
    {
        Self {
            m: self.m + rhs.m,
            kg: self.kg + rhs.kg,
            s: self.s + rhs.s,
            A: self.A + rhs.A,
            K: self.K + rhs.K,
            mol: self.mol + rhs.mol,
            cd: self.cd + rhs.cd,
        }
    }

    /// Divide two units by subtracting their exponents.
    pub fn div(self, rhs: Self) -> (r: Self)
        requires
            dims_fit(dims_div(self.dims(), rhs.dims())),
        ensures
            r.dims() == dims_div(self.dims(), rhs.dims()),
    {
        Self {
            m: self.m - rhs.m,
            kg: self.kg - rhs.kg,
            s: self.s - rhs.s,
            A: self.A - rhs.A,
            K: self.K - rhs.K,
            mol: self.mol - rhs.mol,
            cd: self.cd - rhs.cd,
        }
    }
}

/// Two units denote the same dimension exactly when they are equal, so
/// the laws below, stated over dimensions, carry over to the units
/// themselves.
pub proof fn lemma_dims_injective(a: Unit, b: Unit)
    ensures
        a.dims() == b.dims() <==> a == b,
{
}

/// Inversion is an involution: inverting a unit twice gives the unit back.
pub proof fn lemma_inv_involutive(u: Unit)
    ensures
        dims_inv(dims_inv(u.dims())) == u.dims(),
{
}

/// Unit multiplication is commutative.
pub proof fn lemma_mul_commutative(a: Unit, b: Unit)
    ensures
        dims_mul(a.dims(), b.dims()) == dims_mul(b.dims(), a.dims()),
{
}

/// Unit multiplication is associative.
pub proof fn lemma_mul_associative(a: Unit, b: Unit, c: Unit)
    ensures
        dims_mul(dims_mul(a.dims(), b.dims()), c.dims())
            == dims_mul(a.dims(), dims_mul(b.dims(), c.dims())),
{
}

/// Dividing by a unit is multiplying by its inverse.
pub proof fn lemma_div_is_mul_inv(a: Unit, b: Unit)
    ensures
        dims_div(a.dims(), b.dims()) == dims_mul(a.dims(), dims_inv(b.dims())),
{
}

/// The dimensionless unit is the identity of multiplication.
pub proof fn lemma_mul_identity(u: Unit)
    ensures
        dims_mul(u.dims(), dims_none()) == u.dims(),
{
}

/// Dividing a unit by itself gives the dimensionless unit.
pub proof fn lemma_div_self(u: Unit)
    ensures
        dims_div(u.dims(), u.dims()) == dims_none(),
{
}

} // verus!
