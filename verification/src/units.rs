//! The seven SI base units, one constructor per base quantity, together
//! with the dimensionless unit. Derived units are built from these with
//! [`Unit::mul`], [`Unit::div`] and [`Unit::inv`].

#![allow(non_snake_case)]

use vstd::prelude::*;
use crate::{Dims, Unit, dims_none};

verus! {

/// The dimensionless unit: every exponent zero.
pub fn none() -> (u: Unit)
    ensures
        u.dims() == dims_none(),
{
    Unit { m: 0, kg: 0, s: 0, A: 0, K: 0, mol: 0, cd: 0 }
}

/// Time in seconds.
pub fn s() -> (u: Unit)
    ensures
        u.dims() == (Dims { s: 1, ..dims_none() }),
{
    Unit { m: 0, kg: 0, s: 1, A: 0, K: 0, mol: 0, cd: 0 }
}

/// Length in metres.
pub fn m() -> (u: Unit)
    ensures
        u.dims() == (Dims { m: 1, ..dims_none() }),
{
    Unit { m: 1, kg: 0, s: 0, A: 0, K: 0, mol: 0, cd: 0 }
}

/// Mass in kilograms.
pub fn kg() -> (u: Unit)
    ensures
        u.dims() == (Dims { kg: 1, ..dims_none() }),
{
    Unit { m: 0, kg: 1, s: 0, A: 0, K: 0, mol: 0, cd: 0 }
}

/// Electric current in amperes.
pub fn A() -> (u: Unit)
    ensures
        u.dims() == (Dims { A: 1, ..dims_none() }),
{
    Unit { m: 0, kg: 0, s: 0, A: 1, K: 0, mol: 0, cd: 0 }
}

/// Temperature in kelvins.
pub fn K() -> (u: Unit)
    ensures
        u.dims() == (Dims { K: 1, ..dims_none() }),
{
    Unit { m: 0, kg: 0, s: 0, A: 0, K: 1, mol: 0, cd: 0 }
}

/// Amount of substance in moles.
pub fn mol() -> (u: Unit)
    ensures
        u.dims() == (Dims { mol: 1, ..dims_none() }),
{
    Unit { m: 0, kg: 0, s: 0, A: 0, K: 0, mol: 1, cd: 0 }
}

/// Luminous intensity in candelas.
pub fn cd() -> (u: Unit)
    ensures
        u.dims() == (Dims { cd: 1, ..dims_none() }),
{
    Unit { m: 0, kg: 0, s: 0, A: 0, K: 0, mol: 0, cd: 1 }
}


} // verus!
