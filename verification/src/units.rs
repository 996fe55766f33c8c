//! The unit a summed request rate is shown in.

use vstd::prelude::*;

verus! {

/// The decimal unit a count is shown in.
#[derive(Debug, Clone, Copy, PartialEq, Eq, Structural)]
pub enum UnitScale {
    /// Thousand millions, shown with `G`.
    Giga,
    /// Millions, shown with `M`.
    Mega,
    /// Thousands, shown with `K`.
    Kilo,
    /// The count itself, with no suffix.
    Plain,
}

/// The number a count is divided by to be shown in a unit.
pub open spec fn scale_divisor(u: UnitScale) -> nat {
    match u {
        UnitScale::Giga => 1_000_000_000,
        UnitScale::Mega => 1_000_000,
        UnitScale::Kilo => 1_000,
        UnitScale::Plain => 1,
    }
}

/// The largest unit of which the count holds at least one whole.
pub open spec fn unit_scale(i: nat) -> UnitScale {
    if i >= 1_000_000_000 {
        UnitScale::Giga
    } else if i >= 1_000_000 {
        UnitScale::Mega
    } else if i >= 1_000 {
        UnitScale::Kilo
    } else {
        UnitScale::Plain
    }
}

impl UnitScale {
    /// The unit a count is shown in: the largest of which it holds at least
    /// one whole, so that below `Giga` the shown number is less than 1000,
    /// and above `Plain` it is at least 1.
    pub fn new(i: u64) -> (u: UnitScale)
        ensures
            u == unit_scale(i as nat),
            u != UnitScale::Plain ==> i >= scale_divisor(u),
            u != UnitScale::Giga ==> i < 1000 * scale_divisor(u),
    {
        if i / 1_000_000_000 > 0 {
            UnitScale::Giga
        } else if i / 1_000_000 > 0 {
            UnitScale::Mega
        } else if i / 1_000 > 0 {
            UnitScale::Kilo
        } else {
            UnitScale::Plain
        }
    }

    /// The number a count is divided by to be shown in this unit.
    pub fn divisor(&self) -> (d: u64)
        ensures
            d == scale_divisor(*self),
    {
        match *self {
            UnitScale::Giga => 1_000_000_000,
            UnitScale::Mega => 1_000_000,
            UnitScale::Kilo => 1_000,
            UnitScale::Plain => 1,
        }
    }
}

} // verus!
