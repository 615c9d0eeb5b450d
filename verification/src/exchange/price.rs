//! Prices as integer multiples of the smallest price unit, and price steps (ticks).

use vstd::prelude::*;

verus! {

/// A price, held as a count of the smallest price unit.
#[derive(Debug, Clone, Copy, PartialEq, Eq, PartialOrd, Ord, Hash, Structural)]
pub struct Price {
    pub units: i64,
}

/// A tick: the distance between neighbouring price levels, in smallest price units.
#[derive(Debug, Clone, Copy, PartialEq, Eq, Hash, Structural)]
pub struct PriceStep {
    pub units: i64,
}

impl Price {
    /// The price `steps` ticks of `step` away (upward for positive `steps`).
    pub fn add_steps(self, steps: i64, step: PriceStep) -> (p: Price)
        requires
            i64::MIN <= self.units + steps * step.units <= i64::MAX,
        ensures
            p.units == self.units + steps * step.units,
    {
        let moved = steps as i128 * step.units as i128;
        assert(moved == steps * step.units) by (nonlinear_arith)
            requires
                moved == steps as i128 * step.units as i128,
        ;
        Price { units: (self.units as i128 + moved) as i64 }
    }
}

} // verus!
