use vstd::prelude::*;

use crate::units::UNITS_PER_TOKEN;

verus! {

/// Represents a non-zero number of consumed tokens.
///
/// The amount is kept exactly, in token units, fractions of a token included.
/// A bucket hands out tokens only when at least one whole token is taken, so
/// every `Tokens` value a bucket returns holds at least one token.
#[derive(Debug)]
pub struct Tokens {
    pub(crate) units: u128,
}

impl Tokens {
    /// The amount in token units.
    pub closed spec fn units_view(&self) -> int {
        self.units as int
    }

    /// Every `Tokens` value holds at least one unit.
    pub open spec fn wf(&self) -> bool {
        self.units_view() > 0
    }

    /// Creates a new `Tokens` instance from a non-zero number of whole tokens.
    pub fn new(value: u64) -> (r: Self)
        requires
            value > 0,
        ensures
            r.wf(),
            r.units_view() == value * UNITS_PER_TOKEN,
    {
        Tokens { units: (value as u128) * UNITS_PER_TOKEN }
    }

    /// Creates a new `Tokens` instance from an amount in token units.
    ///
    /// Returns `None` exactly when the amount is zero.
    pub fn new_checked(units: u128) -> (r: Option<Self>)
        ensures
            r is None <==> units == 0,
            r matches Some(t) ==> t.wf() && t.units_view() == units,
    {
        if units == 0 {
            None
        } else {
            Some(Tokens { units })
        }
    }

    /// Returns the number of whole tokens (fractions are dropped), saturating at `u64::MAX`.
    pub fn as_u64(&self) -> (r: u64)
        ensures
            r == if self.units_view() / (UNITS_PER_TOKEN as int) <= u64::MAX {
                self.units_view() / (UNITS_PER_TOKEN as int)
            } else {
                u64::MAX as int
            },
    {
        let whole = self.units / UNITS_PER_TOKEN;
        if whole > (u64::MAX as u128) {
            u64::MAX
        } else {
            whole as u64
        }
    }

    /// Returns the exact amount in token units.
    pub fn as_units(&self) -> (r: u128)
        ensures
            r == self.units_view(),
    {
        self.units
    }
}

} // verus!
