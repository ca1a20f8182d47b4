//! A plain millisecond counter without the positivity rule.
//!
//! Unlike [`crate::i2p_date::I2pDate`], a [`Date`] places no constraint on
//! its millisecond count: zero stands for an undefined date.

use vstd::prelude::*;

use crate::i2p_integer::I2pInt64;

verus! {

/// A millisecond count since January 1, 1970 (UNIX time); zero means the
/// date is undefined.
#[derive(Clone, Copy, Debug, PartialEq, Eq)]
pub struct Date {
    /// The milliseconds since the epoch.
    pub milliseconds: I2pInt64,
}

impl Date {
    /// Builds a date from any millisecond count, zero included.
    pub fn new(milliseconds: I2pInt64) -> (r: Date)
        ensures
            r.milliseconds == milliseconds,
    {
        Date { milliseconds }
    }
}

} // verus!
