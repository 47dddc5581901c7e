//! A number wrapper that renders itself as text.

use vstd::prelude::*;
use crate::text::{decimal, decimal_seq};

verus! {

/// A large unsigned number.
pub struct BigNumber {
    pub number: u64,
}

/// Values that render themselves as text.
pub trait Display {
    /// The value's text.
    fn display(&self) -> String;
}

impl BigNumber {
    /// The number `number`.
    pub fn new(number: u64) -> (r: BigNumber)
        ensures
            r.number == number,
    {
        BigNumber { number }
    }
}

impl Display for BigNumber {
    /// The number in decimal, as `{:?}` prints it.
    fn display(&self) -> (r: String)
        ensures
            r@ == decimal_seq(self.number as nat),
    {
        decimal(self.number)
    }
}

} // verus!
