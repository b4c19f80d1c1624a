//! The fixed rate at which the pool exchanges its two assets.

use vstd::prelude::*;
use crate::error::DexError;
use crate::math::{mul_div_u64, scale};

verus! {

/// Numerator of the rate that the exchange runs at: one token is worth
/// `PRICE_NUM_WS_PER_TOKEN / PRICE_DEN_WS_PER_TOKEN` wrapped SOL.
pub const PRICE_NUM_WS_PER_TOKEN: u64 = 1;

/// Denominator of the rate that the exchange runs at.
pub const PRICE_DEN_WS_PER_TOKEN: u64 = 2;

/// An exchange rate as a fraction: one token is worth `num / den` wrapped SOL.
///
/// The rate is handed to each call rather than read from a global, so that
/// the same engine can be exercised at any rate.
#[derive(Clone, Copy, Debug, PartialEq, Eq, Structural)]
pub struct Price {
    pub num: u64,
    pub den: u64,
}

/// The direction of a swap.
#[derive(Clone, Copy, Debug, PartialEq, Eq, Structural)]
pub enum Side {
    /// The caller pays wrapped SOL and receives tokens.
    Buy,
    /// The caller pays tokens and receives wrapped SOL.
    Sell,
}

impl Price {
    /// What is paid out for `amount_in` on the given side: tokens for wrapped
    /// SOL at `den / num` when buying, wrapped SOL for tokens at `num / den`
    /// when selling.
    pub open spec fn quote(self, side: Side, amount_in: u64) -> Result<u64, DexError> {
        match side {
            Side::Buy => scale(amount_in, self.den, self.num),
            Side::Sell => scale(amount_in, self.num, self.den),
        }
    }

    /// The rate that the exchange runs at.
    pub fn fixed() -> (price: Price)
        ensures
            price.num == PRICE_NUM_WS_PER_TOKEN,
            price.den == PRICE_DEN_WS_PER_TOKEN,
    {
        Price { num: PRICE_NUM_WS_PER_TOKEN, den: PRICE_DEN_WS_PER_TOKEN }
    }

    /// Computes what is paid out for `amount_in` on the given side.
    pub fn amount_out(&self, side: Side, amount_in: u64) -> (res: Result<u64, DexError>)
        ensures
            res == self.quote(side, amount_in),
    {
        match side {
            Side::Buy => mul_div_u64(amount_in, self.den, self.num),
            Side::Sell => mul_div_u64(amount_in, self.num, self.den),
        }
    }
}

} // verus!
