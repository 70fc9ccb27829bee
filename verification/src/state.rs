//! The records that a quote is computed from, and the record it returns.

use vstd::prelude::*;

verus! {

/// The pool's side of a quote: where the price stands, and how much fee per
/// unit of liquidity each token has earned since the pool was opened.
///
/// Both accumulators are Q64.64 fixed-point numbers.
#[derive(Clone, Copy, Debug, PartialEq, Eq)]
pub struct Whirlpool {
    pub tick_current_index: i32,
    pub fee_growth_global_a: u128,
    pub fee_growth_global_b: u128,
}

/// One boundary of a position's range: the fee growth that each token had
/// earned on the far side of this tick when the price last crossed it.
#[derive(Clone, Copy, Debug, PartialEq, Eq)]
pub struct Tick {
    pub fee_growth_outside_a: u128,
    pub fee_growth_outside_b: u128,
}

/// A liquidity position over the ticks from `tick_lower_index` (included) to
/// `tick_upper_index` (excluded).
///
/// The checkpoints hold the growth inside the range as it stood when fees
/// were last settled; `fee_owed_a` and `fee_owed_b` are the fees settled then
/// and not yet withdrawn.
#[derive(Clone, Copy, Debug, PartialEq, Eq)]
pub struct Position {
    pub liquidity: u128,
    pub tick_lower_index: i32,
    pub tick_upper_index: i32,
    pub fee_growth_checkpoint_a: u128,
    pub fee_owed_a: u128,
    pub fee_growth_checkpoint_b: u128,
    pub fee_owed_b: u128,
}

/// A token's transfer fee: `fee_bps` hundredths of a percent of the amount
/// moved, and never more than `max_fee`.
#[derive(Clone, Copy, Debug, PartialEq, Eq)]
pub struct TransferFee {
    pub fee_bps: u16,
    pub max_fee: u64,
}

/// What the position can withdraw of each token, after transfer fees.
#[derive(Clone, Copy, Debug, PartialEq, Eq)]
pub struct CollectFeesQuote {
    pub fee_owed_a: u128,
    pub fee_owed_b: u128,
}

/// Why no quote was given.
#[derive(Clone, Copy, Debug, PartialEq, Eq)]
pub enum QuoteError {
    /// The position's lower tick is not below its upper tick.
    InvalidTickRange,
    /// An amount owed does not fit in 128 bits.
    ArithmeticOverflow,
}

impl Position {
    /// The range is not empty.
    pub open spec fn valid_range(self) -> bool {
        self.tick_lower_index < self.tick_upper_index
    }

    /// `tick` lies in the range: the lower boundary belongs to it, the upper
    /// one does not.
    pub open spec fn covers(self, tick: int) -> bool {
        self.tick_lower_index <= tick < self.tick_upper_index
    }
}

impl TransferFee {
    /// A fee of `fee_bps` basis points under the largest cap there is.
    pub fn new(fee_bps: u16) -> (fee: Self)
        ensures
            fee.fee_bps == fee_bps,
            fee.max_fee == u64::MAX,
    {
        TransferFee { fee_bps, max_fee: u64::MAX }
    }

    /// A fee of `fee_bps` basis points, capped at `max_fee`.
    pub fn new_with_max(fee_bps: u16, max_fee: u64) -> (fee: Self)
        ensures
            fee.fee_bps == fee_bps,
            fee.max_fee == max_fee,
    {
        TransferFee { fee_bps, max_fee }
    }
}

impl Default for Whirlpool {
    fn default() -> (pool: Self)
        ensures
            pool.tick_current_index == 0,
            pool.fee_growth_global_a == 0,
            pool.fee_growth_global_b == 0,
    {
        Whirlpool { tick_current_index: 0, fee_growth_global_a: 0, fee_growth_global_b: 0 }
    }
}

impl Default for Tick {
    fn default() -> (tick: Self)
        ensures
            tick.fee_growth_outside_a == 0,
            tick.fee_growth_outside_b == 0,
    {
        Tick { fee_growth_outside_a: 0, fee_growth_outside_b: 0 }
    }
}

impl Default for Position {
    fn default() -> (position: Self)
        ensures
            position.liquidity == 0,
            position.tick_lower_index == 0,
            position.tick_upper_index == 0,
            position.fee_growth_checkpoint_a == 0,
            position.fee_owed_a == 0,
            position.fee_growth_checkpoint_b == 0,
            position.fee_owed_b == 0,
    {
        Position {
            liquidity: 0,
            tick_lower_index: 0,
            tick_upper_index: 0,
            fee_growth_checkpoint_a: 0,
            fee_owed_a: 0,
            fee_growth_checkpoint_b: 0,
            fee_owed_b: 0,
        }
    }
}

} // verus!
