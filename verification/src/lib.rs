//! Fees owed to a liquidity position of a concentrated-liquidity pool.
//!
//! The pool keeps, for each token, one global accumulator of fees earned per
//! unit of liquidity, and at every tick boundary a snapshot of the growth
//! "outside" that boundary. From those readings [`fee_growth_inside`] derives
//! the growth inside a position's range, [`fee_owed_delta`] scales the growth
//! accrued since the position's checkpoint by its liquidity, and
//! [`collect_fees_quote`] adds what the position has banked and deducts the
//! tokens' transfer fees.
//!
//! Every function is pure; its contract states the result over unbounded
//! integers.

pub mod growth;
pub mod quote;
pub mod state;
pub mod transfer_fee;
mod wide;

pub use growth::{fee_growth_inside, token_growth_inside};
pub use quote::{collect_fees_quote, fee_owed_delta, withdrawable_fee};
pub use state::{CollectFeesQuote, Position, QuoteError, Tick, TransferFee, Whirlpool};
pub use transfer_fee::{adjust_amount, transfer_fee_amount};
