//! The quote: fees accrued since the position's checkpoint, plus what it has
//! banked, less the tokens' transfer fees.

use crate::growth::{
    accumulator_diff, fee_growth_inside, growth_inside, growth_inside_a, growth_inside_b,
};
use crate::state::{CollectFeesQuote, Position, QuoteError, Tick, TransferFee, Whirlpool};
use crate::transfer_fee::{adjust_amount, amount_after_fee};
use crate::wide::{wide_max, Wide};
use vstd::arithmetic::power2::lemma2_to64;
use vstd::prelude::*;

verus! {

/// The fee that `liquidity` units of liquidity earn on a growth of
/// `growth_delta`: their product, scaled down from Q64.64 to whole units of
/// the token. This is the product shifted right by 64 bits, taken over the
/// unbounded integers, so nothing is lost above bit 128.
pub open spec fn scaled_fee(growth_delta: nat, liquidity: nat) -> nat {
    growth_delta * liquidity / 0x1_0000_0000_0000_0000
}

/// The fee accrued since the checkpoint: the growth inside the range beyond
/// the checkpoint, and none where the checkpoint is ahead, scaled by the
/// liquidity.
pub open spec fn owed_delta(growth_inside: nat, checkpoint: nat, liquidity: nat) -> nat {
    scaled_fee(accumulator_diff(growth_inside, checkpoint), liquidity)
}

/// An amount as a 128-bit result: itself where it fits, an overflow where it
/// does not.
pub open spec fn narrowed(amount: nat) -> Result<u128, QuoteError> {
    if amount <= u128::MAX {
        Ok(amount as u128)
    } else {
        Err(QuoteError::ArithmeticOverflow)
    }
}

/// What the position is owed of token A before transfer fees: the banked fees
/// and the fees accrued since the checkpoint.
pub open spec fn gross_fee_a(
    whirlpool: Whirlpool,
    position: Position,
    tick_lower: Tick,
    tick_upper: Tick,
) -> nat {
    position.fee_owed_a as nat + owed_delta(
        growth_inside_a(whirlpool, position, tick_lower, tick_upper),
        position.fee_growth_checkpoint_a as nat,
        position.liquidity as nat,
    )
}

/// What the position is owed of token B before transfer fees.
pub open spec fn gross_fee_b(
    whirlpool: Whirlpool,
    position: Position,
    tick_lower: Tick,
    tick_upper: Tick,
) -> nat {
    position.fee_owed_b as nat + owed_delta(
        growth_inside_b(whirlpool, position, tick_lower, tick_upper),
        position.fee_growth_checkpoint_b as nat,
        position.liquidity as nat,
    )
}

/// The quote for a position. An empty or reversed range is refused; so is an
/// amount that does not fit in 128 bits. Else each token's gross amount is
/// reduced by that token's transfer fee.
pub open spec fn quote_of(
    whirlpool: Whirlpool,
    position: Position,
    tick_lower: Tick,
    tick_upper: Tick,
    transfer_fee_a: Option<TransferFee>,
    transfer_fee_b: Option<TransferFee>,
) -> Result<CollectFeesQuote, QuoteError> {
    let gross_a: nat = gross_fee_a(whirlpool, position, tick_lower, tick_upper);
    let gross_b: nat = gross_fee_b(whirlpool, position, tick_lower, tick_upper);
    if !position.valid_range() {
        Err(QuoteError::InvalidTickRange)
    } else if gross_a > u128::MAX || gross_b > u128::MAX {
        Err(QuoteError::ArithmeticOverflow)
    } else {
        Ok(
            CollectFeesQuote {
                fee_owed_a: amount_after_fee(gross_a, transfer_fee_a, false) as u128,
                fee_owed_b: amount_after_fee(gross_b, transfer_fee_b, false) as u128,
            },
        )
    }
}

/// The fee accrued on `liquidity` since the growth inside the range stood at
/// `checkpoint`.
///
/// The growth beyond the checkpoint is multiplied by the liquidity in 256
/// bits and shifted right by 64. The result is an error where it does not fit
/// in 128 bits; it is never cut short.
pub fn fee_owed_delta(
    growth_inside: u128,
    checkpoint: u128,
    liquidity: u128,
) -> (delta: Result<u128, QuoteError>)
    ensures
        delta == narrowed(owed_delta(growth_inside as nat, checkpoint as nat, liquidity as nat)),
        growth_inside <= checkpoint ==> delta == Ok::<u128, QuoteError>(0),
{
    let growth: Wide = Wide::from_u128(growth_inside).saturating_sub(Wide::from_u128(checkpoint));
    let product: Wide = growth.saturating_mul(Wide::from_u128(liquidity));
    let scaled: Wide = product.shr(64);
    proof {
        lemma_product_fits(growth@, liquidity as nat);
        lemma2_to64();
        assert(0 * (liquidity as nat) == 0) by (nonlinear_arith);
    }
    match scaled.try_into_u128() {
        Ok(value) => Ok(value),
        Err(_) => Err(QuoteError::ArithmeticOverflow),
    }
}

/// What the position can withdraw of one token before transfer fees: the
/// banked amount and the fee accrued since the checkpoint. The sum is an
/// error where it does not fit in 128 bits.
pub fn withdrawable_fee(
    banked: u128,
    growth_inside: u128,
    checkpoint: u128,
    liquidity: u128,
) -> (gross: Result<u128, QuoteError>)
    ensures
        gross == narrowed(
            banked as nat + owed_delta(growth_inside as nat, checkpoint as nat, liquidity as nat),
        ),
{
    match fee_owed_delta(growth_inside, checkpoint, liquidity) {
        Ok(delta) => match banked.checked_add(delta) {
            Some(sum) => Ok(sum),
            None => Err(QuoteError::ArithmeticOverflow),
        },
        Err(error) => Err(error),
    }
}

/// The fees that the position can withdraw now of token A and of token B.
///
/// `tick_lower` and `tick_upper` are the states of the ticks at the two ends
/// of the position's range; `transfer_fee_a` and `transfer_fee_b` are the
/// tokens' transfer fees, where they have one.
pub fn collect_fees_quote(
    whirlpool: Whirlpool,
    position: Position,
    tick_lower: Tick,
    tick_upper: Tick,
    transfer_fee_a: Option<TransferFee>,
    transfer_fee_b: Option<TransferFee>,
) -> (quote: Result<CollectFeesQuote, QuoteError>)
    ensures
        quote == quote_of(
            whirlpool,
            position,
            tick_lower,
            tick_upper,
            transfer_fee_a,
            transfer_fee_b,
        ),
        quote == Err::<CollectFeesQuote, QuoteError>(QuoteError::InvalidTickRange)
            <==> !position.valid_range(),
        quote is Ok <==> position.valid_range() && gross_fee_a(
            whirlpool,
            position,
            tick_lower,
            tick_upper,
        ) <= u128::MAX && gross_fee_b(whirlpool, position, tick_lower, tick_upper) <= u128::MAX,
        quote matches Ok(owed) ==> owed.fee_owed_a <= gross_fee_a(
            whirlpool,
            position,
            tick_lower,
            tick_upper,
        ) && owed.fee_owed_b <= gross_fee_b(whirlpool, position, tick_lower, tick_upper),
{
    if position.tick_lower_index >= position.tick_upper_index {
        return Err(QuoteError::InvalidTickRange);
    }
    let inside: (u128, u128) = fee_growth_inside(whirlpool, position, tick_lower, tick_upper);
    let gross_a: u128 = match withdrawable_fee(
        position.fee_owed_a,
        inside.0,
        position.fee_growth_checkpoint_a,
        position.liquidity,
    ) {
        Ok(gross) => gross,
        Err(error) => {
            return Err(error);
        },
    };
    let gross_b: u128 = match withdrawable_fee(
        position.fee_owed_b,
        inside.1,
        position.fee_growth_checkpoint_b,
        position.liquidity,
    ) {
        Ok(gross) => gross,
        Err(error) => {
            return Err(error);
        },
    };
    Ok(
        CollectFeesQuote {
            fee_owed_a: adjust_amount(gross_a, transfer_fee_a, false),
            fee_owed_b: adjust_amount(gross_b, transfer_fee_b, false),
        },
    )
}

/// The product of two 128-bit numbers fits in 256 bits, so the saturating
/// product of a growth and a liquidity is the product itself.
proof fn lemma_product_fits(growth_delta: nat, liquidity: nat)
    requires
        growth_delta <= u128::MAX,
        liquidity <= u128::MAX,
    ensures
        growth_delta * liquidity <= wide_max(),
{
    assert(growth_delta * liquidity <= 0xffff_ffff_ffff_ffff_ffff_ffff_ffff_ffff
        * 0xffff_ffff_ffff_ffff_ffff_ffff_ffff_ffff) by (nonlinear_arith)
        requires
            growth_delta <= 0xffff_ffff_ffff_ffff_ffff_ffff_ffff_ffff,
            liquidity <= 0xffff_ffff_ffff_ffff_ffff_ffff_ffff_ffff,
    ;
}

/// While the price is below the range, the growth inside is what the lower
/// snapshot holds beyond the upper one, however far the global growth has
/// moved on. So a position accrues nothing there, as long as that difference
/// beyond its checkpoint, times its liquidity, stays under one unit of the
/// token.
pub proof fn lemma_no_accrual_below_range(
    tick_current: int,
    tick_lower: int,
    tick_upper: int,
    global: nat,
    outside_lower: nat,
    outside_upper: nat,
    checkpoint: nat,
    liquidity: nat,
)
    requires
        tick_current < tick_lower < tick_upper,
        global >= outside_lower,
        accumulator_diff(accumulator_diff(outside_lower, outside_upper), checkpoint) * liquidity
            < 0x1_0000_0000_0000_0000,
    ensures
        growth_inside(tick_current, tick_lower, tick_upper, global, outside_lower, outside_upper)
            == accumulator_diff(outside_lower, outside_upper),
        owed_delta(
            growth_inside(
                tick_current,
                tick_lower,
                tick_upper,
                global,
                outside_lower,
                outside_upper,
            ),
            checkpoint,
            liquidity,
        ) == 0,
{
}

/// The mirror image above the range: once the price is at or past the upper
/// tick, the growth inside is what the upper snapshot holds beyond the lower
/// one, and a position accrues nothing as long as that difference beyond its
/// checkpoint, times its liquidity, stays under one unit of the token.
pub proof fn lemma_no_accrual_above_range(
    tick_current: int,
    tick_lower: int,
    tick_upper: int,
    global: nat,
    outside_lower: nat,
    outside_upper: nat,
    checkpoint: nat,
    liquidity: nat,
)
    requires
        tick_lower < tick_upper <= tick_current,
        global >= outside_upper,
        accumulator_diff(accumulator_diff(outside_upper, outside_lower), checkpoint) * liquidity
            < 0x1_0000_0000_0000_0000,
    ensures
        growth_inside(tick_current, tick_lower, tick_upper, global, outside_lower, outside_upper)
            == accumulator_diff(outside_upper, outside_lower),
        owed_delta(
            growth_inside(
                tick_current,
                tick_lower,
                tick_upper,
                global,
                outside_lower,
                outside_upper,
            ),
            checkpoint,
            liquidity,
        ) == 0,
{
}

/// A position whose range the price is outside of, between two ticks that
/// hold the same snapshots, none of them ahead of the global growth, is
/// quoted what it has banked, less the transfer fees: nothing accrues to it.
pub proof fn lemma_quote_out_of_range(
    whirlpool: Whirlpool,
    position: Position,
    tick_lower: Tick,
    tick_upper: Tick,
    transfer_fee_a: Option<TransferFee>,
    transfer_fee_b: Option<TransferFee>,
)
    requires
        position.valid_range(),
        !position.covers(whirlpool.tick_current_index as int),
        tick_lower == tick_upper,
        whirlpool.fee_growth_global_a >= tick_lower.fee_growth_outside_a,
        whirlpool.fee_growth_global_b >= tick_lower.fee_growth_outside_b,
    ensures
        gross_fee_a(whirlpool, position, tick_lower, tick_upper) == position.fee_owed_a,
        gross_fee_b(whirlpool, position, tick_lower, tick_upper) == position.fee_owed_b,
        quote_of(
            whirlpool,
            position,
            tick_lower,
            tick_upper,
            transfer_fee_a,
            transfer_fee_b,
        ) == Ok::<CollectFeesQuote, QuoteError>(
            CollectFeesQuote {
                fee_owed_a: amount_after_fee(
                    position.fee_owed_a as nat,
                    transfer_fee_a,
                    false,
                ) as u128,
                fee_owed_b: amount_after_fee(
                    position.fee_owed_b as nat,
                    transfer_fee_b,
                    false,
                ) as u128,
            },
        ),
{
    assert(0 * (position.liquidity as nat) == 0) by (nonlinear_arith);
}

/// The accrued fee is the product of the growth beyond the checkpoint and the
/// liquidity, divided by `2^64` and rounded down, with nothing lost on the
/// way: it lies within one unit of the exact quotient, and scaling it back up
/// never gives more than the product.
pub proof fn lemma_scaled_fee_is_exact(growth_delta: nat, liquidity: nat)
    ensures
        scaled_fee(growth_delta, liquidity) * 0x1_0000_0000_0000_0000 <= growth_delta * liquidity,
        growth_delta * liquidity < (scaled_fee(growth_delta, liquidity) + 1)
            * 0x1_0000_0000_0000_0000,
        liquidity == 0x1_0000_0000_0000_0000 ==> scaled_fee(growth_delta, liquidity)
            == growth_delta,
{
    assert(growth_delta * 0x1_0000_0000_0000_0000 == 0x1_0000_0000_0000_0000 * growth_delta)
        by (nonlinear_arith);
}

} // verus!
