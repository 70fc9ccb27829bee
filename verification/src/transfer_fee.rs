//! Transfer fees: what a token keeps back of an amount that is moved.

use crate::growth::accumulator_diff;
use crate::state::TransferFee;
use vstd::prelude::*;

verus! {

/// The number of basis points in the whole.
pub const BPS_DENOMINATOR: u128 = 10_000;

/// `fee_bps` basis points of `amount`, before the cap: rounded up to whole
/// units where the fee is taken from `amount`, rounded down in the inverse
/// direction.
pub open spec fn proportional_fee(amount: nat, fee_bps: nat, inverse: bool) -> nat {
    if inverse {
        amount * fee_bps / 10_000
    } else {
        (amount * fee_bps + 9_999) / 10_000
    }
}

/// The fee on `amount`: the proportional fee, and the cap where that is less.
pub open spec fn fee_on_amount(amount: nat, fee: TransferFee, inverse: bool) -> nat {
    let proportional: nat = proportional_fee(amount, fee.fee_bps as nat, inverse);
    if proportional < fee.max_fee {
        proportional
    } else {
        fee.max_fee as nat
    }
}

/// What is left of `amount` after the fee, if there is one: the amount less
/// the fee, and zero where the fee is the larger.
pub open spec fn amount_after_fee(
    amount: nat,
    transfer_fee: Option<TransferFee>,
    inverse: bool,
) -> nat {
    match transfer_fee {
        None => amount,
        Some(fee) => accumulator_diff(amount, fee_on_amount(amount, fee, inverse)),
    }
}

/// The fee that `fee` puts on `amount`.
///
/// The proportional part is `amount * fee_bps / 10_000`. With `inverse` unset
/// the fee is taken from `amount` and a fraction of a unit counts as a whole
/// one; with `inverse` set the fraction is dropped. The cap applies either way.
pub fn transfer_fee_amount(amount: u128, fee: TransferFee, inverse: bool) -> (charged: u128)
    ensures
        charged == fee_on_amount(amount as nat, fee, inverse),
        charged <= fee.max_fee,
{
    let cap: u128 = fee.max_fee as u128;
    let bps: u128 = fee.fee_bps as u128;
    let whole: u128 = amount / BPS_DENOMINATOR;
    let rest: u128 = amount % BPS_DENOMINATOR;
    assert(rest * bps <= 9_999 * 65_535) by (nonlinear_arith)
        requires
            rest <= 9_999,
            bps <= 65_535,
    ;
    let rest_scaled: u128 = rest * bps;
    let rest_fee: u128 = if inverse {
        rest_scaled / BPS_DENOMINATOR
    } else {
        (rest_scaled + (BPS_DENOMINATOR - 1)) / BPS_DENOMINATOR
    };
    proof {
        lemma_proportional_fee_split(amount as nat, bps as nat, inverse);
    }
    match whole.checked_mul(bps) {
        None => cap,
        Some(whole_fee) => match whole_fee.checked_add(rest_fee) {
            None => cap,
            Some(proportional) => if proportional < cap {
                proportional
            } else {
                cap
            },
        },
    }
}

/// The amount that is left after the transfer fee.
///
/// Without a fee the amount comes back unchanged. With one, the result is the
/// amount less [`transfer_fee_amount`], and zero where the fee is the larger.
pub fn adjust_amount(amount: u128, transfer_fee: Option<TransferFee>, inverse: bool) -> (net: u128)
    ensures
        net == amount_after_fee(amount as nat, transfer_fee, inverse),
        net <= amount,
        transfer_fee is None ==> net == amount,
        amount == 0 ==> net == 0,
{
    match transfer_fee {
        None => amount,
        Some(fee) => {
            let charged: u128 = transfer_fee_amount(amount, fee, inverse);
            amount.saturating_sub(charged)
        },
    }
}

/// The proportional fee can be taken from the whole ten-thousands of `amount`
/// and from the rest apart: each whole ten-thousand contributes `fee_bps`
/// units, and only the fee on the remainder is rounded.
pub proof fn lemma_proportional_fee_split(amount: nat, fee_bps: nat, inverse: bool)
    ensures
        proportional_fee(amount, fee_bps, inverse) == (amount / 10_000) * fee_bps
            + proportional_fee(amount % 10_000, fee_bps, inverse),
{
    let whole: nat = amount / 10_000;
    let rest: nat = amount % 10_000;
    assert(amount * fee_bps == 10_000 * (whole * fee_bps) + rest * fee_bps) by (nonlinear_arith)
        requires
            amount == 10_000 * whole + rest,
    ;
}

/// An absent fee leaves every amount as it is, and no fee takes anything from
/// an amount of zero, whichever way it is applied.
pub proof fn lemma_adjust_identities(amount: nat, fee: TransferFee, inverse: bool)
    ensures
        amount_after_fee(amount, None, inverse) == amount,
        amount_after_fee(0, Some(fee), inverse) == 0,
        fee_on_amount(0, fee, inverse) == 0,
{
    assert(0 * (fee.fee_bps as nat) == 0) by (nonlinear_arith);
}

/// A fee never adds to an amount, and never takes more than its cap.
pub proof fn lemma_fee_bounds(amount: nat, fee: TransferFee, inverse: bool)
    ensures
        fee_on_amount(amount, fee, inverse) <= fee.max_fee,
        amount_after_fee(amount, Some(fee), inverse) <= amount,
        amount_after_fee(amount, Some(fee), inverse) + fee.max_fee >= amount,
{
}

} // verus!
