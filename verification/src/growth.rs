//! Fee growth inside a position's range.
//!
//! The pool does not track growth per range. It tracks the growth of the
//! whole pool, and at each tick the growth on the side of the tick that the
//! price is not on. The growth inside a range is what is left of the global
//! growth once the growth below the lower tick and the growth above the upper
//! tick are taken away.

use crate::state::{Position, Tick, Whirlpool};
use vstd::prelude::*;

verus! {

/// The difference of two accumulator readings: `minuend - subtrahend`, and
/// zero where the subtrahend is the larger. A reading that has not yet caught
/// up with the other means "nothing accrued", never a wrapped number.
pub open spec fn accumulator_diff(minuend: nat, subtrahend: nat) -> nat {
    if minuend >= subtrahend {
        (minuend - subtrahend) as nat
    } else {
        0
    }
}

/// The growth below the lower tick. While the price is at or above that tick
/// the tick's snapshot is this growth; while the price is below it the
/// snapshot measures the other side, and the growth below is the rest of the
/// global growth.
pub open spec fn growth_below(
    tick_current: int,
    tick_lower: int,
    global: nat,
    outside_lower: nat,
) -> nat {
    if tick_current < tick_lower {
        accumulator_diff(global, outside_lower)
    } else {
        outside_lower
    }
}

/// The growth above the upper tick. While the price is below that tick the
/// tick's snapshot is this growth; once the price is at or above it the
/// snapshot measures the other side.
pub open spec fn growth_above(
    tick_current: int,
    tick_upper: int,
    global: nat,
    outside_upper: nat,
) -> nat {
    if tick_current >= tick_upper {
        accumulator_diff(global, outside_upper)
    } else {
        outside_upper
    }
}

/// The growth of one token between the two ticks: the global growth less the
/// growth below, less the growth above, in that order.
pub open spec fn growth_inside(
    tick_current: int,
    tick_lower: int,
    tick_upper: int,
    global: nat,
    outside_lower: nat,
    outside_upper: nat,
) -> nat {
    accumulator_diff(
        accumulator_diff(global, growth_below(tick_current, tick_lower, global, outside_lower)),
        growth_above(tick_current, tick_upper, global, outside_upper),
    )
}

/// The growth of token A inside the position's range.
pub open spec fn growth_inside_a(
    whirlpool: Whirlpool,
    position: Position,
    tick_lower: Tick,
    tick_upper: Tick,
) -> nat {
    growth_inside(
        whirlpool.tick_current_index as int,
        position.tick_lower_index as int,
        position.tick_upper_index as int,
        whirlpool.fee_growth_global_a as nat,
        tick_lower.fee_growth_outside_a as nat,
        tick_upper.fee_growth_outside_a as nat,
    )
}

/// The growth of token B inside the position's range.
pub open spec fn growth_inside_b(
    whirlpool: Whirlpool,
    position: Position,
    tick_lower: Tick,
    tick_upper: Tick,
) -> nat {
    growth_inside(
        whirlpool.tick_current_index as int,
        position.tick_lower_index as int,
        position.tick_upper_index as int,
        whirlpool.fee_growth_global_b as nat,
        tick_lower.fee_growth_outside_b as nat,
        tick_upper.fee_growth_outside_b as nat,
    )
}

/// Growth of one token inside the range from `tick_lower` to `tick_upper`,
/// given the pool's tick, the token's global growth and the snapshots at the
/// two ticks.
pub fn token_growth_inside(
    tick_current: i32,
    tick_lower: i32,
    tick_upper: i32,
    global: u128,
    outside_lower: u128,
    outside_upper: u128,
) -> (inside: u128)
    ensures
        inside == growth_inside(
            tick_current as int,
            tick_lower as int,
            tick_upper as int,
            global as nat,
            outside_lower as nat,
            outside_upper as nat,
        ),
        inside <= global,
{
    let below: u128 = if tick_current < tick_lower {
        global.saturating_sub(outside_lower)
    } else {
        outside_lower
    };
    let above: u128 = if tick_current >= tick_upper {
        global.saturating_sub(outside_upper)
    } else {
        outside_upper
    };
    global.saturating_sub(below).saturating_sub(above)
}

/// Growth of both tokens inside the position's range, token A first.
pub fn fee_growth_inside(
    whirlpool: Whirlpool,
    position: Position,
    tick_lower: Tick,
    tick_upper: Tick,
) -> (inside: (u128, u128))
    ensures
        inside.0 == growth_inside_a(whirlpool, position, tick_lower, tick_upper),
        inside.1 == growth_inside_b(whirlpool, position, tick_lower, tick_upper),
        inside.0 <= whirlpool.fee_growth_global_a,
        inside.1 <= whirlpool.fee_growth_global_b,
{
    let inside_a: u128 = token_growth_inside(
        whirlpool.tick_current_index,
        position.tick_lower_index,
        position.tick_upper_index,
        whirlpool.fee_growth_global_a,
        tick_lower.fee_growth_outside_a,
        tick_upper.fee_growth_outside_a,
    );
    let inside_b: u128 = token_growth_inside(
        whirlpool.tick_current_index,
        position.tick_lower_index,
        position.tick_upper_index,
        whirlpool.fee_growth_global_b,
        tick_lower.fee_growth_outside_b,
        tick_upper.fee_growth_outside_b,
    );
    (inside_a, inside_b)
}

/// An accumulator difference never wraps: it is zero where the subtrahend is
/// at least the minuend, the exact difference otherwise, and in no case more
/// than the minuend.
pub proof fn lemma_accumulator_diff_saturates(minuend: nat, subtrahend: nat)
    ensures
        subtrahend >= minuend ==> accumulator_diff(minuend, subtrahend) == 0,
        subtrahend <= minuend ==> accumulator_diff(minuend, subtrahend) == minuend - subtrahend,
        accumulator_diff(minuend, subtrahend) <= minuend,
{
}

/// The lower boundary belongs to the range and the upper one does not. With
/// the price exactly on the lower tick the lower snapshot is taken as it
/// stands, as anywhere inside the range; with the price exactly on the upper
/// tick the upper snapshot is turned round, as anywhere above the range.
pub proof fn lemma_boundary_ticks(
    position: Position,
    global: nat,
    outside_lower: nat,
    outside_upper: nat,
)
    requires
        position.valid_range(),
    ensures
        position.covers(position.tick_lower_index as int),
        !position.covers(position.tick_upper_index as int),
        growth_below(
            position.tick_lower_index as int,
            position.tick_lower_index as int,
            global,
            outside_lower,
        ) == outside_lower,
        growth_above(
            position.tick_upper_index as int,
            position.tick_upper_index as int,
            global,
            outside_upper,
        ) == accumulator_diff(global, outside_upper),
        growth_inside(
            position.tick_lower_index as int,
            position.tick_lower_index as int,
            position.tick_upper_index as int,
            global,
            outside_lower,
            outside_upper,
        ) == accumulator_diff(accumulator_diff(global, outside_lower), outside_upper),
        growth_inside(
            position.tick_upper_index as int,
            position.tick_lower_index as int,
            position.tick_upper_index as int,
            global,
            outside_lower,
            outside_upper,
        ) == accumulator_diff(
            accumulator_diff(global, outside_lower),
            accumulator_diff(global, outside_upper),
        ),
{
}

/// While the price is inside the range neither snapshot is turned round, so
/// the growth inside is the global growth less both snapshots. Outside the
/// range exactly one of them is.
pub proof fn lemma_growth_inside_by_side(
    position: Position,
    tick_current: int,
    global: nat,
    outside_lower: nat,
    outside_upper: nat,
)
    requires
        position.valid_range(),
    ensures
        position.covers(tick_current) ==> growth_inside(
            tick_current,
            position.tick_lower_index as int,
            position.tick_upper_index as int,
            global,
            outside_lower,
            outside_upper,
        ) == accumulator_diff(accumulator_diff(global, outside_lower), outside_upper),
        tick_current < position.tick_lower_index ==> growth_inside(
            tick_current,
            position.tick_lower_index as int,
            position.tick_upper_index as int,
            global,
            outside_lower,
            outside_upper,
        ) == accumulator_diff(
            accumulator_diff(global, accumulator_diff(global, outside_lower)),
            outside_upper,
        ),
        tick_current >= position.tick_upper_index ==> growth_inside(
            tick_current,
            position.tick_lower_index as int,
            position.tick_upper_index as int,
            global,
            outside_lower,
            outside_upper,
        ) == accumulator_diff(
            accumulator_diff(global, outside_lower),
            accumulator_diff(global, outside_upper),
        ),
{
}

} // verus!
