use whirlpool_fees::{fee_growth_inside, token_growth_inside, Position, Tick, Whirlpool};

#[test]
fn inside_the_range_both_snapshots_are_taken_away() {
    assert_eq!(token_growth_inside(7, 5, 10, 800, 50, 50), 700);
    assert_eq!(token_growth_inside(7, 5, 10, 1000, 300, 100), 600);
}

#[test]
fn lower_boundary_counts_as_inside() {
    assert_eq!(token_growth_inside(5, 5, 10, 1000, 300, 100), 600);
    assert_eq!(token_growth_inside(4, 5, 10, 1000, 300, 100), 200);
}

#[test]
fn upper_boundary_counts_as_outside() {
    assert_eq!(token_growth_inside(9, 5, 10, 1000, 300, 100), 600);
    assert_eq!(token_growth_inside(10, 5, 10, 1000, 300, 100), 0);
    assert_eq!(token_growth_inside(10, 5, 10, 1000, 50, 900), 850);
}

#[test]
fn below_the_range_the_lower_snapshot_is_turned_round() {
    assert_eq!(token_growth_inside(0, 5, 10, 800, 50, 50), 0);
    assert_eq!(token_growth_inside(0, 5, 10, 1000, 300, 100), 200);
}

#[test]
fn above_the_range_the_upper_snapshot_is_turned_round() {
    assert_eq!(token_growth_inside(15, 5, 10, 800, 50, 50), 0);
    assert_eq!(token_growth_inside(15, 5, 10, 1000, 100, 700), 600);
}

#[test]
fn snapshot_ahead_of_the_global_growth_gives_zero() {
    assert_eq!(token_growth_inside(7, 5, 10, 100, 300, 20), 0);
    assert_eq!(token_growth_inside(7, 5, 10, 100, 20, 300), 0);
    assert_eq!(token_growth_inside(7, 5, 10, 100, 60, 60), 0);
    assert_eq!(token_growth_inside(0, 5, 10, 100, 300, 20), 80);
    assert_eq!(token_growth_inside(15, 5, 10, 100, 20, 300), 80);
    assert_eq!(token_growth_inside(7, 5, 10, 0, u128::MAX, u128::MAX), 0);
}

#[test]
fn negative_ticks() {
    assert_eq!(token_growth_inside(-7, -10, -5, 1000, 300, 100), 600);
    assert_eq!(token_growth_inside(-11, -10, -5, 1000, 300, 100), 200);
    assert_eq!(token_growth_inside(-5, -10, -5, 1000, 300, 100), 0);
    assert_eq!(token_growth_inside(i32::MIN, i32::MIN, i32::MAX, 1000, 300, 100), 600);
    assert_eq!(token_growth_inside(i32::MAX, i32::MIN, i32::MAX, 1000, 300, 100), 0);
}

#[test]
fn largest_readings() {
    assert_eq!(token_growth_inside(7, 5, 10, u128::MAX, 0, 0), u128::MAX);
    assert_eq!(token_growth_inside(7, 5, 10, u128::MAX, 1, 2), u128::MAX - 3);
    assert_eq!(token_growth_inside(0, 5, 10, u128::MAX, u128::MAX, 0), u128::MAX);
}

#[test]
fn both_tokens_are_resolved_apart() {
    let pool = Whirlpool {
        tick_current_index: 7,
        fee_growth_global_a: 800,
        fee_growth_global_b: 1000,
    };
    let position = Position {
        liquidity: 1,
        tick_lower_index: 5,
        tick_upper_index: 10,
        fee_growth_checkpoint_a: 300,
        fee_owed_a: 400,
        fee_growth_checkpoint_b: 500,
        fee_owed_b: 600,
    };
    let lower = Tick {
        fee_growth_outside_a: 50,
        fee_growth_outside_b: 20,
    };
    let upper = Tick {
        fee_growth_outside_a: 30,
        fee_growth_outside_b: 10,
    };
    assert_eq!(fee_growth_inside(pool, position, lower, upper), (720, 970));
    let below = Whirlpool {
        tick_current_index: 4,
        ..pool
    };
    assert_eq!(fee_growth_inside(below, position, lower, upper), (20, 10));
    let above = Whirlpool {
        tick_current_index: 10,
        ..pool
    };
    assert_eq!(fee_growth_inside(above, position, lower, upper), (0, 0));
}
