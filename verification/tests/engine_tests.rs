use arcpredict::engine::{
    eq_flag, nonzero_flag, resolve_payout, select_u64, update_market_state, BetPayload,
    MarketState, SettlementOutput,
};
use arcpredict::errors::MarketError;

#[test]
fn yes_bet_fills_yes_pool() {
    let r = update_market_state(
        MarketState { yes_pool: 0, no_pool: 0 },
        BetPayload { amount: 100, side: 1 },
    );
    assert_eq!(r, Ok(MarketState { yes_pool: 100, no_pool: 0 }));
}

#[test]
fn no_bet_fills_no_pool() {
    let r = update_market_state(
        MarketState { yes_pool: 100, no_pool: 0 },
        BetPayload { amount: 50, side: 2 },
    );
    assert_eq!(r, Ok(MarketState { yes_pool: 100, no_pool: 50 }));
}

#[test]
fn side_other_than_yes_counts_as_no() {
    let r = update_market_state(
        MarketState { yes_pool: 4, no_pool: 6 },
        BetPayload { amount: 10, side: 7 },
    );
    assert_eq!(r, Ok(MarketState { yes_pool: 4, no_pool: 16 }));
}

#[test]
fn update_conserves_total_and_swapping_side_swaps_pools() {
    let state = MarketState { yes_pool: 30, no_pool: 40 };
    let yes = update_market_state(state, BetPayload { amount: 25, side: 1 }).unwrap();
    let no = update_market_state(state, BetPayload { amount: 25, side: 2 }).unwrap();
    assert_eq!(yes.yes_pool + yes.no_pool, 30 + 40 + 25);
    assert_eq!(no.yes_pool + no.no_pool, 30 + 40 + 25);
    assert_eq!(yes.yes_pool - state.yes_pool, no.no_pool - state.no_pool);
    assert_eq!(yes.no_pool, state.no_pool);
    assert_eq!(no.yes_pool, state.yes_pool);
}

#[test]
fn update_overflow_is_reported() {
    let r = update_market_state(
        MarketState { yes_pool: u64::MAX, no_pool: 0 },
        BetPayload { amount: 1, side: 1 },
    );
    assert_eq!(r, Err(MarketError::ArithmeticOverflow));
}

#[test]
fn update_overflow_checks_only_the_receiving_pool() {
    let r = update_market_state(
        MarketState { yes_pool: u64::MAX, no_pool: 0 },
        BetPayload { amount: 1, side: 2 },
    );
    assert_eq!(r, Ok(MarketState { yes_pool: u64::MAX, no_pool: 1 }));
}

#[test]
fn winner_gets_pari_mutuel_share() {
    let r = resolve_payout(
        MarketState { yes_pool: 100, no_pool: 50 },
        BetPayload { amount: 100, side: 1 },
        1,
    );
    assert_eq!(r, Ok(SettlementOutput { is_winner: 1, payout_amount: 150 }));
}

#[test]
fn loser_gets_nothing() {
    let r = resolve_payout(
        MarketState { yes_pool: 100, no_pool: 50 },
        BetPayload { amount: 50, side: 2 },
        1,
    );
    assert_eq!(r, Ok(SettlementOutput { is_winner: 0, payout_amount: 0 }));
}

#[test]
fn no_side_can_win_too() {
    let r = resolve_payout(
        MarketState { yes_pool: 100, no_pool: 50 },
        BetPayload { amount: 50, side: 2 },
        2,
    );
    assert_eq!(r, Ok(SettlementOutput { is_winner: 1, payout_amount: 150 }));
}

#[test]
fn payout_rounds_down() {
    let r = resolve_payout(
        MarketState { yes_pool: 3, no_pool: 7 },
        BetPayload { amount: 1, side: 1 },
        1,
    );
    assert_eq!(r, Ok(SettlementOutput { is_winner: 1, payout_amount: 3 }));
}

#[test]
fn empty_winning_pool_pays_zero() {
    let state = MarketState { yes_pool: 0, no_pool: 50 };
    let covered_winner = resolve_payout(state, BetPayload { amount: 0, side: 1 }, 1);
    assert_eq!(covered_winner, Ok(SettlementOutput { is_winner: 1, payout_amount: 0 }));
    let loser = resolve_payout(state, BetPayload { amount: 50, side: 2 }, 1);
    assert_eq!(loser, Ok(SettlementOutput { is_winner: 0, payout_amount: 0 }));
}

#[test]
fn settlement_total_overflow_is_reported() {
    let r = resolve_payout(
        MarketState { yes_pool: u64::MAX, no_pool: 1 },
        BetPayload { amount: 1, side: 1 },
        1,
    );
    assert_eq!(r, Err(MarketError::ArithmeticOverflow));
}

#[test]
fn settlement_product_overflow_is_reported() {
    let r = resolve_payout(
        MarketState { yes_pool: u64::MAX, no_pool: 0 },
        BetPayload { amount: 2, side: 2 },
        1,
    );
    assert_eq!(r, Err(MarketError::ArithmeticOverflow));
}

#[test]
fn product_overflow_hits_losing_bettors_too() {
    // The computation is branch-free: the product is formed for every bettor,
    // so an oversized losing stake is reported rather than skipped.
    let r = resolve_payout(
        MarketState { yes_pool: u64::MAX / 2, no_pool: u64::MAX / 2 },
        BetPayload { amount: 3, side: 2 },
        1,
    );
    assert_eq!(r, Err(MarketError::ArithmeticOverflow));
}

#[test]
fn selection_primitives_behave_arithmetically() {
    assert_eq!(select_u64(1, 7, 9), 7);
    assert_eq!(select_u64(0, 7, 9), 9);
    assert_eq!(eq_flag(1, 1), 1);
    assert_eq!(eq_flag(1, 2), 0);
    assert_eq!(eq_flag(0, 255), 0);
    assert_eq!(nonzero_flag(0), 0);
    assert_eq!(nonzero_flag(1), 1);
    assert_eq!(nonzero_flag(u64::MAX), 1);
}
