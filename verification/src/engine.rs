//! The arithmetic core that runs inside the secure-computation boundary.
//!
//! These functions see the decrypted pool totals and bet fields; everything
//! outside this module handles only opaque ciphertext blocks.  The central
//! constraint is that no computation here may branch on a secret value: every
//! conditional is an arithmetic mux (`sel * a + (1 - sel) * b`) or a
//! branch-free flag, so the sequence of operations performed is the same for
//! every secret input.  The only data-dependent control flow is the explicit
//! overflow check, which is the crate's documented overflow policy: an
//! addition or multiplication that would leave the unsigned 64-bit range is
//! reported as [`MarketError::ArithmeticOverflow`] rather than wrapped or
//! saturated.

use vstd::prelude::*;

use crate::errors::MarketError;

verus! {

/// Decrypted image of a market's two wager pools.
#[derive(Clone, Copy, Debug, PartialEq, Eq, Structural)]
pub struct MarketState {
    pub yes_pool: u64,
    pub no_pool: u64,
}

/// Decrypted image of one bet: a stake and a side (1 = YES, 2 = NO).
#[derive(Clone, Copy, Debug, PartialEq, Eq, Structural)]
pub struct BetPayload {
    pub amount: u64,
    pub side: u8,
}

/// Decrypted image of one bettor's settlement: a 0/1 winner flag and the
/// amount owed to the bettor.
#[derive(Clone, Copy, Debug, PartialEq, Eq, Structural)]
pub struct SettlementOutput {
    pub is_winner: u64,
    pub payout_amount: u64,
}

/// Branch-free two-way selection: `sel * a + (1 - sel) * b`.
///
/// This is the mux that replaces `if` wherever the condition derives from a
/// secret value; the multiplication pattern has the same shape for both
/// outcomes.
pub fn select_u64(sel: u64, a: u64, b: u64) -> (r: u64)
    requires
        sel <= 1,
    ensures
        r == (if sel == 1 { a } else { b }),
{
    proof {
        if sel == 1 {
            assert(sel * a == a) by (nonlinear_arith)
                requires
                    sel == 1,
            ;
            assert((1 - sel) * b == 0) by (nonlinear_arith)
                requires
                    sel == 1,
            ;
        } else {
            assert(sel * a == 0) by (nonlinear_arith)
                requires
                    sel == 0,
            ;
            assert((1 - sel) * b == b) by (nonlinear_arith)
                requires
                    sel == 0,
            ;
        }
    }
    sel * a + (1 - sel) * b
}

/// Branch-free equality flag on two bytes: 1 when `x == y`, else 0.
///
/// The comparison is computed arithmetically (xor, add, shift) so that no
/// conditional jump depends on the secret operands.
pub fn eq_flag(x: u8, y: u8) -> (r: u64)
    ensures
        r == (if x == y { 1u64 } else { 0u64 }),
{
    let d: u64 = (x ^ y) as u64;
    let s: u64 = d + 255;
    let t: u64 = s >> 8;
    proof {
        assert((x ^ y) == 0 <==> x == y) by (bit_vector);
        assert(t == (if d == 0 { 0u64 } else { 1u64 })) by (bit_vector)
            requires
                d <= 255,
                s == d + 255,
                t == s >> 8,
        ;
    }
    1u64 - t
}

/// Branch-free positivity flag: 1 when `x > 0`, else 0.
///
/// Folds the disjunction of all 64 bits into bit 0 with shifts and ors, so
/// the test has constant shape.
pub fn nonzero_flag(x: u64) -> (r: u64)
    ensures
        r == (if x > 0 { 1u64 } else { 0u64 }),
{
    let a: u64 = x | (x >> 32);
    let b: u64 = a | (a >> 16);
    let c: u64 = b | (b >> 8);
    let d: u64 = c | (c >> 4);
    let e: u64 = d | (d >> 2);
    let f: u64 = e | (e >> 1);
    let r: u64 = f & 1;
    proof {
        assert(r == (if x == 0 { 0u64 } else { 1u64 })) by (bit_vector)
            requires
                a == x | (x >> 32),
                b == a | (a >> 16),
                c == b | (b >> 8),
                d == c | (c >> 4),
                e == d | (d >> 2),
                f == e | (e >> 1),
                r == f & 1,
        ;
    }
    r
}

/// The part of a bet that lands in the YES pool: the stake when `side` is 1,
/// otherwise nothing.
pub open spec fn added_yes(bet: BetPayload) -> u64 {
    if bet.side == 1 {
        bet.amount
    } else {
        0
    }
}

/// The part of a bet that lands in the NO pool: the stake unless `side` is 1.
pub open spec fn added_no(bet: BetPayload) -> u64 {
    if bet.side == 1 {
        0
    } else {
        bet.amount
    }
}

/// Whether accepting the bet keeps both pools within the unsigned 64-bit range.
pub open spec fn update_fits(state: MarketState, bet: BetPayload) -> bool {
    &&& state.yes_pool + added_yes(bet) <= u64::MAX
    &&& state.no_pool + added_no(bet) <= u64::MAX
}

/// Apply one bet to the pool totals.
///
/// The bet's side is consulted only through the branch-free flag and mux, so
/// both pools are touched by the same sequence of operations whichever side
/// was chosen; the side merely decides which pool receives a zero and which
/// receives the stake.
pub fn update_market_state(state: MarketState, bet: BetPayload) -> (r: Result<
    MarketState,
    MarketError,
>)
    ensures
        (r is Ok) <==> update_fits(state, bet),
        r is Ok ==> r->Ok_0.yes_pool == state.yes_pool + added_yes(bet),
        r is Ok ==> r->Ok_0.no_pool == state.no_pool + added_no(bet),
        r is Ok ==> r->Ok_0.yes_pool + r->Ok_0.no_pool == state.yes_pool + state.no_pool
            + bet.amount,
        r is Ok ==> r->Ok_0.yes_pool >= state.yes_pool && r->Ok_0.no_pool >= state.no_pool,
        r is Err ==> r->Err_0 == MarketError::ArithmeticOverflow,
{
    let side_yes = eq_flag(bet.side, 1);
    let add_to_yes = select_u64(side_yes, bet.amount, 0);
    let add_to_no = select_u64(side_yes, 0, bet.amount);
    match (state.yes_pool.checked_add(add_to_yes), state.no_pool.checked_add(add_to_no)) {
        (Some(yes_pool), Some(no_pool)) => Ok(MarketState { yes_pool, no_pool }),
        _ => Err(MarketError::ArithmeticOverflow),
    }
}

/// The combined stake of both pools, as an unbounded integer.
pub open spec fn total_pool(state: MarketState) -> int {
    state.yes_pool + state.no_pool
}

/// 1 when the bet sits on the winning side, else 0.
pub open spec fn is_win_flag(bet: BetPayload, winning_side: u8) -> u64 {
    if bet.side == winning_side {
        1u64
    } else {
        0u64
    }
}

/// The pool of the side that won: YES when `winning_side` is 1, NO otherwise.
pub open spec fn winning_pool(state: MarketState, winning_side: u8) -> u64 {
    if winning_side == 1 {
        state.yes_pool
    } else {
        state.no_pool
    }
}

/// The winning pool floored to 1, the branch-free guard against dividing by
/// zero.
pub open spec fn safe_winning_pool(state: MarketState, winning_side: u8) -> u64 {
    if winning_pool(state, winning_side) > 0 {
        winning_pool(state, winning_side)
    } else {
        1u64
    }
}

/// Whether settlement arithmetic stays within the unsigned 64-bit range: the
/// total pool and the stake-times-total product are both computed for every
/// bettor, winner or not, because the computation is branch-free.
pub open spec fn resolve_fits(state: MarketState, bet: BetPayload) -> bool {
    &&& total_pool(state) <= u64::MAX
    &&& bet.amount * total_pool(state) <= u64::MAX
}

/// What a bettor is owed: the pari-mutuel share
/// `amount * total_pool / winning_pool` (floor division) on the winning side,
/// nothing on the losing side.
pub open spec fn spec_payout(state: MarketState, bet: BetPayload, winning_side: u8) -> int {
    if bet.side == winning_side {
        (bet.amount * total_pool(state)) / (safe_winning_pool(state, winning_side) as int)
    } else {
        0
    }
}

/// Settle one bet against the final pool totals.
///
/// Every quantity — the winner flag, the winning pool, its division-safe
/// floor and the proportional share — is computed through the branch-free
/// primitives, so the operation sequence is independent of the secret side
/// and stake.
pub fn resolve_payout(state: MarketState, bet: BetPayload, winning_side: u8) -> (r: Result<
    SettlementOutput,
    MarketError,
>)
    ensures
        (r is Ok) <==> resolve_fits(state, bet),
        r is Ok ==> r->Ok_0.is_winner == is_win_flag(bet, winning_side),
        r is Ok ==> r->Ok_0.payout_amount == spec_payout(state, bet, winning_side),
        r is Err ==> r->Err_0 == MarketError::ArithmeticOverflow,
{
    let is_win = eq_flag(bet.side, winning_side);
    let side_one_won = eq_flag(winning_side, 1);
    match state.yes_pool.checked_add(state.no_pool) {
        None => Err(MarketError::ArithmeticOverflow),
        Some(total) => {
            let pool = select_u64(side_one_won, state.yes_pool, state.no_pool);
            let pool_positive = nonzero_flag(pool);
            let safe_pool = select_u64(pool_positive, pool, 1);
            match bet.amount.checked_mul(total) {
                None => Err(MarketError::ArithmeticOverflow),
                Some(product) => {
                    let share = product / safe_pool;
                    let payout_amount = select_u64(is_win, share, 0);
                    Ok(SettlementOutput { is_winner: is_win, payout_amount })
                },
            }
        },
    }
}

/// Law: for a fixed stake, swapping the bet's side between 1 (YES) and
/// 2 (NO) swaps which pool receives the increment and leaves the combined
/// total unchanged — the side steers the stake only through the selection,
/// never the size of the update.
pub proof fn lemma_side_swap(state: MarketState, amount: u64)
    ensures
        added_yes(BetPayload { amount, side: 1 }) == amount,
        added_no(BetPayload { amount, side: 1 }) == 0,
        added_yes(BetPayload { amount, side: 2 }) == 0,
        added_no(BetPayload { amount, side: 2 }) == amount,
        state.yes_pool + added_yes(BetPayload { amount, side: 1 }) + state.no_pool + added_no(
            BetPayload { amount, side: 1 },
        ) == state.yes_pool + added_yes(BetPayload { amount, side: 2 }) + state.no_pool + added_no(
            BetPayload { amount, side: 2 },
        ),
{
}

/// Law: when nobody staked on the winning side, settlement owes nothing to
/// any bet that the pools account for.  The hypothesis that a winning-side
/// bet is covered by the winning pool is what the protocol guarantees for
/// every accumulated bet; without it a stake the pools never saw could claim
/// a share.
pub proof fn lemma_empty_winning_pool(state: MarketState, bet: BetPayload, winning_side: u8)
    requires
        winning_pool(state, winning_side) == 0,
        bet.side == winning_side ==> bet.amount <= winning_pool(state, winning_side),
    ensures
        spec_payout(state, bet, winning_side) == 0,
{
    if bet.side == winning_side {
        assert(bet.amount == 0);
        assert(bet.amount * total_pool(state) == 0);
    }
}

/// Law: settlement is exactly pari-mutuel.  A bettor on the winning side,
/// when that side holds any stake, is owed `amount * total_pool /
/// winning_pool` rounded down; a bettor on the losing side is owed nothing.
pub proof fn lemma_pari_mutuel(state: MarketState, bet: BetPayload, winning_side: u8)
    ensures
        winning_pool(state, winning_side) > 0 && bet.side == winning_side ==> spec_payout(
            state,
            bet,
            winning_side,
        ) == (bet.amount * total_pool(state)) / (winning_pool(state, winning_side) as int),
        bet.side != winning_side ==> spec_payout(state, bet, winning_side) == 0,
{
}

} // verus!
