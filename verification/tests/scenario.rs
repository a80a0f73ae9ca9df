//! End-to-end walk of the protocol with a locally simulated cluster.
//!
//! The simulated "encryption" writes a value into the first eight bytes of a
//! 32-byte block; the ledger under test never looks inside the blocks, and
//! the simulated cluster decodes them, runs the arithmetic core exactly as
//! the real cluster would, and encodes the outputs.

use arcpredict::engine::{resolve_payout, update_market_state, BetPayload, MarketState};
use arcpredict::ledger::{CallbackVerdict, Ledger, RequestKind, VerifiedOutput};

fn enc(x: u64) -> [u8; 32] {
    let mut block = [0u8; 32];
    let bytes = x.to_le_bytes();
    let mut i = 0;
    while i < 8 {
        block[i] = bytes[i];
        i += 1;
    }
    block
}

fn dec(block: [u8; 32]) -> u64 {
    let mut bytes = [0u8; 8];
    let mut i = 0;
    while i < 8 {
        bytes[i] = block[i];
        i += 1;
    }
    u64::from_le_bytes(bytes)
}

/// Play the cluster for the queued request `request_id`: decode its snapshot
/// and input, run the arithmetic core, and deliver the verified outputs.
fn run_cluster(ledger: &mut Ledger, request_id: u64, now: i64) {
    let req = ledger.requests[request_id as usize];
    let state = MarketState {
        yes_pool: dec(req.snapshot.encrypted_yes_pool),
        no_pool: dec(req.snapshot.encrypted_no_pool),
    };
    let bet = BetPayload {
        amount: dec(req.input.encrypted_amount),
        side: dec(req.input.encrypted_side) as u8,
    };
    let output = match req.kind {
        RequestKind::Update => {
            let next = update_market_state(state, bet).unwrap();
            VerifiedOutput {
                ciphertext_0: enc(next.yes_pool),
                ciphertext_1: enc(next.no_pool),
            }
        }
        RequestKind::Settle => {
            let winning_side = dec(req.encrypted_winning_side.unwrap()) as u8;
            let settlement = resolve_payout(state, bet, winning_side).unwrap();
            VerifiedOutput {
                ciphertext_0: enc(settlement.is_winner),
                ciphertext_1: enc(settlement.payout_amount),
            }
        }
    };
    let event = ledger
        .on_computation_callback(request_id, CallbackVerdict::Valid(output), now)
        .unwrap();
    assert_eq!(event.market, req.market_id);
    assert_eq!(event.timestamp, now);
}

#[test]
fn full_market_lifecycle() {
    let mut ledger = Ledger::new();
    let market = ledger.create_market([1u8; 32], String::from("Will it rain"));
    assert_eq!(market, 0);

    // First bettor: 100 on YES.
    let first = ledger.place_bet(market, enc(100), enc(1), [5u8; 32], 1).unwrap();
    run_cluster(&mut ledger, first, 10);
    assert_eq!(dec(ledger.markets[0].encrypted_yes_pool), 100);
    assert_eq!(dec(ledger.markets[0].encrypted_no_pool), 0);

    // Second bettor: 50 on NO.
    let second = ledger.place_bet(market, enc(50), enc(2), [6u8; 32], 2).unwrap();
    run_cluster(&mut ledger, second, 20);
    assert_eq!(dec(ledger.markets[0].encrypted_yes_pool), 100);
    assert_eq!(dec(ledger.markets[0].encrypted_no_pool), 50);

    // YES wins; settle the first bettor: 100 * 150 / 100 = 150.
    let settle = ledger
        .resolve_market(market, enc(100), enc(1), enc(1), [5u8; 32], 3)
        .unwrap();
    let req = ledger.requests[settle as usize];
    let state = MarketState {
        yes_pool: dec(req.snapshot.encrypted_yes_pool),
        no_pool: dec(req.snapshot.encrypted_no_pool),
    };
    let settlement = resolve_payout(
        state,
        BetPayload { amount: 100, side: 1 },
        1,
    )
    .unwrap();
    assert_eq!(settlement.is_winner, 1);
    assert_eq!(settlement.payout_amount, 150);
    run_cluster(&mut ledger, settle, 30);
    assert!(ledger.markets[0].is_resolved);
}
