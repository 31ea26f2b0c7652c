use solana_trading_bot::errors::TradeError;
use solana_trading_bot::ledger::{
    Trade, TradeLedger, TradeStatus, TradeType, TradeUpdate,
};

fn pending_trade(user_id: i64, amount: u64, key: &str, now: u64) -> Trade {
    Trade {
        id: 0,
        user_id,
        trade_type: TradeType::Swap,
        input_mint: "So11111111111111111111111111111111111111112".to_string(),
        output_mint: "EPjFWdd5AufqSSqeM2qN1xzybapC8G4wEGGkZwyTDt1v".to_string(),
        input_amount: amount,
        output_amount: 0,
        input_symbol: "SOL".to_string(),
        output_symbol: "USDC".to_string(),
        price: 0,
        slippage_bps: 50,
        transaction_signature: String::new(),
        status: TradeStatus::Pending,
        error_message: None,
        jupiter_quote_id: None,
        idempotency_key: key.to_string(),
        created_at: now,
        updated_at: now,
        completed_at: None,
    }
}

fn no_fields() -> TradeUpdate {
    TradeUpdate::none()
}

#[test]
fn insert_assigns_sequential_ids() {
    let mut ledger = TradeLedger::new();
    let a = ledger.insert(pending_trade(1, 10, "k1", 100));
    let b = ledger.insert(pending_trade(1, 20, "k2", 101));
    assert_eq!((a, b), (0, 1));
    assert_eq!(ledger.len(), 2);
    assert_eq!(ledger.get(0).unwrap().input_amount, 10);
    assert_eq!(ledger.get(1).unwrap().input_amount, 20);
    assert!(ledger.get(2).is_none());
}

#[test]
fn terminal_status_is_immutable() {
    let mut ledger = TradeLedger::new();
    let id = ledger.insert(pending_trade(1, 10, "k1", 100));
    ledger
        .update_status(id, TradeStatus::Executing, no_fields(), 110)
        .expect("pending -> executing");
    let upd = TradeUpdate {
        transaction_signature: Some("sig-1".to_string()),
        error_message: None,
        output_amount: Some(42),
        price: Some(7),
    };
    ledger
        .update_status(id, TradeStatus::Completed, upd, 120)
        .expect("executing -> completed");

    let snapshot = ledger.get(id).unwrap().clone();
    assert_eq!(snapshot.status, TradeStatus::Completed);
    assert_eq!(snapshot.completed_at, Some(120));
    assert_eq!(snapshot.transaction_signature, "sig-1");
    assert_eq!(snapshot.output_amount, 42);
    assert_eq!(snapshot.price, 7);

    // Any further transition is refused and the record is untouched.
    for target in [
        TradeStatus::Pending,
        TradeStatus::Executing,
        TradeStatus::Completed,
        TradeStatus::Failed,
        TradeStatus::Cancelled,
    ] {
        assert_eq!(
            ledger.update_status(id, target, no_fields(), 130),
            Err(TradeError::InvalidTransition)
        );
    }
    let after = ledger.get(id).unwrap();
    assert_eq!(after.status, TradeStatus::Completed);
    assert_eq!(after.updated_at, snapshot.updated_at);
    assert_eq!(after.completed_at, Some(120));
    assert_eq!(after.transaction_signature, "sig-1");
}

#[test]
fn pending_cannot_jump_to_completed() {
    let mut ledger = TradeLedger::new();
    let id = ledger.insert(pending_trade(1, 10, "k1", 100));
    assert_eq!(
        ledger.update_status(id, TradeStatus::Completed, no_fields(), 110),
        Err(TradeError::InvalidTransition)
    );
    assert_eq!(ledger.get(id).unwrap().status, TradeStatus::Pending);
}

#[test]
fn unknown_trade_is_invalid_transition() {
    let mut ledger = TradeLedger::new();
    assert_eq!(
        ledger.update_status(5, TradeStatus::Executing, no_fields(), 100),
        Err(TradeError::InvalidTransition)
    );
}

#[test]
fn completed_at_set_exactly_on_terminal() {
    let mut ledger = TradeLedger::new();
    let id = ledger.insert(pending_trade(1, 10, "k1", 100));
    assert_eq!(ledger.get(id).unwrap().completed_at, None);
    ledger
        .update_status(id, TradeStatus::Executing, no_fields(), 110)
        .unwrap();
    assert_eq!(ledger.get(id).unwrap().completed_at, None);
    ledger
        .update_status(id, TradeStatus::Failed, no_fields(), 120)
        .unwrap();
    assert_eq!(ledger.get(id).unwrap().completed_at, Some(120));
}

#[test]
fn find_by_signature_ignores_empty() {
    let mut ledger = TradeLedger::new();
    let a = ledger.insert(pending_trade(1, 10, "k1", 100));
    ledger.insert(pending_trade(1, 20, "k2", 101));
    assert_eq!(ledger.find_by_signature(&String::new()), None);

    ledger
        .update_status(a, TradeStatus::Executing, no_fields(), 102)
        .unwrap();
    let upd = TradeUpdate {
        transaction_signature: Some("sig-abc".to_string()),
        error_message: None,
        output_amount: None,
        price: None,
    };
    ledger
        .update_status(a, TradeStatus::Completed, upd, 103)
        .unwrap();
    assert_eq!(ledger.find_by_signature(&"sig-abc".to_string()), Some(a));
    assert_eq!(ledger.find_by_signature(&"sig-xyz".to_string()), None);
}

#[test]
fn idempotency_key_lookup_skips_failed() {
    let mut ledger = TradeLedger::new();
    let a = ledger.insert(pending_trade(1, 10, "key", 100));
    assert_eq!(ledger.find_by_idempotency_key(&"key".to_string()), Some(a));

    ledger
        .update_status(a, TradeStatus::Failed, no_fields(), 110)
        .unwrap();
    // A failed attempt does not block a retry under the same key.
    assert_eq!(ledger.find_by_idempotency_key(&"key".to_string()), None);

    let b = ledger.insert(pending_trade(1, 10, "key", 120));
    assert_eq!(ledger.find_by_idempotency_key(&"key".to_string()), Some(b));
}

#[test]
fn rolling_counters_sum_completed_in_window() {
    let mut ledger = TradeLedger::new();
    let complete = |ledger: &mut TradeLedger, id: u64, at: u64| {
        ledger
            .update_status(id, TradeStatus::Executing, no_fields(), at)
            .unwrap();
        let upd = TradeUpdate {
            transaction_signature: Some(format!("sig-{}", id)),
            error_message: None,
            output_amount: None,
            price: None,
        };
        ledger
            .update_status(id, TradeStatus::Completed, upd, at)
            .unwrap();
    };
    let a = ledger.insert(pending_trade(7, 100, "a", 1000));
    let b = ledger.insert(pending_trade(7, 200, "b", 2000));
    let c = ledger.insert(pending_trade(8, 400, "c", 2000)); // other user
    let d = ledger.insert(pending_trade(7, 800, "d", 3000)); // stays pending
    complete(&mut ledger, a, 1000);
    complete(&mut ledger, b, 2000);
    complete(&mut ledger, c, 2000);
    let _ = d;

    // Window of 1500s ending at 2500 holds only b for user 7.
    assert_eq!(ledger.rolling_counters(7, 1500, 2500), (1, 200));
    // Window ending at 2000 of width 2000 holds a and b.
    assert_eq!(ledger.rolling_counters(7, 2000, 2000), (2, 300));
    // User 8 sees only c.
    assert_eq!(ledger.rolling_counters(8, 2000, 2000), (1, 400));
}
