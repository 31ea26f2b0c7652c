use solana_trading_bot::config::TradingLimits;
use solana_trading_bot::errors::{LimitReason, QuoteErrorKind, TradeError};
use solana_trading_bot::executor::{
    ExecSession, StartOutcome, StepAction, StepOutcome, SubmitOutcome, TradeExecutor, TradeIntent,
};
use solana_trading_bot::ledger::{TradeStatus, TradeType};
use solana_trading_bot::quote::Quote;

const SOL: u64 = 1_000_000_000;
const SOL_MINT: &str = "So11111111111111111111111111111111111111112";
const USDC_MINT: &str = "EPjFWdd5AufqSSqeM2qN1xzybapC8G4wEGGkZwyTDt1v";

fn wide_limits() -> TradingLimits {
    TradingLimits {
        max_trade_amount_lamports: 1000 * SOL,
        min_trade_amount_lamports: 0,
        max_slippage_bps: 200,
        max_trades_per_hour: 100,
        max_trades_per_day: 100,
        daily_trade_limit_lamports: 100 * SOL,
    }
}

fn intent(user: i64, amount: u64, key: &str) -> TradeIntent {
    TradeIntent {
        user_id: user,
        trade_type: TradeType::Swap,
        input_mint: SOL_MINT.to_string(),
        output_mint: USDC_MINT.to_string(),
        input_symbol: "SOL".to_string(),
        output_symbol: "USDC".to_string(),
        amount_lamports: amount,
        max_slippage_bps: 50,
        idempotency_key: key.to_string(),
    }
}

fn quote_for(amount: u64) -> Quote {
    Quote {
        input_mint: SOL_MINT.to_string(),
        output_mint: USDC_MINT.to_string(),
        in_amount: amount,
        out_amount: amount / 5,
        other_amount_threshold: amount / 5 - 1,
        slippage_bps: 50,
        price_impact_bps: 3,
        context_slot: 123,
        quote_id: None,
    }
}

fn start(ex: &mut TradeExecutor, user: i64, amount: u64, key: &str, now: u64) -> ExecSession {
    match ex.start_trade(&intent(user, amount, key), now).expect("valid") {
        StartOutcome::Started(s) => s,
        other => panic!("expected Started, got {:?}", other),
    }
}

fn step_session(out: StepOutcome, want: StepAction) -> ExecSession {
    match out {
        StepOutcome::Continue(s, action) => {
            assert_eq!(action, want);
            s
        }
        StepOutcome::Finished(id) => panic!("unexpected Finished({})", id),
    }
}

/// Run one admitted trade to confirmed completion.
fn run_to_completion(
    ex: &mut TradeExecutor,
    session: ExecSession,
    sig: &str,
    now: u64,
) -> u64 {
    let amount = session.reservation.amount;
    let s = step_session(
        ex.on_quote_result(session, &Ok(quote_for(amount)), now),
        StepAction::BuildSwap,
    );
    let s = step_session(ex.on_build_result(s, &Ok(()), now), StepAction::SignTransaction);
    let s = step_session(ex.on_sign_result(s, true, now), StepAction::Submit);
    let outcome = SubmitOutcome::Confirmed {
        signature: sig.to_string(),
        output_amount: amount / 5,
        price: 5 * SOL,
    };
    match ex.on_submit_result(s, outcome, now) {
        StepOutcome::Finished(id) => id,
        other => panic!("expected Finished, got {:?}", other),
    }
}

#[test]
fn happy_path_completes_with_signature_and_price() {
    let mut ex = TradeExecutor::new(wide_limits(), 3);
    let s = start(&mut ex, 1, 10 * SOL, "k1", 100);
    let id = run_to_completion(&mut ex, s, "sig-happy", 120);
    let trade = ex.ledger().get(id).unwrap();
    assert_eq!(trade.status, TradeStatus::Completed);
    assert_eq!(trade.transaction_signature, "sig-happy");
    assert_eq!(trade.output_amount, 2 * SOL);
    assert_eq!(trade.price, 5 * SOL);
    assert_eq!(trade.completed_at, Some(120));
    assert_eq!(trade.error_message, None);
}

#[test]
fn invalid_intents_create_no_state() {
    let mut ex = TradeExecutor::new(wide_limits(), 3);

    let mut zero = intent(1, 0, "k");
    zero.amount_lamports = 0;
    assert_eq!(ex.start_trade(&zero, 100), Err(TradeError::InvalidIntent));

    let mut same_pair = intent(1, SOL, "k");
    same_pair.output_mint = SOL_MINT.to_string();
    assert_eq!(ex.start_trade(&same_pair, 100), Err(TradeError::InvalidIntent));

    let mut unknown = intent(1, SOL, "k");
    unknown.input_mint = "NotAMint".to_string();
    assert_eq!(ex.start_trade(&unknown, 100), Err(TradeError::InvalidIntent));

    let mut slippy = intent(1, SOL, "k");
    slippy.max_slippage_bps = 500;
    assert_eq!(ex.start_trade(&slippy, 100), Err(TradeError::InvalidIntent));

    assert_eq!(ex.ledger().len(), 0);
}

#[test]
fn limit_rejection_records_failed_trade() {
    let mut limits = wide_limits();
    limits.max_trade_amount_lamports = 5 * SOL;
    let mut ex = TradeExecutor::new(limits, 3);
    match ex.start_trade(&intent(1, 10 * SOL, "k1"), 100).expect("valid") {
        StartOutcome::Failed(id, e) => {
            assert_eq!(e, TradeError::LimitExceeded(LimitReason::SingleTradeCap));
            let trade = ex.ledger().get(id).unwrap();
            assert_eq!(trade.status, TradeStatus::Failed);
            assert_eq!(
                trade.error_message,
                Some(LimitReason::SingleTradeCap.describe())
            );
        }
        other => panic!("expected Failed, got {:?}", other),
    }
}

#[test]
fn idempotent_resubmission_returns_same_trade() {
    let mut ex = TradeExecutor::new(wide_limits(), 3);
    let s = start(&mut ex, 1, 60 * SOL, "same-key", 100);
    let first_id = s.trade_id;

    // Re-submission with the same key: same id, nothing new recorded.
    match ex.start_trade(&intent(1, 60 * SOL, "same-key"), 110).expect("valid") {
        StartOutcome::Existing(id) => assert_eq!(id, first_id),
        other => panic!("expected Existing, got {:?}", other),
    }
    assert_eq!(ex.ledger().len(), 1);

    // And it did not double-reserve: 40 SOL still fits under 100.
    start(&mut ex, 1, 40 * SOL, "other-key", 120);
}

#[test]
fn failed_trade_does_not_block_its_key() {
    let mut ex = TradeExecutor::new(wide_limits(), 3);
    let s = start(&mut ex, 1, 10 * SOL, "key", 100);
    let s = step_session(
        ex.on_quote_result(s, &Ok(quote_for(10 * SOL)), 101),
        StepAction::BuildSwap,
    );
    let s = step_session(ex.on_build_result(s, &Ok(()), 102), StepAction::SignTransaction);
    let s = step_session(ex.on_sign_result(s, true, 103), StepAction::Submit);
    match ex.on_submit_result(s, SubmitOutcome::Rejected, 104) {
        StepOutcome::Finished(_) => {}
        other => panic!("{:?}", other),
    }
    // The first attempt failed; the same key may try again.
    let s2 = start(&mut ex, 1, 10 * SOL, "key", 200);
    assert_ne!(s2.trade_id, 0);
}

#[test]
fn quote_retries_within_budget_then_executes() {
    // Times out twice, succeeds on the third attempt, within a budget of 3.
    let mut ex = TradeExecutor::new(wide_limits(), 3);
    let s = start(&mut ex, 1, 10 * SOL, "k1", 100);
    let s = step_session(
        ex.on_quote_result(s, &Err(QuoteErrorKind::Timeout), 101),
        StepAction::RequestQuote,
    );
    let s = step_session(
        ex.on_quote_result(s, &Err(QuoteErrorKind::Timeout), 102),
        StepAction::RequestQuote,
    );
    let trade_id = s.trade_id;
    step_session(
        ex.on_quote_result(s, &Ok(quote_for(10 * SOL)), 103),
        StepAction::BuildSwap,
    );
    // The trade reached Executing, not Failed.
    assert_eq!(
        ex.ledger().get(trade_id).unwrap().status,
        TradeStatus::Executing
    );
}

#[test]
fn quote_budget_exhaustion_fails_trade() {
    let mut ex = TradeExecutor::new(wide_limits(), 3);
    let s = start(&mut ex, 1, 80 * SOL, "k1", 100);
    let s = step_session(
        ex.on_quote_result(s, &Err(QuoteErrorKind::Timeout), 101),
        StepAction::RequestQuote,
    );
    let s = step_session(
        ex.on_quote_result(s, &Err(QuoteErrorKind::ServerError), 102),
        StepAction::RequestQuote,
    );
    let trade_id = s.trade_id;
    match ex.on_quote_result(s, &Err(QuoteErrorKind::Timeout), 103) {
        StepOutcome::Finished(id) => assert_eq!(id, trade_id),
        other => panic!("{:?}", other),
    }
    let trade = ex.ledger().get(trade_id).unwrap();
    assert_eq!(trade.status, TradeStatus::Failed);
    assert_eq!(
        trade.error_message,
        Some(TradeError::QuoteUnavailable.describe())
    );
    // The reservation was released: the full budget is available again.
    start(&mut ex, 1, 90 * SOL, "k2", 200);
}

#[test]
fn non_retryable_quote_error_fails_immediately() {
    let mut ex = TradeExecutor::new(wide_limits(), 3);
    let s = start(&mut ex, 1, 10 * SOL, "k1", 100);
    let trade_id = s.trade_id;
    match ex.on_quote_result(s, &Err(QuoteErrorKind::ClientError), 101) {
        StepOutcome::Finished(id) => assert_eq!(id, trade_id),
        other => panic!("{:?}", other),
    }
    assert_eq!(ex.ledger().get(trade_id).unwrap().status, TradeStatus::Failed);
}

#[test]
fn signing_failure_is_authentication_failure() {
    let mut ex = TradeExecutor::new(wide_limits(), 3);
    let s = start(&mut ex, 1, 10 * SOL, "k1", 100);
    let s = step_session(
        ex.on_quote_result(s, &Ok(quote_for(10 * SOL)), 101),
        StepAction::BuildSwap,
    );
    let s = step_session(ex.on_build_result(s, &Ok(()), 102), StepAction::SignTransaction);
    let trade_id = s.trade_id;
    match ex.on_sign_result(s, false, 103) {
        StepOutcome::Finished(id) => assert_eq!(id, trade_id),
        other => panic!("{:?}", other),
    }
    let trade = ex.ledger().get(trade_id).unwrap();
    assert_eq!(trade.status, TradeStatus::Failed);
    assert_eq!(
        trade.error_message,
        Some(TradeError::AuthenticationFailure.describe())
    );
}

#[test]
fn unknown_submission_outcome_marks_and_releases() {
    // Submission times out with confirmation unknown: the trade ends
    // Failed with the unknown-outcome marker, the reservation is not
    // committed, and nothing offers a retry of the submission.
    let mut ex = TradeExecutor::new(wide_limits(), 3);
    let s = start(&mut ex, 1, 70 * SOL, "k1", 100);
    let s = step_session(
        ex.on_quote_result(s, &Ok(quote_for(70 * SOL)), 101),
        StepAction::BuildSwap,
    );
    let s = step_session(ex.on_build_result(s, &Ok(()), 102), StepAction::SignTransaction);
    let s = step_session(ex.on_sign_result(s, true, 103), StepAction::Submit);
    let trade_id = s.trade_id;
    match ex.on_submit_result(s, SubmitOutcome::Unknown, 104) {
        StepOutcome::Finished(id) => assert_eq!(id, trade_id),
        other => panic!("{:?}", other),
    }
    let trade = ex.ledger().get(trade_id).unwrap();
    assert_eq!(trade.status, TradeStatus::Failed);
    assert_eq!(
        trade.error_message,
        Some(TradeError::UnknownOutcome.describe())
    );
    assert_eq!(trade.transaction_signature, "");
    // Not committed: the reservation was released, so the budget is free.
    start(&mut ex, 1, 90 * SOL, "k2", 200);
}

#[test]
fn duplicate_signature_is_rejected() {
    let mut ex = TradeExecutor::new(wide_limits(), 3);
    let s1 = start(&mut ex, 1, 10 * SOL, "k1", 100);
    run_to_completion(&mut ex, s1, "sig-dup", 110);

    let s2 = start(&mut ex, 1, 10 * SOL, "k2", 200);
    let s2 = step_session(
        ex.on_quote_result(s2, &Ok(quote_for(10 * SOL)), 201),
        StepAction::BuildSwap,
    );
    let s2 = step_session(ex.on_build_result(s2, &Ok(()), 202), StepAction::SignTransaction);
    let s2 = step_session(ex.on_sign_result(s2, true, 203), StepAction::Submit);
    let trade_id = s2.trade_id;
    let outcome = SubmitOutcome::Confirmed {
        signature: "sig-dup".to_string(),
        output_amount: 1,
        price: 1,
    };
    match ex.on_submit_result(s2, outcome, 204) {
        StepOutcome::Finished(id) => assert_eq!(id, trade_id),
        other => panic!("{:?}", other),
    }
    let trade = ex.ledger().get(trade_id).unwrap();
    assert_eq!(trade.status, TradeStatus::Failed);
    assert_eq!(
        trade.error_message,
        Some(TradeError::SubmissionFailed.describe())
    );
}

#[test]
fn cancel_before_submit_cancels() {
    let mut ex = TradeExecutor::new(wide_limits(), 3);
    let s = start(&mut ex, 1, 60 * SOL, "k1", 100);
    let trade_id = s.trade_id;
    assert_eq!(ex.cancel(s, 110), Ok(trade_id));
    let trade = ex.ledger().get(trade_id).unwrap();
    assert_eq!(trade.status, TradeStatus::Cancelled);
    assert_eq!(trade.completed_at, Some(110));
    // The reservation went back.
    start(&mut ex, 1, 90 * SOL, "k2", 120);
}

#[test]
fn cancel_after_submit_is_too_late() {
    let mut ex = TradeExecutor::new(wide_limits(), 3);
    let s = start(&mut ex, 1, 10 * SOL, "k1", 100);
    let s = step_session(
        ex.on_quote_result(s, &Ok(quote_for(10 * SOL)), 101),
        StepAction::BuildSwap,
    );
    let s = step_session(ex.on_build_result(s, &Ok(()), 102), StepAction::SignTransaction);
    let s = step_session(ex.on_sign_result(s, true, 103), StepAction::Submit);
    let trade_id = s.trade_id;
    assert_eq!(ex.cancel(s, 104), Err(TradeError::TooLateToCancel));
    // The trade is still executing, awaiting its submission outcome.
    assert_eq!(
        ex.ledger().get(trade_id).unwrap().status,
        TradeStatus::Executing
    );
}

#[test]
fn daily_volume_scenario_through_executor() {
    let mut ex = TradeExecutor::new(wide_limits(), 3);

    // 60 SOL admitted.
    let s60 = start(&mut ex, 7, 60 * SOL, "t60", 1000);

    // 50 SOL rejected: would total 110 against the 100 SOL daily limit.
    match ex.start_trade(&intent(7, 50 * SOL, "t50"), 1010).expect("valid") {
        StartOutcome::Failed(_, e) => {
            assert_eq!(e, TradeError::LimitExceeded(LimitReason::DailyVolumeCap))
        }
        other => panic!("expected Failed, got {:?}", other),
    }

    // The 60 SOL trade completes; 30 SOL then fits (90 <= 100).
    run_to_completion(&mut ex, s60, "sig-60", 1020);
    start(&mut ex, 7, 30 * SOL, "t30", 1030);
}

#[test]
fn build_failure_retries_then_fails() {
    let mut ex = TradeExecutor::new(wide_limits(), 2);
    let s = start(&mut ex, 1, 10 * SOL, "k1", 100);
    let s = step_session(
        ex.on_quote_result(s, &Ok(quote_for(10 * SOL)), 101),
        StepAction::BuildSwap,
    );
    let s = step_session(
        ex.on_build_result(s, &Err(QuoteErrorKind::RateLimited), 102),
        StepAction::BuildSwap,
    );
    let trade_id = s.trade_id;
    match ex.on_build_result(s, &Err(QuoteErrorKind::RateLimited), 103) {
        StepOutcome::Finished(id) => assert_eq!(id, trade_id),
        other => panic!("{:?}", other),
    }
    assert_eq!(ex.ledger().get(trade_id).unwrap().status, TradeStatus::Failed);
}

#[test]
fn admin_sets_per_user_limit_through_executor() {
    let mut ex = TradeExecutor::new(wide_limits(), 3);
    assert!(ex.set_user_daily_limit(9, 10 * SOL));
    match ex.start_trade(&intent(9, 20 * SOL, "k9"), 100).expect("valid") {
        StartOutcome::Failed(_, e) => {
            assert_eq!(e, TradeError::LimitExceeded(LimitReason::DailyVolumeCap))
        }
        other => panic!("expected Failed, got {:?}", other),
    }
    // Another user still enjoys the default ceiling.
    start(&mut ex, 10, 20 * SOL, "k10", 110);
}
