use solana_trading_bot::config::{
    default_api, default_jupiter, default_monitoring, default_rate_limit, default_solana,
    default_trading_limits, default_commitment, default_pbkdf2_iterations, default_retry_count,
    default_app_name, default_encryption_algorithm,
};
use solana_trading_bot::errors::{QuoteErrorKind, TradeError, LimitReason};
use solana_trading_bot::quote::{join_comma, u64_to_dec_string, QuoteRequest, SwapMode};
use solana_trading_bot::retry::{classify_status, is_retryable, RetryDecision, RetryPolicy};
use solana_trading_bot::solana::{
    decimals_for_mint, is_supported_mint, SOL_MINT, USDC_MINT, BONK_MINT,
};
use solana_trading_bot::telegram::{reply_for_text, Command};

#[test]
fn retryable_kinds() {
    assert!(is_retryable(QuoteErrorKind::Timeout));
    assert!(is_retryable(QuoteErrorKind::ServerError));
    assert!(is_retryable(QuoteErrorKind::RateLimited));
    assert!(!is_retryable(QuoteErrorKind::ClientError));
    assert!(!is_retryable(QuoteErrorKind::MalformedResponse));
}

#[test]
fn status_classification() {
    assert_eq!(classify_status(200), None);
    assert_eq!(classify_status(204), None);
    assert_eq!(classify_status(429), Some(QuoteErrorKind::RateLimited));
    assert_eq!(classify_status(500), Some(QuoteErrorKind::ServerError));
    assert_eq!(classify_status(503), Some(QuoteErrorKind::ServerError));
    assert_eq!(classify_status(400), Some(QuoteErrorKind::ClientError));
    assert_eq!(classify_status(404), Some(QuoteErrorKind::ClientError));
    assert_eq!(classify_status(301), Some(QuoteErrorKind::ClientError));
}

#[test]
fn backoff_doubles_and_caps() {
    let policy = RetryPolicy { max_attempts: 10, base_delay_ms: 100, max_delay_ms: 1000 };
    assert_eq!(policy.backoff_delay_ms(0), 100);
    assert_eq!(policy.backoff_delay_ms(1), 200);
    assert_eq!(policy.backoff_delay_ms(2), 400);
    assert_eq!(policy.backoff_delay_ms(3), 800);
    assert_eq!(policy.backoff_delay_ms(4), 1000);
    assert_eq!(policy.backoff_delay_ms(5), 1000);
}

#[test]
fn retry_decision_respects_budget_and_kind() {
    let policy = RetryPolicy { max_attempts: 3, base_delay_ms: 100, max_delay_ms: 1000 };
    assert_eq!(
        policy.decide(1, QuoteErrorKind::Timeout),
        RetryDecision::RetryAfter(200)
    );
    assert_eq!(policy.decide(3, QuoteErrorKind::Timeout), RetryDecision::GiveUp);
    assert_eq!(policy.decide(0, QuoteErrorKind::ClientError), RetryDecision::GiveUp);
}

#[test]
fn quote_request_defaults() {
    let req = QuoteRequest::simple(SOL_MINT.to_string(), USDC_MINT.to_string(), 1_000_000_000);
    assert_eq!(req.amount, "1000000000");
    assert_eq!(req.slippage_bps, Some(50));
    assert_eq!(req.effective_slippage_bps(), 50);
    assert_eq!(req.max_accounts, Some(64));
    assert_eq!(req.effective_max_accounts(), 64);
    assert_eq!(req.only_direct_routes, Some(false));
    assert_eq!(req.as_legacy_transaction, Some(false));
    assert!(req.dexes.is_none());
    assert!(req.platform_fee_bps.is_none());

    let mut bare = req.clone();
    bare.slippage_bps = None;
    bare.max_accounts = None;
    assert_eq!(bare.effective_slippage_bps(), 50);
    assert_eq!(bare.effective_max_accounts(), 64);
}

#[test]
fn decimal_formatting() {
    assert_eq!(u64_to_dec_string(0), "0");
    assert_eq!(u64_to_dec_string(7), "7");
    assert_eq!(u64_to_dec_string(50), "50");
    assert_eq!(u64_to_dec_string(100_000_000_000), "100000000000");
    assert_eq!(u64_to_dec_string(u64::MAX), "18446744073709551615");
}

#[test]
fn query_params_fill_documented_defaults() {
    let mut req = QuoteRequest::simple(SOL_MINT.to_string(), USDC_MINT.to_string(), 123);
    req.slippage_bps = None;
    req.dexes = Some(vec!["Orca".to_string(), "Raydium".to_string()]);
    let params = req.query_params();
    let lookup = |k: &str| -> String {
        params
            .iter()
            .find(|(key, _)| key == k)
            .map(|(_, v)| v.clone())
            .expect("param present")
    };
    assert_eq!(params.len(), 9);
    assert_eq!(lookup("inputMint"), SOL_MINT);
    assert_eq!(lookup("outputMint"), USDC_MINT);
    assert_eq!(lookup("amount"), "123");
    assert_eq!(lookup("slippageBps"), "50");
    assert_eq!(lookup("dexes"), "Orca,Raydium");
    assert_eq!(lookup("excludeDexes"), "");
    assert_eq!(lookup("onlyDirectRoutes"), "false");
    assert_eq!(lookup("asLegacyTransaction"), "false");
    assert_eq!(lookup("maxAccounts"), "64");
}

#[test]
fn join_comma_cases() {
    let empty: Vec<String> = vec![];
    assert_eq!(join_comma(&empty), "");
    assert_eq!(join_comma(&vec!["a".to_string()]), "a");
    assert_eq!(
        join_comma(&vec!["a".to_string(), "b".to_string(), "c".to_string()]),
        "a,b,c"
    );
}

#[test]
fn swap_mode_labels() {
    assert_eq!(SwapMode::ExactIn.label(), "ExactIn");
    assert_eq!(SwapMode::ExactOut.label(), "ExactOut");
    assert_eq!(SwapMode::default(), SwapMode::ExactIn);
}

#[test]
fn supported_mints_and_decimals() {
    assert!(is_supported_mint(&SOL_MINT.to_string()));
    assert!(is_supported_mint(&USDC_MINT.to_string()));
    assert!(!is_supported_mint(&"unknown".to_string()));
    assert_eq!(decimals_for_mint(&SOL_MINT.to_string()), Some(9));
    assert_eq!(decimals_for_mint(&BONK_MINT.to_string()), Some(5));
    assert_eq!(decimals_for_mint(&"unknown".to_string()), None);
}

#[test]
fn config_defaults_are_pinned() {
    let solana = default_solana();
    assert_eq!(solana.rpc_url, "https://api.mainnet-beta.solana.com");
    assert_eq!(solana.commitment, "confirmed");
    assert_eq!(solana.timeout_ms, 30000);
    assert_eq!(solana.retry_count, 3);

    let jupiter = default_jupiter();
    assert_eq!(jupiter.api_url, "https://api.jup.ag");
    assert_eq!(jupiter.api_version, "v6");
    assert_eq!(jupiter.max_retries, 3);

    let limits = default_trading_limits();
    assert_eq!(limits.max_trade_amount_lamports, 10_000_000_000);
    assert_eq!(limits.min_trade_amount_lamports, 10_000_000);
    assert_eq!(limits.daily_trade_limit_lamports, 100_000_000_000);
    assert_eq!(limits.max_slippage_bps, 200);
    assert_eq!(limits.max_trades_per_hour, 10);
    assert_eq!(limits.max_trades_per_day, 50);

    let rate = default_rate_limit();
    assert_eq!((rate.requests_per_second, rate.burst_size, rate.enabled), (10, 30, true));

    let api = default_api();
    assert_eq!(api.host, "0.0.0.0");
    assert_eq!((api.port, api.metrics_port, api.health_check_port), (8080, 9090, 8081));

    let mon = default_monitoring();
    assert!(mon.prometheus_enabled && !mon.telemetry_enabled);
    assert_eq!(mon.prometheus_port, 9090);
    assert!(mon.sentry_dsn.is_none());

    assert_eq!(default_commitment(), "confirmed");
    assert_eq!(default_pbkdf2_iterations(), 100000);
    assert_eq!(default_retry_count(), 3);
    assert_eq!(default_app_name(), "solana-trading-bot");
    assert_eq!(default_encryption_algorithm(), "AES256-GCM");
}

#[test]
fn error_descriptions() {
    assert_eq!(TradeError::InvalidIntent.describe(), "invalid intent");
    assert_eq!(
        TradeError::UnknownOutcome.describe(),
        "unknown outcome: submitted but unconfirmed, reconcile manually"
    );
    assert_eq!(
        TradeError::LimitExceeded(LimitReason::DailyVolumeCap).describe(),
        "daily volume cap exceeded"
    );
    assert_eq!(
        LimitReason::SingleTradeCap.describe(),
        "single-trade amount cap exceeded"
    );
}

#[test]
fn command_replies() {
    assert!(Command::descriptions().contains("/help"));
    assert_eq!(
        Command::Start.reply(),
        "Welcome to the Solana trading bot! Use /help for the command list."
    );
    assert_eq!(Command::Help.reply(), Command::descriptions());
    assert_eq!(
        Command::Search("BONK".to_string()).reply(),
        "Searching for token: BONK"
    );
    assert_eq!(Command::Balance.reply(), "This feature is not implemented yet.");
    assert_eq!(
        reply_for_text("/unknown"),
        "Unknown command. Use /help for the command list."
    );
    assert_eq!(
        reply_for_text("hello"),
        "I only understand commands. Use /help for the command list."
    );
    assert_eq!(
        reply_for_text(""),
        "I only understand commands. Use /help for the command list."
    );
}
