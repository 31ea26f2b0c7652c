//! Configuration values the core reads: connection knobs, retry budgets and
//! the per-user trading ceilings. Amounts are carried in lamports (the
//! smallest SOL unit, 10^-9 SOL) so the ceilings are exact integers.

use vstd::prelude::*;

verus! {

pub fn default_pool_max_connections() -> (r: u32)
    ensures
        r == 20,
{
    20
}

pub fn default_pool_min_connections() -> (r: u32)
    ensures
        r == 5,
{
    5
}

pub fn default_connect_timeout_secs() -> (r: u64)
    ensures
        r == 30,
{
    30
}

pub fn default_acquire_timeout_secs() -> (r: u64)
    ensures
        r == 30,
{
    30
}

pub fn default_idle_timeout_secs() -> (r: u64)
    ensures
        r == 600,
{
    600
}

pub fn default_max_lifetime_secs() -> (r: u64)
    ensures
        r == 1800,
{
    1800
}

pub fn default_admin_user_ids() -> (r: Vec<i64>)
    ensures
        r@ == Seq::<i64>::empty(),
{
    Vec::new()
}

pub fn default_rate_limit_per_minute() -> (r: u32)
    ensures
        r == 30,
{
    30
}

pub fn default_rate_limit_per_hour() -> (r: u32)
    ensures
        r == 300,
{
    300
}

pub fn default_solana_rpc_url() -> (r: String)
    ensures
        r@ == "https://api.mainnet-beta.solana.com"@,
{
    String::from_str("https://api.mainnet-beta.solana.com")
}

pub fn default_solana_ws_url() -> (r: String)
    ensures
        r@ == "wss://api.mainnet-beta.solana.com"@,
{
    String::from_str("wss://api.mainnet-beta.solana.com")
}

pub fn default_commitment() -> (r: String)
    ensures
        r@ == "confirmed"@,
{
    String::from_str("confirmed")
}

pub fn default_timeout_ms() -> (r: u64)
    ensures
        r == 30000,
{
    30000
}

pub fn default_retry_count() -> (r: u32)
    ensures
        r == 3,
{
    3
}

pub fn default_jupiter_api_url() -> (r: String)
    ensures
        r@ == "https://api.jup.ag"@,
{
    String::from_str("https://api.jup.ag")
}

pub fn default_jupiter_api_version() -> (r: String)
    ensures
        r@ == "v6"@,
{
    String::from_str("v6")
}

pub fn default_jupiter_timeout_secs() -> (r: u64)
    ensures
        r == 30,
{
    30
}

pub fn default_jupiter_max_retries() -> (r: u32)
    ensures
        r == 3,
{
    3
}

pub fn default_encryption_algorithm() -> (r: String)
    ensures
        r@ == "AES256-GCM"@,
{
    String::from_str("AES256-GCM")
}

pub fn default_pbkdf2_iterations() -> (r: u32)
    ensures
        r == 100000,
{
    100000
}

pub fn default_encrypted_keypair_path() -> (r: String)
    ensures
        r@ == "./secrets/encrypted_wallet.bin"@,
{
    String::from_str("./secrets/encrypted_wallet.bin")
}

pub fn default_encrypted_master_key_path() -> (r: String)
    ensures
        r@ == "./secrets/master_key.bin"@,
{
    String::from_str("./secrets/master_key.bin")
}

pub fn default_max_slippage_bps() -> (r: u64)
    ensures
        r == 200,
{
    200
}

pub fn default_max_trades_per_hour() -> (r: u32)
    ensures
        r == 10,
{
    10
}

pub fn default_max_trades_per_day() -> (r: u32)
    ensures
        r == 50,
{
    50
}

pub fn default_requests_per_second() -> (r: u32)
    ensures
        r == 10,
{
    10
}

pub fn default_burst_size() -> (r: u32)
    ensures
        r == 30,
{
    30
}

pub fn default_rate_limit_enabled() -> (r: bool)
    ensures
        r == true,
{
    true
}

pub fn default_host() -> (r: String)
    ensures
        r@ == "0.0.0.0"@,
{
    String::from_str("0.0.0.0")
}

pub fn default_port() -> (r: u16)
    ensures
        r == 8080,
{
    8080
}

pub fn default_metrics_port() -> (r: u16)
    ensures
        r == 9090,
{
    9090
}

pub fn default_health_check_port() -> (r: u16)
    ensures
        r == 8081,
{
    8081
}

pub fn default_prometheus_enabled() -> (r: bool)
    ensures
        r == true,
{
    true
}

pub fn default_prometheus_port() -> (r: u16)
    ensures
        r == 9090,
{
    9090
}

pub fn default_telemetry_enabled() -> (r: bool)
    ensures
        r == false,
{
    false
}

pub fn default_env() -> (r: String)
    ensures
        r@ == "development"@,
{
    String::from_str("development")
}

pub fn default_app_name() -> (r: String)
    ensures
        r@ == "solana-trading-bot"@,
{
    String::from_str("solana-trading-bot")
}

pub fn default_app_version() -> (r: String)
    ensures
        r@ == "0.1.0"@,
{
    String::from_str("0.1.0")
}

pub fn default_log_level() -> (r: String)
    ensures
        r@ == "info"@,
{
    String::from_str("info")
}

#[derive(Clone, Debug)]
pub struct SolanaSettings {
    pub rpc_url: String,
    pub ws_url: String,
    pub commitment: String,
    pub timeout_ms: u64,
    pub retry_count: u32,
}

pub fn default_solana() -> (r: SolanaSettings)
    ensures
        r.rpc_url@ == "https://api.mainnet-beta.solana.com"@,
        r.ws_url@ == "wss://api.mainnet-beta.solana.com"@,
        r.commitment@ == "confirmed"@,
        r.timeout_ms == 30000,
        r.retry_count == 3,
{
    SolanaSettings {
        rpc_url: default_solana_rpc_url(),
        ws_url: default_solana_ws_url(),
        commitment: default_commitment(),
        timeout_ms: default_timeout_ms(),
        retry_count: default_retry_count(),
    }
}

#[derive(Clone, Debug)]
pub struct JupiterSettings {
    pub api_url: String,
    pub api_version: String,
    pub timeout_secs: u64,
    pub max_retries: u32,
}

pub fn default_jupiter() -> (r: JupiterSettings)
    ensures
        r.api_url@ == "https://api.jup.ag"@,
        r.api_version@ == "v6"@,
        r.timeout_secs == 30,
        r.max_retries == 3,
{
    JupiterSettings {
        api_url: default_jupiter_api_url(),
        api_version: default_jupiter_api_version(),
        timeout_secs: default_jupiter_timeout_secs(),
        max_retries: default_jupiter_max_retries(),
    }
}

/// Per-user trading ceilings, in lamports and whole counts.
#[derive(Clone, Copy, Debug, PartialEq, Eq, Structural)]
pub struct TradingLimits {
    pub max_trade_amount_lamports: u64,
    pub min_trade_amount_lamports: u64,
    pub max_slippage_bps: u64,
    pub max_trades_per_hour: u32,
    pub max_trades_per_day: u32,
    pub daily_trade_limit_lamports: u64,
}

pub fn default_trading_limits() -> (r: TradingLimits)
    ensures
        r.max_trade_amount_lamports == 10_000_000_000u64,
        r.min_trade_amount_lamports == 10_000_000u64,
        r.max_slippage_bps == 200,
        r.max_trades_per_hour == 10,
        r.max_trades_per_day == 50,
        r.daily_trade_limit_lamports == 100_000_000_000u64,
{
    TradingLimits {
        max_trade_amount_lamports: 10_000_000_000,
        min_trade_amount_lamports: 10_000_000,
        max_slippage_bps: default_max_slippage_bps(),
        max_trades_per_hour: default_max_trades_per_hour(),
        max_trades_per_day: default_max_trades_per_day(),
        daily_trade_limit_lamports: 100_000_000_000,
    }
}

#[derive(Clone, Copy, Debug, PartialEq, Eq, Structural)]
pub struct RateLimitSettings {
    pub requests_per_second: u32,
    pub burst_size: u32,
    pub enabled: bool,
}

pub fn default_rate_limit() -> (r: RateLimitSettings)
    ensures
        r.requests_per_second == 10,
        r.burst_size == 30,
        r.enabled == true,
{
    RateLimitSettings {
        requests_per_second: default_requests_per_second(),
        burst_size: default_burst_size(),
        enabled: default_rate_limit_enabled(),
    }
}

#[derive(Clone, Debug)]
pub struct ApiSettings {
    pub host: String,
    pub port: u16,
    pub metrics_port: u16,
    pub health_check_port: u16,
}

pub fn default_api() -> (r: ApiSettings)
    ensures
        r.host@ == "0.0.0.0"@,
        r.port == 8080,
        r.metrics_port == 9090,
        r.health_check_port == 8081,
{
    ApiSettings {
        host: default_host(),
        port: default_port(),
        metrics_port: default_metrics_port(),
        health_check_port: default_health_check_port(),
    }
}

#[derive(Clone, Debug)]
pub struct MonitoringSettings {
    pub prometheus_enabled: bool,
    pub prometheus_port: u16,
    pub sentry_dsn: Option<String>,
    pub telemetry_enabled: bool,
}

pub fn default_monitoring() -> (r: MonitoringSettings)
    ensures
        r.prometheus_enabled == true,
        r.prometheus_port == 9090,
        r.sentry_dsn is None,
        r.telemetry_enabled == false,
{
    MonitoringSettings {
        prometheus_enabled: default_prometheus_enabled(),
        prometheus_port: default_prometheus_port(),
        sentry_dsn: None,
        telemetry_enabled: default_telemetry_enabled(),
    }
}

/// Where secret material is loaded from; the loading itself is I/O and lives
/// outside the library.
#[derive(Clone, Copy, Debug, PartialEq, Eq, Structural)]
pub enum SecretsBackend {
    Environment,
    HashiCorpVault,
    EncryptedFile,
}

} // verus!
