//! Error taxonomy of the core: which failures a caller can see, and when.

use vstd::prelude::*;

verus! {

/// The ceiling that a rejected reservation violated, most specific first:
/// the single-trade cap is reported over the aggregate caps.
#[derive(Clone, Copy, Debug, PartialEq, Eq, Structural)]
pub enum LimitReason {
    SingleTradeCap,
    HourlyTradeCount,
    DailyTradeCount,
    DailyVolumeCap,
}

impl LimitReason {
    pub open spec fn describe_spec(&self) -> Seq<char> {
        match self {
            LimitReason::SingleTradeCap => "single-trade amount cap exceeded"@,
            LimitReason::HourlyTradeCount => "hourly trade count cap exceeded"@,
            LimitReason::DailyTradeCount => "daily trade count cap exceeded"@,
            LimitReason::DailyVolumeCap => "daily volume cap exceeded"@,
        }
    }

    pub fn describe(&self) -> (r: String)
        ensures
            r@ == self.describe_spec(),
    {
        match self {
            LimitReason::SingleTradeCap => String::from_str("single-trade amount cap exceeded"),
            LimitReason::HourlyTradeCount => String::from_str("hourly trade count cap exceeded"),
            LimitReason::DailyTradeCount => String::from_str("daily trade count cap exceeded"),
            LimitReason::DailyVolumeCap => String::from_str("daily volume cap exceeded"),
        }
    }
}

/// Failures of the key vault. A wrong password and a tampered blob are
/// reported alike, so the error is no oracle for an attacker.
#[derive(Clone, Copy, Debug, PartialEq, Eq, Structural)]
pub enum VaultError {
    AuthenticationFailure,
    MalformedBlob,
    StorageUnavailable,
}

/// How a quote or swap-build call failed; decides whether a retry is allowed.
#[derive(Clone, Copy, Debug, PartialEq, Eq, Structural)]
pub enum QuoteErrorKind {
    Timeout,
    ServerError,
    RateLimited,
    ClientError,
    MalformedResponse,
}

/// The caller-visible outcome taxonomy of trade execution.
#[derive(Clone, Copy, Debug, PartialEq, Eq, Structural)]
pub enum TradeError {
    InvalidIntent,
    LimitExceeded(LimitReason),
    QuoteUnavailable,
    AuthenticationFailure,
    SubmissionFailed,
    UnknownOutcome,
    InvalidTransition,
    TooLateToCancel,
}

impl TradeError {
    pub open spec fn describe_spec(&self) -> Seq<char> {
        match self {
            TradeError::InvalidIntent => "invalid intent"@,
            TradeError::LimitExceeded(reason) => reason.describe_spec(),
            TradeError::QuoteUnavailable => "quote unavailable after retries"@,
            TradeError::AuthenticationFailure => "authentication failure"@,
            TradeError::SubmissionFailed => "submission rejected on-chain"@,
            TradeError::UnknownOutcome => "unknown outcome: submitted but unconfirmed, reconcile manually"@,
            TradeError::InvalidTransition => "invalid status transition"@,
            TradeError::TooLateToCancel => "too late to cancel"@,
        }
    }

    pub fn describe(&self) -> (r: String)
        ensures
            r@ == self.describe_spec(),
    {
        match self {
            TradeError::InvalidIntent => String::from_str("invalid intent"),
            TradeError::LimitExceeded(reason) => reason.describe(),
            TradeError::QuoteUnavailable => String::from_str("quote unavailable after retries"),
            TradeError::AuthenticationFailure => String::from_str("authentication failure"),
            TradeError::SubmissionFailed => String::from_str("submission rejected on-chain"),
            TradeError::UnknownOutcome => String::from_str(
                "unknown outcome: submitted but unconfirmed, reconcile manually",
            ),
            TradeError::InvalidTransition => String::from_str("invalid status transition"),
            TradeError::TooLateToCancel => String::from_str("too late to cancel"),
        }
    }
}

} // verus!
