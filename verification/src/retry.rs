//! The one backoff-retry rule every outbound call uses: transient failures
//! are retried with bounded exponential backoff, permanent ones are not.

use vstd::prelude::*;
use crate::errors::QuoteErrorKind;

verus! {

/// Timeouts, server errors and rate limiting are transient; client errors
/// and malformed responses are permanent.
pub open spec fn spec_is_retryable(k: QuoteErrorKind) -> bool {
    match k {
        QuoteErrorKind::Timeout => true,
        QuoteErrorKind::ServerError => true,
        QuoteErrorKind::RateLimited => true,
        QuoteErrorKind::ClientError => false,
        QuoteErrorKind::MalformedResponse => false,
    }
}

pub fn is_retryable(k: QuoteErrorKind) -> (r: bool)
    ensures
        r == spec_is_retryable(k),
{
    match k {
        QuoteErrorKind::Timeout => true,
        QuoteErrorKind::ServerError => true,
        QuoteErrorKind::RateLimited => true,
        QuoteErrorKind::ClientError => false,
        QuoteErrorKind::MalformedResponse => false,
    }
}

/// Classify an HTTP status code the way the gateway treats responses:
/// success passes, 5xx and 429 are transient, any other failure code is a
/// caller error.
pub open spec fn spec_classify_status(code: u16) -> Option<QuoteErrorKind> {
    if 200 <= code < 300 {
        None
    } else if code == 429 {
        Some(QuoteErrorKind::RateLimited)
    } else if 500 <= code < 600 {
        Some(QuoteErrorKind::ServerError)
    } else {
        Some(QuoteErrorKind::ClientError)
    }
}

pub fn classify_status(code: u16) -> (r: Option<QuoteErrorKind>)
    ensures
        r == spec_classify_status(code),
{
    if 200 <= code && code < 300 {
        None
    } else if code == 429 {
        Some(QuoteErrorKind::RateLimited)
    } else if 500 <= code && code < 600 {
        Some(QuoteErrorKind::ServerError)
    } else {
        Some(QuoteErrorKind::ClientError)
    }
}

/// Bounded exponential backoff: the delay before attempt `n + 1` doubles
/// with each attempt already made and never passes `cap_ms`.
pub open spec fn spec_backoff_delay(base_ms: u64, cap_ms: u64, attempts_made: u32) -> u64
    decreases attempts_made,
{
    if base_ms >= cap_ms {
        cap_ms
    } else if attempts_made == 0 {
        base_ms
    } else {
        let prev = spec_backoff_delay(base_ms, cap_ms, (attempts_made - 1) as u32);
        if prev >= cap_ms || prev * 2 >= cap_ms {
            cap_ms
        } else {
            (prev * 2) as u64
        }
    }
}

/// What to do after a failed attempt. `attempts_made` counts the failures so
/// far, this one included.
#[derive(Clone, Copy, Debug, PartialEq, Eq, Structural)]
pub enum RetryDecision {
    RetryAfter(u64),
    GiveUp,
}

#[derive(Clone, Copy, Debug, PartialEq, Eq, Structural)]
pub struct RetryPolicy {
    pub max_attempts: u32,
    pub base_delay_ms: u64,
    pub max_delay_ms: u64,
}

impl RetryPolicy {
    pub fn backoff_delay_ms(&self, attempts_made: u32) -> (r: u64)
        ensures
            r == spec_backoff_delay(self.base_delay_ms, self.max_delay_ms, attempts_made),
            r <= self.max_delay_ms || r == self.base_delay_ms,
    {
        if self.base_delay_ms >= self.max_delay_ms {
            return self.max_delay_ms;
        }
        let mut delay: u64 = self.base_delay_ms;
        let mut i: u32 = 0;
        while i < attempts_made
            invariant
                i <= attempts_made,
                delay == spec_backoff_delay(self.base_delay_ms, self.max_delay_ms, i),
                delay <= self.max_delay_ms,
                self.base_delay_ms < self.max_delay_ms,
            decreases attempts_made - i,
        {
            if delay >= self.max_delay_ms - self.max_delay_ms / 2 {
                delay = self.max_delay_ms;
            } else {
                delay = delay * 2;
            }
            i = i + 1;
        }
        delay
    }

    /// A failed attempt is retried exactly when its error is transient and
    /// the attempt budget is not yet spent.
    pub fn decide(&self, attempts_made: u32, err: QuoteErrorKind) -> (r: RetryDecision)
        ensures
            (spec_is_retryable(err) && attempts_made < self.max_attempts) ==> r
                == RetryDecision::RetryAfter(
                spec_backoff_delay(self.base_delay_ms, self.max_delay_ms, attempts_made),
            ),
            !(spec_is_retryable(err) && attempts_made < self.max_attempts) ==> r
                == RetryDecision::GiveUp,
    {
        if is_retryable(err) && attempts_made < self.max_attempts {
            RetryDecision::RetryAfter(self.backoff_delay_ms(attempts_made))
        } else {
            RetryDecision::GiveUp
        }
    }
}

} // verus!
