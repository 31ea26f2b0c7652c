//! TradeExecutor: the state machine that turns a validated intent into a
//! terminal trade record. It owns every status transition; the outside
//! world (quote HTTP calls, signing, network submission) is driven through
//! actions and events, so each decision here is a function of the recorded
//! state and the event alone.
//!
//! Shape of a run: `start_trade` validates, replays idempotent
//! re-submissions, records a pending trade and reserves limit capacity;
//! the caller then performs each requested action and reports its outcome
//! through the matching `on_*` event until the trade is terminal.

use vstd::prelude::*;
use crate::config::TradingLimits;
use crate::errors::{TradeError, QuoteErrorKind};
use crate::ledger::{
    Trade,
    TradeLedger,
    TradeStatus,
    TradeType,
    TradeUpdate,
    spec_apply_update,
};
use crate::limits::{
    LimitGuard,
    Reservation,
    spec_admit,
    spec_reject_reason,
    spec_after_reserve,
    spec_after_commit,
    spec_after_release,
};
use crate::quote::Quote;
use crate::retry::{is_retryable, spec_is_retryable};
use crate::solana::{is_supported_mint, spec_is_supported_mint};

verus! {

/// What a caller submits: the trade it wants, in plain values.
#[derive(Clone, Debug)]
pub struct TradeIntent {
    pub user_id: i64,
    pub trade_type: TradeType,
    pub input_mint: String,
    pub output_mint: String,
    pub input_symbol: String,
    pub output_symbol: String,
    pub amount_lamports: u64,
    pub max_slippage_bps: u16,
    pub idempotency_key: String,
}

/// An intent is well-shaped when its amount is non-zero, its mint pair is
/// known and distinct, and its slippage is within the configured ceiling.
pub open spec fn spec_intent_valid(intent: TradeIntent, limits: TradingLimits) -> bool {
    &&& intent.amount_lamports > 0
    &&& spec_is_supported_mint(intent.input_mint@)
    &&& spec_is_supported_mint(intent.output_mint@)
    &&& intent.input_mint@ != intent.output_mint@
    &&& intent.max_slippage_bps as u64 <= limits.max_slippage_bps
}

pub fn validate_intent(intent: &TradeIntent, limits: &TradingLimits) -> (r: bool)
    ensures
        r == spec_intent_valid(*intent, *limits),
{
    intent.amount_lamports > 0 && is_supported_mint(&intent.input_mint) && is_supported_mint(
        &intent.output_mint,
    ) && !(intent.input_mint == intent.output_mint) && intent.max_slippage_bps as u64
        <= limits.max_slippage_bps
}

/// Where an in-flight trade stands; each phase accepts exactly one event.
#[derive(Clone, Copy, Debug, PartialEq, Eq, Structural)]
pub enum ExecPhase {
    Quoting,
    Building,
    Signing,
    Submitting,
}

/// The handle for one in-flight trade.
#[derive(Clone, Copy, Debug, PartialEq, Eq, Structural)]
pub struct ExecSession {
    pub trade_id: u64,
    pub user_id: i64,
    pub reservation: Reservation,
    pub phase: ExecPhase,
    pub attempts: u32,
}

/// The outside work the caller must perform next.
#[derive(Clone, Copy, Debug, PartialEq, Eq, Structural)]
pub enum StepAction {
    RequestQuote,
    BuildSwap,
    SignTransaction,
    Submit,
}

/// One step of the machine: either the trade goes on, or it is terminal.
#[derive(Clone, Copy, Debug, PartialEq, Eq, Structural)]
pub enum StepOutcome {
    Continue(ExecSession, StepAction),
    Finished(u64),
}

/// How `start_trade` answered.
#[derive(Clone, Debug, PartialEq, Eq, Structural)]
pub enum StartOutcome {
    /// An earlier non-failed trade carries this idempotency key: its id,
    /// with nothing recorded and nothing reserved.
    Existing(u64),
    /// A pending trade was recorded and capacity reserved; request a quote.
    Started(ExecSession),
    /// A trade was recorded and immediately failed (limit rejection).
    Failed(u64, TradeError),
}

/// What the network said about a submitted transaction.
#[derive(Clone, Debug)]
pub enum SubmitOutcome {
    Confirmed { signature: String, output_amount: u64, price: u64 },
    Rejected,
    Unknown,
}

/// The same trade, moved to Failed at `now` with `e` recorded, everything
/// else untouched.
pub open spec fn spec_failed_as(tr0: Trade, tr1: Trade, e: TradeError, now: u64) -> bool {
    &&& tr1.status == TradeStatus::Failed
    &&& tr1.error_message matches Some(m) && m@ == e.describe_spec()
    &&& tr1.completed_at == Some(now)
    &&& tr1.updated_at == now
    &&& tr1.id == tr0.id
    &&& tr1.user_id == tr0.user_id
    &&& tr1.input_amount == tr0.input_amount
    &&& tr1.transaction_signature@ == tr0.transaction_signature@
    &&& tr1.idempotency_key@ == tr0.idempotency_key@
    &&& tr1.created_at == tr0.created_at
}

/// The ledgers agree everywhere but (at most) one position.
pub open spec fn spec_only_changed(s0: Seq<Trade>, s1: Seq<Trade>, id: u64) -> bool {
    &&& s1.len() == s0.len()
    &&& forall|j: int| 0 <= j < s0.len() && j != id as int ==> s1[j] == s0[j]
}

pub struct TradeExecutor {
    ledger: TradeLedger,
    guard: LimitGuard,
    limits: TradingLimits,
    max_quote_attempts: u32,
}

/// What taking in an intent under a fresh idempotency key leaves behind:
/// no earlier live trade carried the key, exactly one trade was appended
/// and carries the intent's data, the guard's clock moved to `now`, and no
/// other user's entries moved.
pub open spec fn spec_fresh_recorded(
    pre: TradeExecutor,
    post: TradeExecutor,
    intent: TradeIntent,
    now: u64,
) -> bool {
    let id = pre.spec_trades().len();
    let pending = post.spec_trades()[id as int];
    &&& forall|i: int|
        0 <= i < pre.spec_trades().len() ==> !(#[trigger] pre.spec_trades()[i].idempotency_key@
            == intent.idempotency_key@ && pre.spec_trades()[i].status != TradeStatus::Failed)
    &&& post.spec_guard().spec_clock() == if now > pre.spec_guard().spec_clock() {
        now
    } else {
        pre.spec_guard().spec_clock()
    }
    &&& post.spec_trades().len() == id + 1
    &&& forall|j: int| 0 <= j < id ==> post.spec_trades()[j] == pre.spec_trades()[j]
    &&& pending.id == id
    &&& pending.user_id == intent.user_id
    &&& pending.input_amount == intent.amount_lamports
    &&& pending.idempotency_key@ == intent.idempotency_key@
    &&& pending.transaction_signature@.len() == 0
    &&& pending.created_at == now
    &&& pending.input_mint@ == intent.input_mint@
    &&& pending.output_mint@ == intent.output_mint@
    &&& pending.slippage_bps == intent.max_slippage_bps
    &&& forall|u: i64|
        u != intent.user_id ==> #[trigger] post.spec_guard().spec_entries(u)
            == pre.spec_guard().spec_entries(u)
}

/// Law: whatever history of intents and events an executor has taken in,
/// the committed volume of any user inside any trailing day window stays
/// within that user's daily trade limit.
pub proof fn lemma_executor_daily_volume(ex: &TradeExecutor, user_id: i64, at: u64)
    requires
        ex.wf(),
    ensures
        crate::limits::spec_committed_volume(
            ex.spec_guard().spec_entries(user_id),
            at,
            crate::window::DAY_SECS,
        ) <= ex.spec_guard().spec_daily_limit(user_id),
{
    crate::limits::lemma_daily_volume_never_exceeded(&ex.spec_guard(), user_id, at);
}

/// Law: a re-submission under a live idempotency key can record nothing:
/// no post-state that appends a fresh trade is consistent with an earlier
/// non-failed trade carrying the same key, so by `start_trade`'s contract
/// the repeat call returns the existing trade's id with the executor — the
/// ledger and every reservation — untouched.
pub proof fn lemma_idempotent_replay(
    pre: TradeExecutor,
    post: TradeExecutor,
    intent: TradeIntent,
    now: u64,
    id0: u64,
)
    requires
        id0 < pre.spec_trades().len(),
        pre.spec_trades()[id0 as int].idempotency_key@ == intent.idempotency_key@,
        pre.spec_trades()[id0 as int].status != TradeStatus::Failed,
    ensures
        !spec_fresh_recorded(pre, post, intent, now),
{
}

impl TradeExecutor {
    pub closed spec fn spec_ledger(&self) -> TradeLedger {
        self.ledger
    }

    pub closed spec fn spec_guard(&self) -> LimitGuard {
        self.guard
    }

    pub closed spec fn spec_limits(&self) -> TradingLimits {
        self.limits
    }

    pub closed spec fn spec_max_quote_attempts(&self) -> u32 {
        self.max_quote_attempts
    }

    pub open spec fn spec_trades(&self) -> Seq<Trade> {
        self.spec_ledger().spec_trades()
    }

    pub open spec fn wf(&self) -> bool {
        &&& self.spec_ledger().wf()
        &&& self.spec_guard().wf()
        &&& self.spec_guard().spec_limits() == self.spec_limits()
    }

    /// A session is live when its trade exists, belongs to its user, and
    /// stands in the status its phase expects.
    pub open spec fn session_wf(&self, s: ExecSession) -> bool {
        &&& s.trade_id < self.spec_trades().len()
        &&& self.spec_trades()[s.trade_id as int].user_id == s.user_id
        &&& (s.phase == ExecPhase::Quoting ==> self.spec_trades()[s.trade_id as int].status
            == TradeStatus::Pending)
        &&& (s.phase != ExecPhase::Quoting ==> self.spec_trades()[s.trade_id as int].status
            == TradeStatus::Executing)
        &&& s.reservation.user_id == s.user_id
        &&& s.attempts <= self.spec_max_quote_attempts()
    }

    pub fn new(limits: TradingLimits, max_quote_attempts: u32) -> (r: TradeExecutor)
        ensures
            r.wf(),
            r.spec_limits() == limits,
            r.spec_max_quote_attempts() == max_quote_attempts,
            r.spec_trades().len() == 0,
            r.spec_guard().spec_clock() == 0,
            forall|u: i64|
                #[trigger] r.spec_guard().spec_entries(u) == Seq::<
                    crate::limits::LimitEntry,
                >::empty(),
    {
        TradeExecutor {
            ledger: TradeLedger::new(),
            guard: LimitGuard::new(limits),
            limits,
            max_quote_attempts,
        }
    }

    pub fn ledger(&self) -> (r: &TradeLedger)
        ensures
            *r == self.spec_ledger(),
    {
        &self.ledger
    }

    pub fn guard(&self) -> (r: &LimitGuard)
        ensures
            *r == self.spec_guard(),
    {
        &self.guard
    }

    /// Administrative operation: set a user's daily volume ceiling. A new
    /// user takes any value; a known user's ceiling may only be raised.
    pub fn set_user_daily_limit(&mut self, user_id: i64, new_limit: u64) -> (r: bool)
        requires
            old(self).wf(),
        ensures
            final(self).wf(),
            final(self).spec_ledger() == old(self).spec_ledger(),
            final(self).spec_limits() == old(self).spec_limits(),
            final(self).spec_max_quote_attempts() == old(self).spec_max_quote_attempts(),
            r == (!old(self).spec_guard().spec_known_user(user_id) || new_limit >= old(
                self,
            ).spec_guard().spec_daily_limit(user_id)),
            r ==> final(self).spec_guard().spec_daily_limit(user_id) == new_limit,
            !r ==> *final(self) == *old(self),
            forall|u: i64|
                #[trigger] final(self).spec_guard().spec_entries(u) == old(
                    self,
                ).spec_guard().spec_entries(u),
    {
        self.guard.set_daily_limit(user_id, new_limit)
    }

    /// Take one intent in. An invalid intent is refused with nothing
    /// recorded; a known non-failed idempotency key replays the earlier
    /// trade with nothing recorded and nothing reserved; otherwise a
    /// pending trade is recorded, and capacity is reserved or the trade
    /// fails at once with the most specific violated ceiling.
    pub fn start_trade(&mut self, intent: &TradeIntent, now: u64) -> (r: Result<
        StartOutcome,
        TradeError,
    >)
        requires
            old(self).wf(),
            old(self).spec_trades().len() < 0xffff_ffff_ffff_ffffu64,
        ensures
            final(self).wf(),
            final(self).spec_limits() == old(self).spec_limits(),
            final(self).spec_max_quote_attempts() == old(self).spec_max_quote_attempts(),
            // Invalid intents are refused outright.
            r matches Err(e) ==> e == TradeError::InvalidIntent && !spec_intent_valid(
                *intent,
                old(self).spec_limits(),
            ) && *final(self) == *old(self),
            r is Err <==> !spec_intent_valid(*intent, old(self).spec_limits()),
            // Idempotent replay: key known and not failed — nothing
            // changes. A fresh key leads to a recorded trade, admitted or
            // failed at once.
            r matches Ok(o) ==> (match o {
                StartOutcome::Existing(id) => *final(self) == *old(self) && id < old(
                    self,
                ).spec_trades().len() && old(self).spec_trades()[id as int].idempotency_key@
                    == intent.idempotency_key@ && old(self).spec_trades()[id as int].status
                    != TradeStatus::Failed,
                StartOutcome::Started(s) => {
                    let t = final(self).spec_guard().spec_clock();
                    let before = old(self).spec_guard().spec_entries(intent.user_id);
                    let id = old(self).spec_trades().len();
                    let pending = final(self).spec_trades()[id as int];
                    &&& spec_fresh_recorded(*old(self), *final(self), *intent, now)
                    &&& spec_admit(
                        before,
                        old(self).spec_limits(),
                        old(self).spec_guard().spec_daily_limit(intent.user_id),
                        intent.amount_lamports,
                        t,
                    )
                    &&& pending.status == TradeStatus::Pending
                    &&& s.trade_id == id && s.user_id == intent.user_id && s.phase
                        == ExecPhase::Quoting && s.attempts == 0
                    &&& s.reservation.user_id == intent.user_id && s.reservation.amount
                        == intent.amount_lamports && s.reservation.ts == t && s.reservation.id
                        == before.len()
                    &&& final(self).spec_guard().spec_entries(intent.user_id)
                        == spec_after_reserve(before, intent.amount_lamports, t)
                    &&& final(self).session_wf(s)
                },
                StartOutcome::Failed(fid, e) => {
                    let t = final(self).spec_guard().spec_clock();
                    let before = old(self).spec_guard().spec_entries(intent.user_id);
                    let id = old(self).spec_trades().len();
                    let pending = final(self).spec_trades()[id as int];
                    &&& spec_fresh_recorded(*old(self), *final(self), *intent, now)
                    &&& !spec_admit(
                        before,
                        old(self).spec_limits(),
                        old(self).spec_guard().spec_daily_limit(intent.user_id),
                        intent.amount_lamports,
                        t,
                    )
                    &&& fid == id
                    &&& e == TradeError::LimitExceeded(
                        spec_reject_reason(
                            before,
                            old(self).spec_limits(),
                            old(self).spec_guard().spec_daily_limit(intent.user_id),
                            intent.amount_lamports,
                            t,
                        ),
                    )
                    &&& pending.status == TradeStatus::Failed
                    &&& pending.error_message matches Some(m) && m@ == e.describe_spec()
                    &&& final(self).spec_guard().spec_entries(intent.user_id) == before
                },
            }),
    {
        if !validate_intent(intent, &self.limits) {
            return Err(TradeError::InvalidIntent);
        }
        // Idempotent replay?
        match self.ledger.find_by_idempotency_key(&intent.idempotency_key) {
            Some(id) => {
                return Ok(StartOutcome::Existing(id));
            },
            None => {},
        }
        // Record the pending trade.
        let trade = Trade {
            id: 0,
            user_id: intent.user_id,
            trade_type: intent.trade_type,
            input_mint: intent.input_mint.clone(),
            output_mint: intent.output_mint.clone(),
            input_amount: intent.amount_lamports,
            output_amount: 0,
            input_symbol: intent.input_symbol.clone(),
            output_symbol: intent.output_symbol.clone(),
            price: 0,
            slippage_bps: intent.max_slippage_bps,
            transaction_signature: String::new(),
            status: TradeStatus::Pending,
            error_message: None,
            jupiter_quote_id: None,
            idempotency_key: intent.idempotency_key.clone(),
            created_at: now,
            updated_at: now,
            completed_at: None,
        };
        let id = self.ledger.insert(trade);
        // Reserve capacity.
        match self.guard.try_reserve(intent.user_id, intent.amount_lamports, now) {
            Ok(reservation) => {
                let session = ExecSession {
                    trade_id: id,
                    user_id: intent.user_id,
                    reservation,
                    phase: ExecPhase::Quoting,
                    attempts: 0,
                };
                Ok(StartOutcome::Started(session))
            },
            Err(reason) => {
                let e = TradeError::LimitExceeded(reason);
                let upd = TradeUpdate {
                    transaction_signature: None,
                    error_message: Some(e.describe()),
                    output_amount: None,
                    price: None,
                };
                let _ = self.ledger.update_status(id, TradeStatus::Failed, upd, now);
                Ok(StartOutcome::Failed(id, e))
            },
        }
    }

    /// The gateway answered a quote request. A priced quote moves the
    /// trade to Executing; a transient error within the retry budget asks
    /// for another attempt; anything else releases the reservation and
    /// fails the trade as QuoteUnavailable.
    pub fn on_quote_result(
        &mut self,
        s: ExecSession,
        result: &Result<Quote, QuoteErrorKind>,
        now: u64,
    ) -> (r: StepOutcome)
        requires
            old(self).wf(),
            old(self).session_wf(s),
            s.phase == ExecPhase::Quoting,
        ensures
            final(self).wf(),
            final(self).spec_limits() == old(self).spec_limits(),
            final(self).spec_max_quote_attempts() == old(self).spec_max_quote_attempts(),
            final(self).spec_trades().len() == old(self).spec_trades().len(),
            spec_only_changed(old(self).spec_trades(), final(self).spec_trades(), s.trade_id),
            result is Ok ==> ({
                &&& r == StepOutcome::Continue(
                    ExecSession { phase: ExecPhase::Building, attempts: 0, ..s },
                    StepAction::BuildSwap,
                )
                &&& final(self).spec_trades()[s.trade_id as int].status == TradeStatus::Executing
                &&& final(self).spec_guard() == old(self).spec_guard()
                &&& final(self).session_wf(
                    ExecSession { phase: ExecPhase::Building, attempts: 0, ..s },
                )
            }),
            result matches Err(k) && spec_is_retryable(*k) && s.attempts + 1 < old(
                self,
            ).spec_max_quote_attempts() ==> ({
                &&& r == StepOutcome::Continue(
                    ExecSession { attempts: (s.attempts + 1) as u32, ..s },
                    StepAction::RequestQuote,
                )
                &&& *final(self) == *old(self)
            }),
            result matches Err(k) && !(spec_is_retryable(*k) && s.attempts + 1 < old(
                self,
            ).spec_max_quote_attempts()) ==> ({
                &&& r == StepOutcome::Finished(s.trade_id)
                &&& spec_failed_as(
                    old(self).spec_trades()[s.trade_id as int],
                    final(self).spec_trades()[s.trade_id as int],
                    TradeError::QuoteUnavailable,
                    now,
                )
                &&& final(self).spec_guard().spec_entries(s.user_id) == spec_after_release(
                    old(self).spec_guard().spec_entries(s.user_id),
                    s.reservation.id,
                )
            }),
    {
        match result {
            Ok(_) => {
                let upd = TradeUpdate {
                    transaction_signature: None,
                    error_message: None,
                    output_amount: None,
                    price: None,
                };
                let _ = self.ledger.update_status(
                    s.trade_id,
                    TradeStatus::Executing,
                    upd,
                    now,
                );
                let s2 = ExecSession { phase: ExecPhase::Building, attempts: 0, ..s };
                StepOutcome::Continue(s2, StepAction::BuildSwap)
            },
            Err(kind) => {
                if is_retryable(*kind) && self.max_quote_attempts >= 1 && s.attempts
                    < self.max_quote_attempts - 1 {
                    let s2 = ExecSession { attempts: s.attempts + 1, ..s };
                    StepOutcome::Continue(s2, StepAction::RequestQuote)
                } else {
                    self.fail_trade(s, TradeError::QuoteUnavailable, now);
                    StepOutcome::Finished(s.trade_id)
                }
            },
        }
    }

    /// The gateway answered a swap-build request. Success moves on to
    /// signing; a transient error within the retry budget asks again;
    /// anything else releases the reservation and fails the trade.
    pub fn on_build_result(
        &mut self,
        s: ExecSession,
        result: &Result<(), QuoteErrorKind>,
        now: u64,
    ) -> (r: StepOutcome)
        requires
            old(self).wf(),
            old(self).session_wf(s),
            s.phase == ExecPhase::Building,
        ensures
            final(self).wf(),
            final(self).spec_limits() == old(self).spec_limits(),
            final(self).spec_max_quote_attempts() == old(self).spec_max_quote_attempts(),
            final(self).spec_trades().len() == old(self).spec_trades().len(),
            spec_only_changed(old(self).spec_trades(), final(self).spec_trades(), s.trade_id),
            result is Ok ==> ({
                &&& r == StepOutcome::Continue(
                    ExecSession { phase: ExecPhase::Signing, attempts: 0, ..s },
                    StepAction::SignTransaction,
                )
                &&& *final(self) == *old(self)
                &&& final(self).session_wf(
                    ExecSession { phase: ExecPhase::Signing, attempts: 0, ..s },
                )
            }),
            result matches Err(k) && spec_is_retryable(*k) && s.attempts + 1 < old(
                self,
            ).spec_max_quote_attempts() ==> ({
                &&& r == StepOutcome::Continue(
                    ExecSession { attempts: (s.attempts + 1) as u32, ..s },
                    StepAction::BuildSwap,
                )
                &&& *final(self) == *old(self)
            }),
            result matches Err(k) && !(spec_is_retryable(*k) && s.attempts + 1 < old(
                self,
            ).spec_max_quote_attempts()) ==> ({
                &&& r == StepOutcome::Finished(s.trade_id)
                &&& spec_failed_as(
                    old(self).spec_trades()[s.trade_id as int],
                    final(self).spec_trades()[s.trade_id as int],
                    TradeError::QuoteUnavailable,
                    now,
                )
                &&& final(self).spec_guard().spec_entries(s.user_id) == spec_after_release(
                    old(self).spec_guard().spec_entries(s.user_id),
                    s.reservation.id,
                )
            }),
    {
        match result {
            Ok(_) => {
                let s2 = ExecSession { phase: ExecPhase::Signing, attempts: 0, ..s };
                StepOutcome::Continue(s2, StepAction::SignTransaction)
            },
            Err(kind) => {
                if is_retryable(*kind) && self.max_quote_attempts >= 1 && s.attempts
                    < self.max_quote_attempts - 1 {
                    let s2 = ExecSession { attempts: s.attempts + 1, ..s };
                    StepOutcome::Continue(s2, StepAction::BuildSwap)
                } else {
                    self.fail_trade(s, TradeError::QuoteUnavailable, now);
                    StepOutcome::Finished(s.trade_id)
                }
            },
        }
    }

    /// The vault signed, or refused to. A signature moves on to
    /// submission; a failure is fatal to the attempt, never retried: the
    /// reservation is released and the trade fails as
    /// AuthenticationFailure.
    pub fn on_sign_result(&mut self, s: ExecSession, signed: bool, now: u64) -> (r: StepOutcome)
        requires
            old(self).wf(),
            old(self).session_wf(s),
            s.phase == ExecPhase::Signing,
        ensures
            final(self).wf(),
            final(self).spec_limits() == old(self).spec_limits(),
            final(self).spec_max_quote_attempts() == old(self).spec_max_quote_attempts(),
            final(self).spec_trades().len() == old(self).spec_trades().len(),
            spec_only_changed(old(self).spec_trades(), final(self).spec_trades(), s.trade_id),
            signed ==> ({
                &&& r == StepOutcome::Continue(
                    ExecSession { phase: ExecPhase::Submitting, attempts: 0, ..s },
                    StepAction::Submit,
                )
                &&& *final(self) == *old(self)
                &&& final(self).session_wf(
                    ExecSession { phase: ExecPhase::Submitting, attempts: 0, ..s },
                )
            }),
            !signed ==> ({
                &&& r == StepOutcome::Finished(s.trade_id)
                &&& spec_failed_as(
                    old(self).spec_trades()[s.trade_id as int],
                    final(self).spec_trades()[s.trade_id as int],
                    TradeError::AuthenticationFailure,
                    now,
                )
                &&& final(self).spec_guard().spec_entries(s.user_id) == spec_after_release(
                    old(self).spec_guard().spec_entries(s.user_id),
                    s.reservation.id,
                )
            }),
    {
        if signed {
            let s2 = ExecSession { phase: ExecPhase::Submitting, attempts: 0, ..s };
            StepOutcome::Continue(s2, StepAction::Submit)
        } else {
            self.fail_trade(s, TradeError::AuthenticationFailure, now);
            StepOutcome::Finished(s.trade_id)
        }
    }

    /// The network answered, or went silent. Confirmation commits the
    /// reservation and completes the trade — one call, one unit of work.
    /// Rejection fails the trade. An unknown outcome is never treated as
    /// success and never retried: the trade fails with the unknown-outcome
    /// marker and the reservation is released, not committed.
    pub fn on_submit_result(
        &mut self,
        s: ExecSession,
        outcome: SubmitOutcome,
        now: u64,
    ) -> (r: StepOutcome)
        requires
            old(self).wf(),
            old(self).session_wf(s),
            s.phase == ExecPhase::Submitting,
        ensures
            final(self).wf(),
            final(self).spec_limits() == old(self).spec_limits(),
            final(self).spec_max_quote_attempts() == old(self).spec_max_quote_attempts(),
            final(self).spec_trades().len() == old(self).spec_trades().len(),
            spec_only_changed(old(self).spec_trades(), final(self).spec_trades(), s.trade_id),
            r == StepOutcome::Finished(s.trade_id),
            ({
                let tr0 = old(self).spec_trades()[s.trade_id as int];
                let tr1 = final(self).spec_trades()[s.trade_id as int];
                let before = old(self).spec_guard().spec_entries(s.user_id);
                match outcome {
                    SubmitOutcome::Confirmed { signature, output_amount, price } => {
                        if signature@.len() > 0 && old(self).spec_ledger().spec_sig_free(
                            signature@,
                        ) {
                            &&& tr1 == spec_apply_update(
                                tr0,
                                TradeStatus::Completed,
                                TradeUpdate {
                                    transaction_signature: Some(signature),
                                    error_message: None,
                                    output_amount: Some(output_amount),
                                    price: Some(price),
                                },
                                now,
                            )
                            &&& tr1.status == TradeStatus::Completed
                            &&& tr1.transaction_signature@ == signature@
                            &&& final(self).spec_guard().spec_entries(s.user_id)
                                == spec_after_commit(before, s.reservation.id)
                        } else if signature@.len() > 0 {
                            &&& spec_failed_as(tr0, tr1, TradeError::SubmissionFailed, now)
                            &&& final(self).spec_guard().spec_entries(s.user_id)
                                == spec_after_release(before, s.reservation.id)
                        } else {
                            &&& spec_failed_as(tr0, tr1, TradeError::UnknownOutcome, now)
                            &&& final(self).spec_guard().spec_entries(s.user_id)
                                == spec_after_release(before, s.reservation.id)
                        }
                    },
                    SubmitOutcome::Rejected => {
                        &&& spec_failed_as(tr0, tr1, TradeError::SubmissionFailed, now)
                        &&& final(self).spec_guard().spec_entries(s.user_id)
                            == spec_after_release(before, s.reservation.id)
                    },
                    SubmitOutcome::Unknown => {
                        &&& spec_failed_as(tr0, tr1, TradeError::UnknownOutcome, now)
                        &&& final(self).spec_guard().spec_entries(s.user_id)
                            == spec_after_release(before, s.reservation.id)
                    },
                }
            }),
    {
        match outcome {
            SubmitOutcome::Confirmed { signature, output_amount, price } => {
                if signature.as_str().unicode_len() == 0 {
                    // No usable confirmation reference: treat as unknown.
                    self.fail_trade(s, TradeError::UnknownOutcome, now);
                    return StepOutcome::Finished(s.trade_id);
                }
                match self.ledger.find_by_signature(&signature) {
                    Some(_) => {
                        // The signature is already recorded: a double
                        // submission; this attempt cannot have produced it.
                        self.fail_trade(s, TradeError::SubmissionFailed, now);
                        StepOutcome::Finished(s.trade_id)
                    },
                    None => {
                        // Commit and complete as one unit of work.
                        self.guard.commit(&s.reservation);
                        let upd = TradeUpdate {
                            transaction_signature: Some(signature),
                            error_message: None,
                            output_amount: Some(output_amount),
                            price: Some(price),
                        };
                        let _ = self.ledger.update_status(
                            s.trade_id,
                            TradeStatus::Completed,
                            upd,
                            now,
                        );
                        StepOutcome::Finished(s.trade_id)
                    },
                }
            },
            SubmitOutcome::Rejected => {
                self.fail_trade(s, TradeError::SubmissionFailed, now);
                StepOutcome::Finished(s.trade_id)
            },
            SubmitOutcome::Unknown => {
                self.fail_trade(s, TradeError::UnknownOutcome, now);
                StepOutcome::Finished(s.trade_id)
            },
        }
    }

    /// Cooperative cancellation: possible until the transaction has gone
    /// out to the network, impossible after.
    pub fn cancel(&mut self, s: ExecSession, now: u64) -> (r: Result<u64, TradeError>)
        requires
            old(self).wf(),
            old(self).session_wf(s),
        ensures
            final(self).wf(),
            final(self).spec_limits() == old(self).spec_limits(),
            final(self).spec_max_quote_attempts() == old(self).spec_max_quote_attempts(),
            s.phase == ExecPhase::Submitting ==> r == Result::<u64, TradeError>::Err(
                TradeError::TooLateToCancel,
            ) && *final(self) == *old(self),
            s.phase != ExecPhase::Submitting ==> ({
                &&& r == Result::<u64, TradeError>::Ok(s.trade_id)
                &&& spec_only_changed(
                    old(self).spec_trades(),
                    final(self).spec_trades(),
                    s.trade_id,
                )
                &&& final(self).spec_trades().len() == old(self).spec_trades().len()
                &&& final(self).spec_trades()[s.trade_id as int].status == TradeStatus::Cancelled
                &&& final(self).spec_trades()[s.trade_id as int].completed_at == Some(now)
                &&& final(self).spec_guard().spec_entries(s.user_id) == spec_after_release(
                    old(self).spec_guard().spec_entries(s.user_id),
                    s.reservation.id,
                )
            }),
    {
        if matches!(s.phase, ExecPhase::Submitting) {
            return Err(TradeError::TooLateToCancel);
        }
        self.guard.release(&s.reservation);
        let upd = TradeUpdate {
            transaction_signature: None,
            error_message: None,
            output_amount: None,
            price: None,
        };
        let _ = self.ledger.update_status(s.trade_id, TradeStatus::Cancelled, upd, now);
        Ok(s.trade_id)
    }

    /// Release the reservation and record the trade as failed with `e` —
    /// the one failure path every non-confirmed ending goes through.
    fn fail_trade(&mut self, s: ExecSession, e: TradeError, now: u64)
        requires
            old(self).wf(),
            old(self).session_wf(s),
        ensures
            final(self).wf(),
            final(self).spec_limits() == old(self).spec_limits(),
            final(self).spec_max_quote_attempts() == old(self).spec_max_quote_attempts(),
            final(self).spec_trades().len() == old(self).spec_trades().len(),
            spec_only_changed(old(self).spec_trades(), final(self).spec_trades(), s.trade_id),
            spec_failed_as(
                old(self).spec_trades()[s.trade_id as int],
                final(self).spec_trades()[s.trade_id as int],
                e,
                now,
            ),
            final(self).spec_guard().spec_entries(s.user_id) == spec_after_release(
                old(self).spec_guard().spec_entries(s.user_id),
                s.reservation.id,
            ),
            forall|u: i64|
                u != s.user_id ==> #[trigger] final(self).spec_guard().spec_entries(u) == old(
                    self,
                ).spec_guard().spec_entries(u),
    {
        self.guard.release(&s.reservation);
        let upd = TradeUpdate {
            transaction_signature: None,
            error_message: Some(e.describe()),
            output_amount: None,
            price: None,
        };
        let _ = self.ledger.update_status(s.trade_id, TradeStatus::Failed, upd, now);
    }
}

} // verus!
