//! The trade ledger: the record of every attempted trade, the source of
//! truth for "has this already happened", and the guard of the one rule no
//! write may break: a terminal status never changes again.

use vstd::prelude::*;
use vstd::pervasive::VecAdditionalExecFns;
use crate::errors::TradeError;
use crate::window::{spec_in_window, in_window};

verus! {

#[derive(Clone, Copy, Debug, PartialEq, Eq, Structural)]
pub enum TradeType {
    Buy,
    Sell,
    Swap,
}

#[derive(Clone, Copy, Debug, PartialEq, Eq, Structural)]
pub enum TradeStatus {
    Pending,
    Executing,
    Completed,
    Failed,
    Cancelled,
}

/// Completed, Failed and Cancelled are terminal: no transition leaves them.
pub open spec fn spec_is_terminal(s: TradeStatus) -> bool {
    s == TradeStatus::Completed || s == TradeStatus::Failed || s == TradeStatus::Cancelled
}

pub fn is_terminal(s: TradeStatus) -> (r: bool)
    ensures
        r == spec_is_terminal(s),
{
    match s {
        TradeStatus::Completed => true,
        TradeStatus::Failed => true,
        TradeStatus::Cancelled => true,
        TradeStatus::Pending => false,
        TradeStatus::Executing => false,
    }
}

/// The legal moves of the execution state machine: a pending trade starts
/// executing or dies; an executing trade completes or dies; a terminal
/// trade moves nowhere.
pub open spec fn spec_can_transition(from: TradeStatus, to: TradeStatus) -> bool {
    match from {
        TradeStatus::Pending => to == TradeStatus::Executing || to == TradeStatus::Failed || to
            == TradeStatus::Cancelled,
        TradeStatus::Executing => to == TradeStatus::Completed || to == TradeStatus::Failed || to
            == TradeStatus::Cancelled,
        _ => false,
    }
}

pub fn can_transition(from: TradeStatus, to: TradeStatus) -> (r: bool)
    ensures
        r == spec_can_transition(from, to),
{
    match from {
        TradeStatus::Pending => to == TradeStatus::Executing || to == TradeStatus::Failed || to
            == TradeStatus::Cancelled,
        TradeStatus::Executing => to == TradeStatus::Completed || to == TradeStatus::Failed || to
            == TradeStatus::Cancelled,
        _ => false,
    }
}

/// Law: once terminal, always terminal — no transition at all leaves a
/// terminal status.
pub proof fn lemma_terminal_is_final(s: TradeStatus)
    requires
        spec_is_terminal(s),
    ensures
        forall|t: TradeStatus| !spec_can_transition(s, t),
{
}

/// One attempted value exchange. Amounts are in smallest token units; the
/// price is the realized output per input, scaled by 10^9.
#[derive(Clone, Debug)]
pub struct Trade {
    pub id: u64,
    pub user_id: i64,
    pub trade_type: TradeType,
    pub input_mint: String,
    pub output_mint: String,
    pub input_amount: u64,
    pub output_amount: u64,
    pub input_symbol: String,
    pub output_symbol: String,
    pub price: u64,
    pub slippage_bps: u16,
    pub transaction_signature: String,
    pub status: TradeStatus,
    pub error_message: Option<String>,
    pub jupiter_quote_id: Option<String>,
    pub idempotency_key: String,
    pub created_at: u64,
    pub updated_at: u64,
    pub completed_at: Option<u64>,
}

/// The fields a status change may set alongside the new status.
#[derive(Clone, Debug)]
pub struct TradeUpdate {
    pub transaction_signature: Option<String>,
    pub error_message: Option<String>,
    pub output_amount: Option<u64>,
    pub price: Option<u64>,
}

impl TradeUpdate {
    /// An update that carries nothing but the new status.
    pub fn none() -> (r: TradeUpdate)
        ensures
            r.transaction_signature is None,
            r.error_message is None,
            r.output_amount is None,
            r.price is None,
    {
        TradeUpdate { transaction_signature: None, error_message: None, output_amount: None, price: None }
    }
}

/// The trade as it stands after a status change is applied at `now`.
pub open spec fn spec_apply_update(
    t: Trade,
    new_status: TradeStatus,
    upd: TradeUpdate,
    now: u64,
) -> Trade {
    Trade {
        status: new_status,
        updated_at: now,
        completed_at: if spec_is_terminal(new_status) {
            Some(now)
        } else {
            None
        },
        transaction_signature: match upd.transaction_signature {
            Some(s) => s,
            None => t.transaction_signature,
        },
        error_message: match upd.error_message {
            Some(m) => Some(m),
            None => t.error_message,
        },
        output_amount: match upd.output_amount {
            Some(a) => a,
            None => t.output_amount,
        },
        price: match upd.price {
            Some(p) => p,
            None => t.price,
        },
        ..t
    }
}

/// The completed trades of a user whose completion instant lies in the
/// trailing window: their number...
pub open spec fn spec_completed_count(s: Seq<Trade>, user_id: i64, now: u64, window: u64) -> int
    decreases s.len(),
{
    if s.len() == 0 {
        0
    } else {
        spec_completed_count(s.drop_last(), user_id, now, window) + if spec_counts_completed(
            s.last(),
            user_id,
            now,
            window,
        ) {
            1int
        } else {
            0int
        }
    }
}

/// ... and their total input volume.
pub open spec fn spec_completed_volume(s: Seq<Trade>, user_id: i64, now: u64, window: u64) -> int
    decreases s.len(),
{
    if s.len() == 0 {
        0
    } else {
        spec_completed_volume(s.drop_last(), user_id, now, window) + if spec_counts_completed(
            s.last(),
            user_id,
            now,
            window,
        ) {
            s.last().input_amount as int
        } else {
            0int
        }
    }
}

pub open spec fn spec_counts_completed(t: Trade, user_id: i64, now: u64, window: u64) -> bool {
    &&& t.user_id == user_id
    &&& t.status == TradeStatus::Completed
    &&& t.completed_at matches Some(at) && spec_in_window(at, now, window)
}

/// Every trade ever attempted, in insertion order; a trade's id is its
/// position.
pub struct TradeLedger {
    trades: Vec<Trade>,
}

impl TradeLedger {
    pub closed spec fn spec_trades(&self) -> Seq<Trade> {
        self.trades@
    }

    /// The ledger's invariant: ids are positions, non-empty signatures are
    /// unique, and the completion instant is recorded exactly on terminal
    /// trades.
    pub open spec fn wf(&self) -> bool {
        &&& forall|i: int|
            0 <= i < self.spec_trades().len() ==> #[trigger] self.spec_trades()[i].id == i as u64
        &&& forall|i: int, j: int|
            0 <= i < self.spec_trades().len() && 0 <= j < self.spec_trades().len() && i != j
                && #[trigger] self.spec_trades()[i].transaction_signature@.len() > 0
                ==> self.spec_trades()[i].transaction_signature@
                != #[trigger] self.spec_trades()[j].transaction_signature@
        &&& forall|i: int|
            0 <= i < self.spec_trades().len() ==> ((#[trigger] self.spec_trades()[i].completed_at)
                is Some <==> spec_is_terminal(self.spec_trades()[i].status))
    }

    pub fn new() -> (r: TradeLedger)
        ensures
            r.wf(),
            r.spec_trades().len() == 0,
    {
        TradeLedger { trades: Vec::new() }
    }

    pub fn len(&self) -> (r: usize)
        ensures
            r == self.spec_trades().len(),
    {
        self.trades.len()
    }

    pub fn get(&self, trade_id: u64) -> (r: Option<&Trade>)
        ensures
            trade_id < self.spec_trades().len() ==> (r matches Some(t) && *t == self.spec_trades()[trade_id as int]),
            trade_id >= self.spec_trades().len() ==> r is None,
    {
        if trade_id < self.trades.len() as u64 {
            Some(&self.trades[trade_id as usize])
        } else {
            None
        }
    }

    /// Record a fresh pending trade; its id is assigned here.
    pub fn insert(&mut self, t: Trade) -> (r: u64)
        requires
            old(self).wf(),
            old(self).spec_trades().len() < 0xffff_ffff_ffff_ffffu64,
            t.status == TradeStatus::Pending,
            t.transaction_signature@.len() == 0,
            t.completed_at is None,
        ensures
            final(self).wf(),
            r == old(self).spec_trades().len(),
            final(self).spec_trades() == old(self).spec_trades().push(
                Trade { id: old(self).spec_trades().len() as u64, ..t },
            ),
    {
        let id = self.trades.len() as u64;
        let mut t = t;
        t.id = id;
        self.trades.push(t);
        id
    }

    /// Whether no trade carries this non-empty signature yet.
    pub open spec fn spec_sig_free(&self, sig: Seq<char>) -> bool {
        forall|i: int|
            0 <= i < self.spec_trades().len()
                ==> #[trigger] self.spec_trades()[i].transaction_signature@ != sig
    }

    /// Change a trade's status. Success happens exactly when the trade
    /// exists and the move is legal; a trade in a terminal status is left
    /// untouched and the caller gets InvalidTransition back.
    pub fn update_status(
        &mut self,
        trade_id: u64,
        new_status: TradeStatus,
        upd: TradeUpdate,
        now: u64,
    ) -> (r: Result<(), TradeError>)
        requires
            old(self).wf(),
            upd.transaction_signature matches Some(s) ==> s@.len() > 0 && old(self).spec_sig_free(
                s@,
            ),
        ensures
            final(self).wf(),
            r is Ok <==> trade_id < old(self).spec_trades().len() && spec_can_transition(
                old(self).spec_trades()[trade_id as int].status,
                new_status,
            ),
            r is Ok ==> final(self).spec_trades() == old(self).spec_trades().update(
                trade_id as int,
                spec_apply_update(
                    old(self).spec_trades()[trade_id as int],
                    new_status,
                    upd,
                    now,
                ),
            ),
            r is Err ==> *final(self) == *old(self),
            r matches Err(e) ==> e == TradeError::InvalidTransition,
            trade_id < old(self).spec_trades().len() && spec_is_terminal(
                old(self).spec_trades()[trade_id as int].status,
            ) ==> r is Err,
    {
        if trade_id >= self.trades.len() as u64 {
            return Err(TradeError::InvalidTransition);
        }
        let idx = trade_id as usize;
        if !can_transition(self.trades[idx].status, new_status) {
            return Err(TradeError::InvalidTransition);
        }
        let old_trade = &self.trades[idx];
        let updated = Trade {
            id: old_trade.id,
            user_id: old_trade.user_id,
            trade_type: old_trade.trade_type,
            input_mint: old_trade.input_mint.clone(),
            output_mint: old_trade.output_mint.clone(),
            input_amount: old_trade.input_amount,
            output_amount: match &upd.output_amount {
                Some(a) => *a,
                None => old_trade.output_amount,
            },
            input_symbol: old_trade.input_symbol.clone(),
            output_symbol: old_trade.output_symbol.clone(),
            price: match &upd.price {
                Some(p) => *p,
                None => old_trade.price,
            },
            slippage_bps: old_trade.slippage_bps,
            transaction_signature: match upd.transaction_signature {
                Some(s) => s,
                None => old_trade.transaction_signature.clone(),
            },
            status: new_status,
            error_message: match upd.error_message {
                Some(m) => Some(m),
                None => match &old_trade.error_message {
                    Some(m) => Some(m.clone()),
                    None => None,
                },
            },
            jupiter_quote_id: match &old_trade.jupiter_quote_id {
                Some(q) => Some(q.clone()),
                None => None,
            },
            idempotency_key: old_trade.idempotency_key.clone(),
            created_at: old_trade.created_at,
            updated_at: now,
            completed_at: if is_terminal(new_status) {
                Some(now)
            } else {
                None
            },
        };
        self.trades.set(idx, updated);
        proof {
            let s0 = old(self).spec_trades();
            let s1 = self.spec_trades();
            let nt = spec_apply_update(s0[idx as int], new_status, upd, now);
            assert(s1[idx as int] == nt);
            assert(s1 =~= s0.update(idx as int, nt));
            assert forall|i: int| 0 <= i < s1.len() implies #[trigger] s1[i].id == i as u64 by {
                if i != idx as int {
                    assert(s1[i] == s0[i]);
                }
            }
            assert forall|i: int, j: int|
                0 <= i < s1.len() && 0 <= j < s1.len() && i != j
                    && #[trigger] s1[i].transaction_signature@.len() > 0 implies s1[i].transaction_signature@ != #[trigger] s1[j].transaction_signature@ by {
                if i == idx as int {
                    match upd.transaction_signature {
                        Some(s) => {
                            assert(s1[j] == s0[j]);
                            assert(s0[j].transaction_signature@ != s@);
                        },
                        None => {
                            assert(s1[i].transaction_signature@ == s0[i].transaction_signature@);
                        },
                    }
                } else if j == idx as int {
                    match upd.transaction_signature {
                        Some(s) => {
                            assert(s0[i].transaction_signature@ != s@);
                        },
                        None => {
                            assert(s1[j].transaction_signature@ == s0[j].transaction_signature@);
                        },
                    }
                } else {
                    assert(s1[i] == s0[i]);
                    assert(s1[j] == s0[j]);
                }
            }
            assert forall|i: int| 0 <= i < s1.len() implies ((#[trigger] s1[i].completed_at)
                is Some <==> spec_is_terminal(s1[i].status)) by {
                if i != idx as int {
                    assert(s1[i] == s0[i]);
                }
            }
        }
        Ok(())
    }

    /// The double-submission guard: find the trade carrying a non-empty
    /// signature.
    pub fn find_by_signature(&self, sig: &String) -> (r: Option<u64>)
        requires
            self.wf(),
        ensures
            r matches Some(id) ==> id < self.spec_trades().len() && sig@.len() > 0
                && self.spec_trades()[id as int].transaction_signature@ == sig@,
            r is None ==> sig@.len() == 0 || self.spec_sig_free(sig@),
    {
        if sig.as_str().unicode_len() == 0 {
            return None;
        }
        let n = self.trades.len();
        let mut i: usize = 0;
        while i < n
            invariant
                i <= n,
                n == self.spec_trades().len(),
                sig@.len() > 0,
                forall|j: int|
                    0 <= j < i ==> #[trigger] self.spec_trades()[j].transaction_signature@ != sig@,
            decreases n - i,
        {
            if self.trades[i].transaction_signature == *sig {
                return Some(i as u64);
            }
            i = i + 1;
        }
        None
    }

    /// The idempotency guard: the first trade of this key that did not
    /// fail. A failed attempt does not block a retry under the same key.
    pub fn find_by_idempotency_key(&self, key: &String) -> (r: Option<u64>)
        requires
            self.wf(),
        ensures
            r matches Some(id) ==> id < self.spec_trades().len() && self.spec_trades()[id as int].idempotency_key@ == key@ && self.spec_trades()[id as int].status
                != TradeStatus::Failed,
            r is None ==> forall|i: int|
                0 <= i < self.spec_trades().len() ==> !(#[trigger] self.spec_trades()[i].idempotency_key@ == key@ && self.spec_trades()[i].status != TradeStatus::Failed),
    {
        let n = self.trades.len();
        let mut i: usize = 0;
        while i < n
            invariant
                i <= n,
                n == self.spec_trades().len(),
                forall|j: int|
                    0 <= j < i ==> !(#[trigger] self.spec_trades()[j].idempotency_key@ == key@
                        && self.spec_trades()[j].status != TradeStatus::Failed),
            decreases n - i,
        {
            if self.trades[i].idempotency_key == *key && !is_terminal_failed(
                self.trades[i].status,
            ) {
                return Some(i as u64);
            }
            i = i + 1;
        }
        None
    }

    /// The rolling counters that feed limit decisions: how many trades a
    /// user completed in the trailing window, and their input volume.
    pub fn rolling_counters(&self, user_id: i64, window: u64, now: u64) -> (r: (u64, u128))
        ensures
            r.0 == spec_completed_count(self.spec_trades(), user_id, now, window),
            r.1 == spec_completed_volume(self.spec_trades(), user_id, now, window),
    {
        let n = self.trades.len();
        let mut count: u64 = 0;
        let mut volume: u128 = 0;
        let mut i: usize = 0;
        proof {
            lemma_completed_bounds(self.spec_trades().take(0), user_id, now, window);
        }
        while i < n
            invariant
                i <= n,
                n == self.spec_trades().len(),
                count == spec_completed_count(
                    self.spec_trades().take(i as int),
                    user_id,
                    now,
                    window,
                ),
                volume == spec_completed_volume(
                    self.spec_trades().take(i as int),
                    user_id,
                    now,
                    window,
                ),
            decreases n - i,
        {
            proof {
                lemma_completed_bounds(
                    self.spec_trades().take(i + 1 as int),
                    user_id,
                    now,
                    window,
                );
                assert(self.spec_trades().take(i + 1 as int).drop_last() =~= self.spec_trades()
                    .take(i as int));
                assert(self.spec_trades().take(i + 1 as int).last() == self.spec_trades()[i as int]);
            }
            let t = &self.trades[i];
            let hit = t.user_id == user_id && matches!(t.status, TradeStatus::Completed) && (match t
                .completed_at {
                Some(at) => in_window(at, now, window),
                None => false,
            });
            if hit {
                count = count + 1;
                volume = volume + (t.input_amount as u128);
            }
            i = i + 1;
        }
        proof {
            assert(self.spec_trades().take(n as int) =~= self.spec_trades());
        }
        (count, volume)
    }
}

fn is_terminal_failed(s: TradeStatus) -> (r: bool)
    ensures
        r == (s == TradeStatus::Failed),
{
    match s {
        TradeStatus::Failed => true,
        _ => false,
    }
}

/// The rolling counters stay within machine bounds: at most one count and
/// one input amount per recorded trade.
proof fn lemma_completed_bounds(s: Seq<Trade>, user_id: i64, now: u64, window: u64)
    ensures
        0 <= spec_completed_count(s, user_id, now, window) <= s.len(),
        0 <= spec_completed_volume(s, user_id, now, window) <= s.len() * 0xffff_ffff_ffff_ffffu64,
    decreases s.len(),
{
    if s.len() == 0 {
    } else {
        lemma_completed_bounds(s.drop_last(), user_id, now, window);
        let n = s.len() as int;
        assert((n - 1) * (0xffff_ffff_ffff_ffffu64 as int) + (0xffff_ffff_ffff_ffffu64 as int) == n
            * (0xffff_ffff_ffff_ffffu64 as int)) by (nonlinear_arith);
        assert(s.drop_last().len() == n - 1);
    }
}

} // verus!
