//! LimitGuard: per-user admission control over trade size, hourly and daily
//! counts, and daily volume, under rolling windows.
//!
//! Every admission first passes all four ceilings including the new trade;
//! a rejection names the most specific violated ceiling. Reservations are
//! provisional until committed; releasing one undoes it. The guard's
//! invariant carries the central law: in no trailing day window does the
//! admitted (and hence the committed) volume exceed the daily limit.

use vstd::prelude::*;
use vstd::pervasive::VecAdditionalExecFns;
use crate::config::TradingLimits;
use crate::errors::LimitReason;
use crate::window::{spec_in_window, in_window, HOUR_SECS, DAY_SECS};

verus! {

#[derive(Clone, Copy, Debug, PartialEq, Eq, Structural)]
pub enum ReservationState {
    Active,
    Committed,
    Released,
}

/// One admitted reservation of a user: when it was admitted, how much, and
/// whether it still counts.
#[derive(Clone, Copy, Debug, PartialEq, Eq, Structural)]
pub struct LimitEntry {
    pub ts: u64,
    pub amount: u64,
    pub state: ReservationState,
}

/// The provisional claim handed back to the caller; `id` is the position
/// of its entry among the user's admissions.
#[derive(Clone, Copy, Debug, PartialEq, Eq, Structural)]
pub struct Reservation {
    pub id: u64,
    pub user_id: i64,
    pub amount: u64,
    pub ts: u64,
}

/// Active and committed entries count against the ceilings; released ones
/// do not.
pub open spec fn spec_entry_counts(e: LimitEntry) -> bool {
    e.state != ReservationState::Released
}

/// The admitted volume inside the trailing window ending at `now`.
pub open spec fn spec_win_volume(s: Seq<LimitEntry>, now: u64, w: u64) -> int
    decreases s.len(),
{
    if s.len() == 0 {
        0
    } else {
        spec_win_volume(s.drop_last(), now, w) + if spec_entry_counts(s.last()) && spec_in_window(
            s.last().ts,
            now,
            w,
        ) {
            s.last().amount as int
        } else {
            0int
        }
    }
}

/// The number of admissions inside the trailing window ending at `now`.
pub open spec fn spec_win_count(s: Seq<LimitEntry>, now: u64, w: u64) -> int
    decreases s.len(),
{
    if s.len() == 0 {
        0
    } else {
        spec_win_count(s.drop_last(), now, w) + if spec_entry_counts(s.last()) && spec_in_window(
            s.last().ts,
            now,
            w,
        ) {
            1int
        } else {
            0int
        }
    }
}

/// The committed volume inside the trailing window ending at `now`.
pub open spec fn spec_committed_volume(s: Seq<LimitEntry>, now: u64, w: u64) -> int
    decreases s.len(),
{
    if s.len() == 0 {
        0
    } else {
        spec_committed_volume(s.drop_last(), now, w) + if s.last().state
            == ReservationState::Committed && spec_in_window(s.last().ts, now, w) {
            s.last().amount as int
        } else {
            0int
        }
    }
}

/// A new trade of `amount` at instant `t` fits when none of the four
/// ceilings would be exceeded with it included; the daily volume ceiling
/// is the user's own.
pub open spec fn spec_admit(
    s: Seq<LimitEntry>,
    limits: TradingLimits,
    daily_limit: u64,
    amount: u64,
    t: u64,
) -> bool {
    &&& amount <= limits.max_trade_amount_lamports
    &&& spec_win_count(s, t, HOUR_SECS) + 1 <= limits.max_trades_per_hour
    &&& spec_win_count(s, t, DAY_SECS) + 1 <= limits.max_trades_per_day
    &&& spec_win_volume(s, t, DAY_SECS) + amount <= daily_limit
}

/// The most specific violated ceiling, single-trade cap first, aggregate
/// caps after, counts before volume.
pub open spec fn spec_reject_reason(
    s: Seq<LimitEntry>,
    limits: TradingLimits,
    daily_limit: u64,
    amount: u64,
    t: u64,
) -> LimitReason {
    if amount > limits.max_trade_amount_lamports {
        LimitReason::SingleTradeCap
    } else if spec_win_count(s, t, HOUR_SECS) + 1 > limits.max_trades_per_hour {
        LimitReason::HourlyTradeCount
    } else if spec_win_count(s, t, DAY_SECS) + 1 > limits.max_trades_per_day {
        LimitReason::DailyTradeCount
    } else {
        LimitReason::DailyVolumeCap
    }
}

/// A user's entries after an admission at instant `t`.
pub open spec fn spec_after_reserve(s: Seq<LimitEntry>, amount: u64, t: u64) -> Seq<LimitEntry> {
    s.push(LimitEntry { ts: t, amount, state: ReservationState::Active })
}

/// A user's entries after committing the reservation at position `id`:
/// only an active entry moves to committed, so committing is idempotent.
pub open spec fn spec_after_commit(s: Seq<LimitEntry>, id: u64) -> Seq<LimitEntry> {
    if id < s.len() && s[id as int].state == ReservationState::Active {
        s.update(id as int, LimitEntry { state: ReservationState::Committed, ..s[id as int] })
    } else {
        s
    }
}

/// A user's entries after releasing the reservation at position `id`: only
/// an active entry is undone; a committed one stays counted.
pub open spec fn spec_after_release(s: Seq<LimitEntry>, id: u64) -> Seq<LimitEntry> {
    if id < s.len() && s[id as int].state == ReservationState::Active {
        s.update(id as int, LimitEntry { state: ReservationState::Released, ..s[id as int] })
    } else {
        s
    }
}

struct UserWindow {
    user_id: i64,
    daily_limit: u64,
    entries: Vec<LimitEntry>,
}

/// Per-user admission control; all amounts in lamports.
pub struct LimitGuard {
    limits: TradingLimits,
    users: Vec<UserWindow>,
    clock: u64,
}

spec fn spec_entries_of(users: Seq<UserWindow>, user_id: i64) -> Seq<LimitEntry>
    decreases users.len(),
{
    if users.len() == 0 {
        Seq::<LimitEntry>::empty()
    } else if users[0].user_id == user_id {
        users[0].entries@
    } else {
        spec_entries_of(users.drop_first(), user_id)
    }
}

spec fn spec_daily_limit_of(users: Seq<UserWindow>, user_id: i64, default: u64) -> u64
    decreases users.len(),
{
    if users.len() == 0 {
        default
    } else if users[0].user_id == user_id {
        users[0].daily_limit
    } else {
        spec_daily_limit_of(users.drop_first(), user_id, default)
    }
}

spec fn spec_users_unique(users: Seq<UserWindow>) -> bool {
    forall|a: int, b: int|
        0 <= a < b < users.len() ==> (#[trigger] users[a].user_id) != (#[trigger] users[b].user_id)
}

/// The ceilings hold of one user's history at every evaluation instant,
/// and every entry is in the guard's past.
spec fn spec_user_wf(entries: Seq<LimitEntry>, limits: TradingLimits, daily_limit: u64, clock: u64) -> bool {
    &&& forall|i: int| 0 <= i < entries.len() ==> (#[trigger] entries[i].ts) <= clock
    &&& forall|i: int|
        0 <= i < entries.len() ==> (#[trigger] entries[i].amount)
            <= limits.max_trade_amount_lamports
    &&& forall|t: u64| #[trigger] spec_win_volume(entries, t, DAY_SECS) <= daily_limit
    &&& forall|t: u64| #[trigger] spec_win_count(entries, t, DAY_SECS) <= limits.max_trades_per_day
    &&& forall|t: u64|
        #[trigger] spec_win_count(entries, t, HOUR_SECS) <= limits.max_trades_per_hour
}

proof fn lemma_entries_of_found(users: Seq<UserWindow>, user_id: i64, i: int)
    requires
        spec_users_unique(users),
        0 <= i < users.len(),
        users[i].user_id == user_id,
    ensures
        spec_entries_of(users, user_id) == users[i].entries@,
    decreases i,
{
    if i > 0 {
        assert(users[0].user_id != user_id);
        let rest = users.drop_first();
        assert(rest[i - 1] == users[i]);
        assert forall|a: int, b: int| 0 <= a < b < rest.len() implies (#[trigger] rest[a].user_id)
            != (#[trigger] rest[b].user_id) by {
            assert(rest[a] == users[a + 1]);
            assert(rest[b] == users[b + 1]);
        }
        lemma_entries_of_found(rest, user_id, i - 1);
    }
}

proof fn lemma_entries_of_absent(users: Seq<UserWindow>, user_id: i64)
    requires
        forall|a: int| 0 <= a < users.len() ==> (#[trigger] users[a].user_id) != user_id,
    ensures
        spec_entries_of(users, user_id) == Seq::<LimitEntry>::empty(),
    decreases users.len(),
{
    if users.len() > 0 {
        let rest = users.drop_first();
        assert forall|a: int| 0 <= a < rest.len() implies (#[trigger] rest[a].user_id)
            != user_id by {
            assert(rest[a] == users[a + 1]);
        }
        lemma_entries_of_absent(rest, user_id);
    }
}

proof fn lemma_entries_of_update_other(users: Seq<UserWindow>, i: int, w2: UserWindow, u: i64)
    requires
        0 <= i < users.len(),
        w2.user_id == users[i].user_id,
        u != w2.user_id,
    ensures
        spec_entries_of(users.update(i, w2), u) == spec_entries_of(users, u),
    decreases users.len(),
{
    let users2 = users.update(i, w2);
    if i == 0 {
        assert(users2[0].user_id != u);
        assert(users[0].user_id != u);
        assert(users2.drop_first() =~= users.drop_first());
    } else {
        assert(users2[0] == users[0]);
        if users[0].user_id == u {
        } else {
            assert(users2.drop_first() =~= users.drop_first().update(i - 1, w2));
            assert(users.drop_first()[i - 1] == users[i]);
            lemma_entries_of_update_other(users.drop_first(), i - 1, w2, u);
        }
    }
}

proof fn lemma_entries_of_push(users: Seq<UserWindow>, w: UserWindow, u: i64)
    requires
        u != w.user_id,
    ensures
        spec_entries_of(users.push(w), u) == spec_entries_of(users, u),
    decreases users.len(),
{
    let users2 = users.push(w);
    if users.len() == 0 {
        assert(users2[0].user_id != u);
        assert(users2.drop_first() =~= Seq::<UserWindow>::empty());
        assert(spec_entries_of(users2, u) == spec_entries_of(
            Seq::<UserWindow>::empty(),
            u,
        ));
    } else {
        assert(users2[0] == users[0]);
        if users[0].user_id == u {
            assert(spec_entries_of(users2, u) == users2[0].entries@);
            assert(spec_entries_of(users, u) == users[0].entries@);
        } else {
            assert(users2.drop_first() =~= users.drop_first().push(w));
            lemma_entries_of_push(users.drop_first(), w, u);
            assert(spec_entries_of(users2, u) == spec_entries_of(users2.drop_first(), u));
            assert(spec_entries_of(users, u) == spec_entries_of(users.drop_first(), u));
        }
    }
}

proof fn lemma_daily_limit_of_found(users: Seq<UserWindow>, user_id: i64, i: int, default: u64)
    requires
        spec_users_unique(users),
        0 <= i < users.len(),
        users[i].user_id == user_id,
    ensures
        spec_daily_limit_of(users, user_id, default) == users[i].daily_limit,
    decreases i,
{
    if i > 0 {
        assert(users[0].user_id != user_id);
        let rest = users.drop_first();
        assert(rest[i - 1] == users[i]);
        assert forall|a: int, b: int| 0 <= a < b < rest.len() implies (#[trigger] rest[a].user_id)
            != (#[trigger] rest[b].user_id) by {
            assert(rest[a] == users[a + 1]);
            assert(rest[b] == users[b + 1]);
        }
        lemma_daily_limit_of_found(rest, user_id, i - 1, default);
    }
}

proof fn lemma_daily_limit_of_absent(users: Seq<UserWindow>, user_id: i64, default: u64)
    requires
        forall|a: int| 0 <= a < users.len() ==> (#[trigger] users[a].user_id) != user_id,
    ensures
        spec_daily_limit_of(users, user_id, default) == default,
    decreases users.len(),
{
    if users.len() > 0 {
        let rest = users.drop_first();
        assert forall|a: int| 0 <= a < rest.len() implies (#[trigger] rest[a].user_id)
            != user_id by {
            assert(rest[a] == users[a + 1]);
        }
        lemma_daily_limit_of_absent(rest, user_id, default);
    }
}

proof fn lemma_daily_limit_of_update_other(
    users: Seq<UserWindow>,
    i: int,
    w2: UserWindow,
    u: i64,
    default: u64,
)
    requires
        0 <= i < users.len(),
        w2.user_id == users[i].user_id,
        u != w2.user_id,
    ensures
        spec_daily_limit_of(users.update(i, w2), u, default) == spec_daily_limit_of(
            users,
            u,
            default,
        ),
    decreases users.len(),
{
    let users2 = users.update(i, w2);
    if i == 0 {
        assert(users2[0].user_id != u);
        assert(users[0].user_id != u);
        assert(users2.drop_first() =~= users.drop_first());
    } else {
        assert(users2[0] == users[0]);
        if users[0].user_id == u {
        } else {
            assert(users2.drop_first() =~= users.drop_first().update(i - 1, w2));
            assert(users.drop_first()[i - 1] == users[i]);
            lemma_daily_limit_of_update_other(users.drop_first(), i - 1, w2, u, default);
        }
    }
}

proof fn lemma_daily_limit_of_push(users: Seq<UserWindow>, w: UserWindow, u: i64, default: u64)
    requires
        u != w.user_id,
    ensures
        spec_daily_limit_of(users.push(w), u, default) == spec_daily_limit_of(users, u, default),
    decreases users.len(),
{
    let users2 = users.push(w);
    if users.len() == 0 {
        assert(users2[0].user_id != u);
        assert(users2.drop_first() =~= Seq::<UserWindow>::empty());
        assert(spec_daily_limit_of(users2, u, default) == spec_daily_limit_of(
            Seq::<UserWindow>::empty(),
            u,
            default,
        ));
    } else {
        assert(users2[0] == users[0]);
        if users[0].user_id == u {
        } else {
            assert(users2.drop_first() =~= users.drop_first().push(w));
            lemma_daily_limit_of_push(users.drop_first(), w, u, default);
            assert(spec_daily_limit_of(users2, u, default) == spec_daily_limit_of(
                users2.drop_first(),
                u,
                default,
            ));
            assert(spec_daily_limit_of(users, u, default) == spec_daily_limit_of(
                users.drop_first(),
                u,
                default,
            ));
        }
    }
}

/// Narrowing the evaluation instant backward toward the newest entry can
/// only grow the window's contents: if every entry happened by `t1` and
/// `t1 <= t2`, whatever the window at `t2` holds, the window at `t1` holds.
proof fn lemma_win_mono(s: Seq<LimitEntry>, t1: u64, t2: u64, w: u64)
    requires
        forall|i: int| 0 <= i < s.len() ==> (#[trigger] s[i].ts) <= t1,
        t1 <= t2,
    ensures
        spec_win_volume(s, t2, w) <= spec_win_volume(s, t1, w),
        spec_win_count(s, t2, w) <= spec_win_count(s, t1, w),
    decreases s.len(),
{
    if s.len() > 0 {
        let butlast = s.drop_last();
        assert(forall|i: int| 0 <= i < butlast.len() ==> (#[trigger] butlast[i].ts) <= t1);
        lemma_win_mono(butlast, t1, t2, w);
    }
}

/// Window sums are bounded and ordered: counts by the length, volumes from
/// below by the committed share, all from below by zero.
proof fn lemma_win_bounds(s: Seq<LimitEntry>, now: u64, w: u64)
    ensures
        0 <= spec_win_count(s, now, w) <= s.len(),
        0 <= spec_win_volume(s, now, w),
        0 <= spec_committed_volume(s, now, w) <= spec_win_volume(s, now, w),
    decreases s.len(),
{
    if s.len() > 0 {
        lemma_win_bounds(s.drop_last(), now, w);
    }
}

/// A prefix of the history never holds more than the whole.
proof fn lemma_win_take_le(s: Seq<LimitEntry>, k: int, now: u64, w: u64)
    requires
        0 <= k <= s.len(),
    ensures
        spec_win_volume(s.take(k), now, w) <= spec_win_volume(s, now, w),
        spec_win_count(s.take(k), now, w) <= spec_win_count(s, now, w),
    decreases s.len() - k,
{
    if k == s.len() {
        assert(s.take(k) =~= s);
    } else {
        assert(s.take(k + 1).drop_last() =~= s.take(k));
        lemma_win_take_le(s, k + 1, now, w);
    }
}

/// Flipping one entry's state without touching its instant or amount
/// changes no window sum unless the entry stops counting, and then the
/// sums only shrink.
proof fn lemma_win_update_state(s: Seq<LimitEntry>, i: int, e2: LimitEntry, now: u64, w: u64)
    requires
        0 <= i < s.len(),
        e2.ts == s[i].ts,
        e2.amount == s[i].amount,
    ensures
        spec_entry_counts(e2) == spec_entry_counts(s[i]) ==> spec_win_volume(
            s.update(i, e2),
            now,
            w,
        ) == spec_win_volume(s, now, w) && spec_win_count(s.update(i, e2), now, w)
            == spec_win_count(s, now, w),
        !spec_entry_counts(e2) ==> spec_win_volume(s.update(i, e2), now, w) <= spec_win_volume(
            s,
            now,
            w,
        ) && spec_win_count(s.update(i, e2), now, w) <= spec_win_count(s, now, w),
    decreases s.len(),
{
    let s2 = s.update(i, e2);
    if i == s.len() - 1 {
        assert(s2.drop_last() =~= s.drop_last());
        assert(s2.last() == e2);
    } else {
        assert(s2.drop_last() =~= s.drop_last().update(i, e2));
        assert(s2.last() == s.last());
        lemma_win_update_state(s.drop_last(), i, e2, now, w);
    }
}

impl LimitGuard {
    pub closed spec fn spec_limits(&self) -> TradingLimits {
        self.limits
    }

    pub closed spec fn spec_clock(&self) -> u64 {
        self.clock
    }

    /// The user's admission history, oldest first; empty for a user never
    /// seen.
    pub closed spec fn spec_entries(&self, user_id: i64) -> Seq<LimitEntry> {
        spec_entries_of(self.users@, user_id)
    }

    /// The user's daily volume ceiling: their own where one was set, the
    /// configured default otherwise.
    pub closed spec fn spec_daily_limit(&self, user_id: i64) -> u64 {
        spec_daily_limit_of(self.users@, user_id, self.limits.daily_trade_limit_lamports)
    }

    /// Whether the guard has seen this user.
    pub closed spec fn spec_known_user(&self, user_id: i64) -> bool {
        exists|i: int| 0 <= i < self.users@.len() && (#[trigger] self.users@[i].user_id) == user_id
    }

    /// The guard's invariant: distinct users, every entry in the guard's
    /// past, and — at every evaluation instant — all ceilings honoured.
    pub closed spec fn wf(&self) -> bool {
        &&& spec_users_unique(self.users@)
        &&& forall|u: int|
            0 <= u < self.users@.len() ==> spec_user_wf(
                (#[trigger] self.users@[u]).entries@,
                self.limits,
                self.users@[u].daily_limit,
                self.clock,
            )
    }

    pub fn new(limits: TradingLimits) -> (r: LimitGuard)
        ensures
            r.wf(),
            r.spec_limits() == limits,
            r.spec_clock() == 0,
            forall|u: i64| #[trigger] r.spec_entries(u) == Seq::<LimitEntry>::empty(),
            forall|u: i64| #[trigger] r.spec_daily_limit(u) == limits.daily_trade_limit_lamports,
    {
        let g = LimitGuard { limits, users: Vec::new(), clock: 0 };
        proof {
            assert forall|u: i64| #[trigger] g.spec_entries(u) == Seq::<LimitEntry>::empty() by {
                lemma_entries_of_absent(g.users@, u);
            }
            assert forall|u: i64| #[trigger] g.spec_daily_limit(u)
                == limits.daily_trade_limit_lamports by {
                lemma_daily_limit_of_absent(g.users@, u, limits.daily_trade_limit_lamports);
            }
        }
        g
    }

    pub fn limits(&self) -> (r: TradingLimits)
        ensures
            r == self.spec_limits(),
    {
        self.limits
    }

    /// The ceiling a reservation for this user is held to.
    pub fn daily_limit_of(&self, user_id: i64) -> (r: u64)
        requires
            self.wf(),
        ensures
            r == self.spec_daily_limit(user_id),
    {
        match self.find_user(user_id) {
            Some(i) => self.users[i].daily_limit,
            None => self.limits.daily_trade_limit_lamports,
        }
    }

    /// The administrative operation on a user's daily ceiling. A first
    /// call for a user records any limit; later calls may only raise it:
    /// lowering it beneath admissions already taken would falsify the law
    /// that no trailing day window ever exceeded the limit in force.
    pub fn set_daily_limit(&mut self, user_id: i64, new_limit: u64) -> (r: bool)
        requires
            old(self).wf(),
        ensures
            final(self).wf(),
            final(self).spec_limits() == old(self).spec_limits(),
            final(self).spec_clock() == old(self).spec_clock(),
            r == (!old(self).spec_known_user(user_id) || new_limit >= old(self).spec_daily_limit(
                user_id,
            )),
            r ==> final(self).spec_daily_limit(user_id) == new_limit,
            !r ==> *final(self) == *old(self),
            forall|u: i64| #[trigger] final(self).spec_entries(u) == old(self).spec_entries(u),
            forall|u: i64|
                u != user_id ==> #[trigger] final(self).spec_daily_limit(u) == old(
                    self,
                ).spec_daily_limit(u),
    {
        let default_cap = self.limits.daily_trade_limit_lamports;
        match self.find_user(user_id) {
            Some(i) => {
                if new_limit < self.users[i].daily_limit {
                    return false;
                }
                let ghost users1 = self.users@;
                let w = &mut self.users[i];
                w.daily_limit = new_limit;
                proof {
                    assert(self.users@ == users1.update(i as int, self.users@[i as int]));
                    lemma_entries_of_found(self.users@, user_id, i as int);
                    lemma_daily_limit_of_found(self.users@, user_id, i as int, default_cap);
                    assert forall|u: i64| u != user_id implies #[trigger] spec_daily_limit_of(
                        self.users@,
                        u,
                        default_cap,
                    ) == spec_daily_limit_of(users1, u, default_cap) by {
                        lemma_daily_limit_of_update_other(
                            users1,
                            i as int,
                            self.users@[i as int],
                            u,
                            default_cap,
                        );
                    }
                    assert forall|u: i64| #[trigger] self.spec_entries(u) == spec_entries_of(
                        users1,
                        u,
                    ) by {
                        if u != user_id {
                            lemma_entries_of_update_other(
                                users1,
                                i as int,
                                self.users@[i as int],
                                u,
                            );
                        }
                    }
                }
                true
            },
            None => {
                let ghost users0 = self.users@;
                let fresh = UserWindow { user_id, daily_limit: new_limit, entries: Vec::new() };
                self.users.push(fresh);
                proof {
                    assert forall|u: i64| #[trigger] self.spec_entries(u) == spec_entries_of(
                        users0,
                        u,
                    ) by {
                        if u != user_id {
                            lemma_entries_of_push(users0, fresh, u);
                        } else {
                            lemma_entries_of_found(self.users@, user_id, users0.len() as int);
                            lemma_entries_of_absent(users0, user_id);
                            assert(self.users@[users0.len() as int].entries@ =~= Seq::<
                                LimitEntry,
                            >::empty());
                        }
                    }
                    assert forall|u: i64| u != user_id implies #[trigger] spec_daily_limit_of(
                        self.users@,
                        u,
                        default_cap,
                    ) == spec_daily_limit_of(users0, u, default_cap) by {
                        lemma_daily_limit_of_push(users0, fresh, u, default_cap);
                    }
                    lemma_daily_limit_of_found(
                        self.users@,
                        user_id,
                        users0.len() as int,
                        default_cap,
                    );
                }
                true
            },
        }
    }

    fn find_user(&self, user_id: i64) -> (r: Option<usize>)
        requires
            self.wf(),
        ensures
            r matches Some(i) ==> i < self.users@.len() && self.users@[i as int].user_id == user_id
                && self.users@[i as int].entries@ == self.spec_entries(user_id)
                && self.users@[i as int].daily_limit == self.spec_daily_limit(user_id)
                && self.spec_known_user(user_id),
            r is None ==> self.spec_entries(user_id) == Seq::<LimitEntry>::empty()
                && self.spec_daily_limit(user_id) == self.spec_limits().daily_trade_limit_lamports
                && !self.spec_known_user(user_id) && forall|a: int|
                0 <= a < self.users@.len() ==> (#[trigger] self.users@[a].user_id) != user_id,
    {
        let n = self.users.len();
        let mut i: usize = 0;
        while i < n
            invariant
                i <= n,
                n == self.users@.len(),
                self.wf(),
                forall|a: int| 0 <= a < i ==> (#[trigger] self.users@[a].user_id) != user_id,
            decreases n - i,
        {
            if self.users[i].user_id == user_id {
                proof {
                    lemma_entries_of_found(self.users@, user_id, i as int);
                    lemma_daily_limit_of_found(
                        self.users@,
                        user_id,
                        i as int,
                        self.limits.daily_trade_limit_lamports,
                    );
                }
                return Some(i);
            }
            i = i + 1;
        }
        proof {
            lemma_entries_of_absent(self.users@, user_id);
            lemma_daily_limit_of_absent(
                self.users@,
                user_id,
                self.limits.daily_trade_limit_lamports,
            );
        }
        None
    }

    /// Admit or reject a trade of `amount` for this user at instant `now`.
    /// The decision is taken as of `t`, the guard's clock moved forward to
    /// `now`; it admits exactly when all four ceilings keep room for this
    /// trade, and a rejection names the most specific violated ceiling.
    pub fn try_reserve(&mut self, user_id: i64, amount: u64, now: u64) -> (r: Result<
        Reservation,
        LimitReason,
    >)
        requires
            old(self).wf(),
        ensures
            final(self).wf(),
            final(self).spec_limits() == old(self).spec_limits(),
            final(self).spec_clock() == if now > old(self).spec_clock() {
                now
            } else {
                old(self).spec_clock()
            },
            ({
                let t = final(self).spec_clock();
                let before = old(self).spec_entries(user_id);
                let cap = old(self).spec_daily_limit(user_id);
                &&& (r is Ok <==> spec_admit(before, old(self).spec_limits(), cap, amount, t))
                &&& (r matches Ok(res) ==> res.user_id == user_id && res.amount == amount
                    && res.ts == t && res.id == before.len() && final(self).spec_entries(user_id)
                    == spec_after_reserve(before, amount, t))
                &&& (r matches Err(reason) ==> reason == spec_reject_reason(
                    before,
                    old(self).spec_limits(),
                    cap,
                    amount,
                    t,
                ) && final(self).spec_entries(user_id) == before)
            }),
            forall|u: i64|
                u != user_id ==> #[trigger] final(self).spec_entries(u) == old(self).spec_entries(
                    u,
                ),
            forall|u: i64|
                #[trigger] final(self).spec_daily_limit(u) == old(self).spec_daily_limit(u),
    {
        let t = if now > self.clock {
            now
        } else {
            self.clock
        };
        self.clock = t;
        let default_cap = self.limits.daily_trade_limit_lamports;
        let idx = match self.find_user(user_id) {
            Some(i) => i,
            None => {
                let ghost users0 = self.users@;
                let fresh = UserWindow { user_id, daily_limit: default_cap, entries: Vec::new() };
                self.users.push(fresh);
                proof {
                    assert forall|u: i64| u != user_id implies #[trigger] spec_entries_of(
                        self.users@,
                        u,
                    ) == spec_entries_of(users0, u) by {
                        lemma_entries_of_push(users0, fresh, u);
                    }
                    assert forall|u: i64| u != user_id implies #[trigger] spec_daily_limit_of(
                        self.users@,
                        u,
                        default_cap,
                    ) == spec_daily_limit_of(users0, u, default_cap) by {
                        lemma_daily_limit_of_push(users0, fresh, u, default_cap);
                    }
                    lemma_entries_of_found(self.users@, user_id, users0.len() as int);
                    lemma_daily_limit_of_found(
                        self.users@,
                        user_id,
                        users0.len() as int,
                        default_cap,
                    );
                    assert(self.users@[users0.len() as int].entries@ =~= Seq::<
                        LimitEntry,
                    >::empty());
                }
                self.users.len() - 1
            },
        };
        let ghost users1 = self.users@;
        let ghost before = self.spec_entries(user_id);
        assert(self.users@[idx as int].entries@ == before);
        let cap = self.users[idx].daily_limit;
        assert(cap == old(self).spec_daily_limit(user_id));

        // Evaluate the rolling counters as of t.
        let entries = &self.users[idx].entries;
        let n = entries.len();
        let mut cnt_hour: u64 = 0;
        let mut cnt_day: u64 = 0;
        let mut vol_day: u64 = 0;
        let mut i: usize = 0;
        proof {
            lemma_win_bounds(before, t, DAY_SECS);
            lemma_win_take_le(before, 0, t, HOUR_SECS);
            lemma_win_take_le(before, 0, t, DAY_SECS);
        }
        while i < n
            invariant
                i <= n,
                n == before.len(),
                entries@ == before,
                cnt_hour == spec_win_count(before.take(i as int), t, HOUR_SECS),
                cnt_day == spec_win_count(before.take(i as int), t, DAY_SECS),
                vol_day == spec_win_volume(before.take(i as int), t, DAY_SECS),
                vol_day <= cap,
                spec_user_wf(before, self.limits, cap, t),
            decreases n - i,
        {
            proof {
                assert(before.take(i + 1).drop_last() =~= before.take(i as int));
                assert(before.take(i + 1).last() == before[i as int]);
                lemma_win_bounds(before.take(i as int), t, HOUR_SECS);
                lemma_win_bounds(before.take(i as int), t, DAY_SECS);
                lemma_win_take_le(before, i + 1, t, DAY_SECS);
            }
            let e = entries[i];
            let counting = match e.state {
                ReservationState::Released => false,
                _ => true,
            };
            if counting && in_window(e.ts, t, HOUR_SECS) {
                cnt_hour = cnt_hour + 1;
            }
            if counting && in_window(e.ts, t, DAY_SECS) {
                cnt_day = cnt_day + 1;
                vol_day = vol_day + e.amount;
            }
            i = i + 1;
        }
        proof {
            assert(before.take(n as int) =~= before);
        }

        // The four ceilings, most specific first.
        if amount > self.limits.max_trade_amount_lamports {
            return Err(LimitReason::SingleTradeCap);
        }
        if cnt_hour >= self.limits.max_trades_per_hour as u64 {
            return Err(LimitReason::HourlyTradeCount);
        }
        if cnt_day >= self.limits.max_trades_per_day as u64 {
            return Err(LimitReason::DailyTradeCount);
        }
        if amount > cap || vol_day > cap - amount {
            return Err(LimitReason::DailyVolumeCap);
        }

        // Admit: record the provisional entry at t.
        let entry = LimitEntry { ts: t, amount, state: ReservationState::Active };
        let res = Reservation { id: n as u64, user_id, amount, ts: t };
        let w = &mut self.users[idx];
        w.entries.push(entry);
        proof {
            let after = before.push(entry);
            assert(self.users@ == users1.update(idx as int, self.users@[idx as int]));
            lemma_entries_of_found(self.users@, user_id, idx as int);
            assert(self.spec_entries(user_id) == after);
            assert forall|u: i64| u != user_id implies #[trigger] self.spec_entries(u)
                == spec_entries_of(users1, u) by {
                lemma_entries_of_update_other(
                    users1,
                    idx as int,
                    self.users@[idx as int],
                    u,
                );
            }
            assert forall|u: i64| u != user_id implies #[trigger] spec_daily_limit_of(
                self.users@,
                u,
                default_cap,
            ) == spec_daily_limit_of(users1, u, default_cap) by {
                lemma_daily_limit_of_update_other(
                    users1,
                    idx as int,
                    self.users@[idx as int],
                    u,
                    default_cap,
                );
            }
            lemma_daily_limit_of_found(self.users@, user_id, idx as int, default_cap);
            // The invariant survives the new entry at every instant.
            assert forall|t2: u64| #[trigger] spec_win_volume(after, t2, DAY_SECS) <= cap by {
                assert(after.drop_last() =~= before);
                if t2 >= t {
                    lemma_win_mono(before, t, t2, DAY_SECS);
                } else {
                    lemma_win_bounds(before, t2, DAY_SECS);
                }
            }
            assert forall|t2: u64| #[trigger] spec_win_count(after, t2, DAY_SECS)
                <= self.limits.max_trades_per_day by {
                assert(after.drop_last() =~= before);
                if t2 >= t {
                    lemma_win_mono(before, t, t2, DAY_SECS);
                } else {
                    lemma_win_bounds(before, t2, DAY_SECS);
                }
            }
            assert forall|t2: u64| #[trigger] spec_win_count(after, t2, HOUR_SECS)
                <= self.limits.max_trades_per_hour by {
                assert(after.drop_last() =~= before);
                if t2 >= t {
                    lemma_win_mono(before, t, t2, HOUR_SECS);
                } else {
                    lemma_win_bounds(before, t2, HOUR_SECS);
                }
            }
        }
        Ok(res)
    }

    /// Finalize a reservation into the durable counters. Only an active
    /// entry moves to committed, so committing twice counts once.
    pub fn commit(&mut self, res: &Reservation)
        requires
            old(self).wf(),
        ensures
            final(self).wf(),
            final(self).spec_limits() == old(self).spec_limits(),
            final(self).spec_clock() == old(self).spec_clock(),
            final(self).spec_entries(res.user_id) == spec_after_commit(
                old(self).spec_entries(res.user_id),
                res.id,
            ),
            forall|u: i64|
                u != res.user_id ==> #[trigger] final(self).spec_entries(u) == old(
                    self,
                ).spec_entries(u),
            forall|u: i64|
                #[trigger] final(self).spec_daily_limit(u) == old(self).spec_daily_limit(u),
    {
        self.settle(res, true);
    }

    /// Undo a provisional reservation. Only an active entry is released; a
    /// committed one stays counted, and releasing twice changes nothing.
    pub fn release(&mut self, res: &Reservation)
        requires
            old(self).wf(),
        ensures
            final(self).wf(),
            final(self).spec_limits() == old(self).spec_limits(),
            final(self).spec_clock() == old(self).spec_clock(),
            final(self).spec_entries(res.user_id) == spec_after_release(
                old(self).spec_entries(res.user_id),
                res.id,
            ),
            forall|u: i64|
                u != res.user_id ==> #[trigger] final(self).spec_entries(u) == old(
                    self,
                ).spec_entries(u),
            forall|u: i64|
                #[trigger] final(self).spec_daily_limit(u) == old(self).spec_daily_limit(u),
    {
        self.settle(res, false);
    }

    fn settle(&mut self, res: &Reservation, commit: bool)
        requires
            old(self).wf(),
        ensures
            final(self).wf(),
            final(self).spec_limits() == old(self).spec_limits(),
            final(self).spec_clock() == old(self).spec_clock(),
            commit ==> final(self).spec_entries(res.user_id) == spec_after_commit(
                old(self).spec_entries(res.user_id),
                res.id,
            ),
            !commit ==> final(self).spec_entries(res.user_id) == spec_after_release(
                old(self).spec_entries(res.user_id),
                res.id,
            ),
            forall|u: i64|
                u != res.user_id ==> #[trigger] final(self).spec_entries(u) == old(
                    self,
                ).spec_entries(u),
            forall|u: i64|
                #[trigger] final(self).spec_daily_limit(u) == old(self).spec_daily_limit(u),
    {
        let idx = match self.find_user(res.user_id) {
            Some(i) => i,
            None => {
                return ;
            },
        };
        let ghost users1 = self.users@;
        let ghost before = self.spec_entries(res.user_id);
        let w = &mut self.users[idx];
        let n = w.entries.len();
        if res.id >= n as u64 {
            proof {
                assert(self.users@ =~= users1);
            }
            return ;
        }
        let j = res.id as usize;
        let e = w.entries[j];
        let counting = match e.state {
            ReservationState::Active => true,
            _ => false,
        };
        if !counting {
            proof {
                assert(self.users@ =~= users1);
            }
            return ;
        }
        let e2 = LimitEntry {
            ts: e.ts,
            amount: e.amount,
            state: if commit {
                ReservationState::Committed
            } else {
                ReservationState::Released
            },
        };
        w.entries.set(j, e2);
        proof {
            let after = before.update(j as int, e2);
            assert(self.users@ == users1.update(idx as int, self.users@[idx as int]));
            lemma_entries_of_found(self.users@, res.user_id, idx as int);
            assert(self.spec_entries(res.user_id) == after);
            assert forall|u: i64| u != res.user_id implies #[trigger] self.spec_entries(u)
                == spec_entries_of(users1, u) by {
                lemma_entries_of_update_other(
                    users1,
                    idx as int,
                    self.users@[idx as int],
                    u,
                );
            }
            let default_cap = self.limits.daily_trade_limit_lamports;
            assert forall|u: i64| u != res.user_id implies #[trigger] spec_daily_limit_of(
                self.users@,
                u,
                default_cap,
            ) == spec_daily_limit_of(users1, u, default_cap) by {
                lemma_daily_limit_of_update_other(
                    users1,
                    idx as int,
                    self.users@[idx as int],
                    u,
                    default_cap,
                );
            }
            lemma_daily_limit_of_found(self.users@, res.user_id, idx as int, default_cap);
            let cap = self.users@[idx as int].daily_limit;
            assert forall|t2: u64| #[trigger] spec_win_volume(after, t2, DAY_SECS) <= cap by {
                lemma_win_update_state(before, j as int, e2, t2, DAY_SECS);
            }
            assert forall|t2: u64| #[trigger] spec_win_count(after, t2, DAY_SECS)
                <= self.limits.max_trades_per_day by {
                lemma_win_update_state(before, j as int, e2, t2, DAY_SECS);
            }
            assert forall|t2: u64| #[trigger] spec_win_count(after, t2, HOUR_SECS)
                <= self.limits.max_trades_per_hour by {
                lemma_win_update_state(before, j as int, e2, t2, HOUR_SECS);
            }
        }
    }
}

/// Law: committing a reservation twice counts it once — the second commit
/// finds no active entry and changes nothing.
pub proof fn lemma_commit_idempotent(s: Seq<LimitEntry>, id: u64)
    ensures
        spec_after_commit(spec_after_commit(s, id), id) == spec_after_commit(s, id),
{
    let s1 = spec_after_commit(s, id);
    if id < s.len() && s[id as int].state == ReservationState::Active {
        assert(s1[id as int].state == ReservationState::Committed);
    }
}

/// Law: a committed reservation cannot be released — once in the durable
/// counters, it stays counted.
pub proof fn lemma_release_after_commit(s: Seq<LimitEntry>, id: u64)
    requires
        id < s.len(),
        s[id as int].state == ReservationState::Active,
    ensures
        spec_after_release(spec_after_commit(s, id), id) == spec_after_commit(s, id),
{
    let s1 = spec_after_commit(s, id);
    assert(s1[id as int].state == ReservationState::Committed);
}

/// Law: under the guard's invariant, the committed volume of any user in
/// any trailing day window never exceeds that user's daily trade limit.
pub proof fn lemma_daily_volume_never_exceeded(g: &LimitGuard, user_id: i64, at: u64)
    requires
        g.wf(),
    ensures
        spec_committed_volume(g.spec_entries(user_id), at, DAY_SECS) <= g.spec_daily_limit(
            user_id,
        ),
{
    lemma_win_bounds(g.spec_entries(user_id), at, DAY_SECS);
    if exists|i: int|
        0 <= i < g.users@.len() && (#[trigger] g.users@[i].user_id) == user_id {
        let i = choose|i: int|
            0 <= i < g.users@.len() && (#[trigger] g.users@[i].user_id) == user_id;
        lemma_entries_of_found(g.users@, user_id, i);
        lemma_daily_limit_of_found(
            g.users@,
            user_id,
            i,
            g.spec_limits().daily_trade_limit_lamports,
        );
    } else {
        assert forall|a: int| 0 <= a < g.users@.len() implies (#[trigger] g.users@[a].user_id)
            != user_id by {}
        lemma_entries_of_absent(g.users@, user_id);
        lemma_daily_limit_of_absent(
            g.users@,
            user_id,
            g.spec_limits().daily_trade_limit_lamports,
        );
    }
}

/// Law: two reservations for one user that each fit alone, but together
/// break a ceiling, are never both admitted: once the first is in, the
/// second no longer fits at the same instant.
pub proof fn lemma_reserve_race_exclusive(
    s: Seq<LimitEntry>,
    limits: TradingLimits,
    daily_limit: u64,
    a1: u64,
    a2: u64,
    t: u64,
)
    requires
        spec_admit(s, limits, daily_limit, a1, t),
        spec_admit(s, limits, daily_limit, a2, t),
        ({
            ||| spec_win_volume(s, t, DAY_SECS) + a1 + a2 > daily_limit
            ||| spec_win_count(s, t, DAY_SECS) + 2 > limits.max_trades_per_day
            ||| spec_win_count(s, t, HOUR_SECS) + 2 > limits.max_trades_per_hour
        }),
    ensures
        !spec_admit(spec_after_reserve(s, a1, t), limits, daily_limit, a2, t),
{
    let after = spec_after_reserve(s, a1, t);
    assert(after.drop_last() =~= s);
    assert(spec_in_window(t, t, DAY_SECS));
    assert(spec_in_window(t, t, HOUR_SECS));
}

} // verus!
