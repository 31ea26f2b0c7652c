use solana_trading_bot::config::TradingLimits;
use solana_trading_bot::errors::LimitReason;
use solana_trading_bot::limits::LimitGuard;

const SOL: u64 = 1_000_000_000;
const HOUR: u64 = 3600;
const DAY: u64 = 86400;

fn wide_limits() -> TradingLimits {
    TradingLimits {
        max_trade_amount_lamports: 1000 * SOL,
        min_trade_amount_lamports: 0,
        max_slippage_bps: 200,
        max_trades_per_hour: 100,
        max_trades_per_day: 100,
        daily_trade_limit_lamports: 100 * SOL,
    }
}

#[test]
fn daily_volume_scenario_sixty_fifty_thirty() {
    // daily limit 100 SOL, no prior trades
    let mut guard = LimitGuard::new(wide_limits());
    let t0 = 1_000_000;

    // 60 SOL: admitted
    let res60 = guard.try_reserve(7, 60 * SOL, t0).expect("60 admitted");

    // 50 SOL: rejected, would total 110
    assert_eq!(
        guard.try_reserve(7, 50 * SOL, t0 + 10),
        Err(LimitReason::DailyVolumeCap)
    );

    // the first completes; 30 SOL is then admitted (total 90 <= 100)
    guard.commit(&res60);
    guard.try_reserve(7, 30 * SOL, t0 + 20).expect("30 admitted");
}

#[test]
fn race_one_success_one_rejection() {
    // Two requests inside the same per-user critical section, each within
    // limits alone but jointly over the ceiling: exactly one is admitted.
    let mut guard = LimitGuard::new(wide_limits());
    let first = guard.try_reserve(1, 70 * SOL, 500);
    let second = guard.try_reserve(1, 70 * SOL, 500);
    assert!(first.is_ok());
    assert_eq!(second, Err(LimitReason::DailyVolumeCap));
}

#[test]
fn single_trade_cap_is_most_specific() {
    let mut limits = wide_limits();
    limits.max_trade_amount_lamports = 10 * SOL;
    limits.max_trades_per_hour = 1;
    let mut guard = LimitGuard::new(limits);
    guard.try_reserve(2, 5 * SOL, 100).expect("first fits");
    // The next violates both the single-trade cap and the hourly count;
    // the single-trade cap is reported.
    assert_eq!(
        guard.try_reserve(2, 20 * SOL, 101),
        Err(LimitReason::SingleTradeCap)
    );
}

#[test]
fn hourly_count_cap() {
    let mut limits = wide_limits();
    limits.max_trades_per_hour = 2;
    let mut guard = LimitGuard::new(limits);
    guard.try_reserve(3, SOL, 1000).expect("one");
    guard.try_reserve(3, SOL, 1001).expect("two");
    assert_eq!(
        guard.try_reserve(3, SOL, 1002),
        Err(LimitReason::HourlyTradeCount)
    );
    // An hour later both admissions left the rolling hour window.
    guard.try_reserve(3, SOL, 1001 + HOUR).expect("after window");
}

#[test]
fn daily_count_cap_reported_over_volume() {
    let mut limits = wide_limits();
    limits.max_trades_per_hour = 100;
    limits.max_trades_per_day = 2;
    let mut guard = LimitGuard::new(limits);
    guard.try_reserve(4, 40 * SOL, 10).expect("one");
    guard.try_reserve(4, 40 * SOL, 20).expect("two");
    // Violates the daily count and the daily volume; the count (more
    // specific) is reported.
    assert_eq!(
        guard.try_reserve(4, 40 * SOL, 30),
        Err(LimitReason::DailyTradeCount)
    );
}

#[test]
fn release_frees_capacity() {
    let mut guard = LimitGuard::new(wide_limits());
    let res = guard.try_reserve(5, 80 * SOL, 100).expect("80 admitted");
    assert_eq!(
        guard.try_reserve(5, 40 * SOL, 110),
        Err(LimitReason::DailyVolumeCap)
    );
    guard.release(&res);
    guard.try_reserve(5, 40 * SOL, 120).expect("capacity freed");
}

#[test]
fn commit_twice_counts_once() {
    let mut guard = LimitGuard::new(wide_limits());
    let res = guard.try_reserve(6, 60 * SOL, 100).expect("60 admitted");
    guard.commit(&res);
    guard.commit(&res);
    // If the commit double-counted, 30 SOL would not fit under 100.
    guard.try_reserve(6, 30 * SOL, 200).expect("30 still fits");
}

#[test]
fn committed_reservation_cannot_be_released() {
    let mut guard = LimitGuard::new(wide_limits());
    let res = guard.try_reserve(8, 90 * SOL, 100).expect("90 admitted");
    guard.commit(&res);
    guard.release(&res);
    // The committed volume still counts.
    assert_eq!(
        guard.try_reserve(8, 20 * SOL, 200),
        Err(LimitReason::DailyVolumeCap)
    );
}

#[test]
fn day_window_is_rolling_not_calendar() {
    let mut guard = LimitGuard::new(wide_limits());
    let t0 = 10 * DAY;
    let res = guard.try_reserve(9, 90 * SOL, t0).expect("90 admitted");
    guard.commit(&res);
    // Just inside the trailing day: still counted.
    assert_eq!(
        guard.try_reserve(9, 20 * SOL, t0 + DAY - 1),
        Err(LimitReason::DailyVolumeCap)
    );
    // One day after the admission instant it leaves the window.
    guard.try_reserve(9, 20 * SOL, t0 + DAY).expect("aged out");
}

#[test]
fn users_are_independent() {
    let mut guard = LimitGuard::new(wide_limits());
    guard.try_reserve(10, 90 * SOL, 50).expect("user 10");
    guard.try_reserve(11, 90 * SOL, 60).expect("user 11 unaffected");
}

#[test]
fn per_user_daily_limits_are_independent() {
    let mut guard = LimitGuard::new(wide_limits());
    // User 20 gets a tighter ceiling than the default; user 21 keeps it.
    assert!(guard.set_daily_limit(20, 10 * SOL));
    assert_eq!(guard.daily_limit_of(20), 10 * SOL);
    assert_eq!(guard.daily_limit_of(21), 100 * SOL);

    assert_eq!(
        guard.try_reserve(20, 20 * SOL, 100),
        Err(LimitReason::DailyVolumeCap)
    );
    guard.try_reserve(20, 10 * SOL, 110).expect("within own ceiling");
    guard.try_reserve(21, 90 * SOL, 120).expect("default ceiling");
}

#[test]
fn daily_limit_can_rise_but_not_fall() {
    let mut guard = LimitGuard::new(wide_limits());
    let res = guard.try_reserve(22, 60 * SOL, 100).expect("60 admitted");
    guard.commit(&res);
    // Raising is accepted and takes effect.
    assert!(guard.set_daily_limit(22, 200 * SOL));
    assert_eq!(guard.daily_limit_of(22), 200 * SOL);
    guard.try_reserve(22, 120 * SOL, 110).expect("fits raised ceiling");
    // Lowering a known user's ceiling is refused.
    assert!(!guard.set_daily_limit(22, 50 * SOL));
    assert_eq!(guard.daily_limit_of(22), 200 * SOL);
}
