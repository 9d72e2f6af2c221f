use gpay_remit::address::Address;
use gpay_remit::rate_limit::{
    check_rate_limit, count_call, get_config, get_global_config, is_exempt, set_config,
    set_exemption, set_global_config, FunctionType, RateLimitConfig, RateLimitEntry, RateLimiter,
};

fn addr(name: &str) -> Address {
    Address::from_str(name)
}

fn limit(max_count: u32, interval: u64) -> RateLimitConfig {
    RateLimitConfig { enabled: true, max_count, interval }
}

#[test]
fn without_a_limit_every_call_is_allowed_and_none_is_counted() {
    let mut limiter = RateLimiter::new();
    let before = limiter.clone();
    let admin = addr("GADMIN");
    for now in 0..5 {
        assert!(check_rate_limit(&mut limiter, &addr("GUSER"), FunctionType::Deposit, &admin, now));
    }
    assert_eq!(limiter, before);

    set_config(&mut limiter, RateLimitConfig { enabled: false, max_count: 0, interval: 10 });
    let before = limiter.clone();
    assert!(check_rate_limit(&mut limiter, &addr("GUSER"), FunctionType::Deposit, &admin, 1));
    assert_eq!(limiter, before);
}

#[test]
fn calls_are_counted_within_a_window() {
    let mut limiter = RateLimiter::new();
    let admin = addr("GADMIN");
    let user = addr("GUSER");
    set_config(&mut limiter, limit(3, 100));
    assert_eq!(get_config(&limiter), Some(limit(3, 100)));

    assert!(check_rate_limit(&mut limiter, &user, FunctionType::Release, &admin, 1000));
    assert!(check_rate_limit(&mut limiter, &user, FunctionType::Release, &admin, 1010));
    assert!(check_rate_limit(&mut limiter, &user, FunctionType::Release, &admin, 1020));
    assert_eq!(
        limiter.user_limits[1].get(&user),
        Some(&RateLimitEntry { last_call_time: 1020, count: 3, window_start: 1000 })
    );
    // The fourth call in the window is refused and not counted.
    let before = limiter.clone();
    assert!(!check_rate_limit(&mut limiter, &user, FunctionType::Release, &admin, 1099));
    assert_eq!(limiter, before);
    // Another kind of operation and another caller have counts of their own.
    assert!(check_rate_limit(&mut limiter, &user, FunctionType::Refund, &admin, 1099));
    assert!(check_rate_limit(&mut limiter, &addr("GOTHER"), FunctionType::Release, &admin, 1099));
    // The window is over once the interval has passed.
    assert!(check_rate_limit(&mut limiter, &user, FunctionType::Release, &admin, 1100));
    assert_eq!(
        limiter.user_limits[1].get(&user),
        Some(&RateLimitEntry { last_call_time: 1100, count: 1, window_start: 1100 })
    );
    assert!(limiter.is_well_formed());
}

#[test]
fn admin_and_exempt_callers_are_not_counted() {
    let mut limiter = RateLimiter::new();
    let admin = addr("GADMIN");
    let trusted = addr("GTRUSTED");
    set_config(&mut limiter, limit(0, 100));
    assert!(!is_exempt(&limiter, &trusted));
    set_exemption(&mut limiter, &trusted, true);
    assert!(is_exempt(&limiter, &trusted));
    let before = limiter.clone();

    assert!(check_rate_limit(&mut limiter, &admin, FunctionType::Invoice, &admin, 1));
    assert!(check_rate_limit(&mut limiter, &trusted, FunctionType::Invoice, &admin, 1));
    assert_eq!(limiter, before);
    assert!(check_rate_limit(&mut limiter, &addr("GUSER"), FunctionType::Invoice, &admin, 1));
    // With a limit of none, the first call opens the window and the second is refused.
    assert!(!check_rate_limit(&mut limiter, &addr("GUSER"), FunctionType::Invoice, &admin, 1));

    set_exemption(&mut limiter, &trusted, false);
    assert!(!is_exempt(&limiter, &trusted));
    assert!(check_rate_limit(&mut limiter, &trusted, FunctionType::Invoice, &admin, 2));
    assert!(!check_rate_limit(&mut limiter, &trusted, FunctionType::Invoice, &admin, 3));
}

#[test]
fn global_limit_counts_all_callers_together() {
    let mut limiter = RateLimiter::new();
    let admin = addr("GADMIN");
    set_config(&mut limiter, limit(10, 100));
    set_global_config(&mut limiter, limit(2, 50));
    assert_eq!(get_global_config(&limiter), Some(limit(2, 50)));

    assert!(check_rate_limit(&mut limiter, &addr("GA"), FunctionType::Remittance, &admin, 10));
    assert!(check_rate_limit(&mut limiter, &addr("GB"), FunctionType::Remittance, &admin, 20));
    // The third call is over the global limit; it is still counted for the caller.
    assert!(!check_rate_limit(&mut limiter, &addr("GC"), FunctionType::Remittance, &admin, 30));
    assert_eq!(
        limiter.user_limits[3].get(&addr("GC")),
        Some(&RateLimitEntry { last_call_time: 30, count: 1, window_start: 30 })
    );
    assert_eq!(
        limiter.global_counts[3],
        Some(RateLimitEntry { last_call_time: 20, count: 2, window_start: 10 })
    );
    assert_eq!(limiter.global_counts[0], None);
    // The global window is over at 60.
    assert!(check_rate_limit(&mut limiter, &addr("GC"), FunctionType::Remittance, &admin, 60));
    assert_eq!(
        limiter.global_counts[3],
        Some(RateLimitEntry { last_call_time: 60, count: 1, window_start: 60 })
    );

    // A global limit that is switched off counts nothing.
    set_global_config(&mut limiter, RateLimitConfig { enabled: false, max_count: 0, interval: 50 });
    let counts = limiter.global_counts.clone();
    assert!(check_rate_limit(&mut limiter, &addr("GA"), FunctionType::Remittance, &admin, 61));
    assert_eq!(limiter.global_counts, counts);
}

#[test]
fn counting_one_call() {
    let config = limit(2, 10);
    let first = RateLimitEntry { last_call_time: 5, count: 1, window_start: 5 };
    assert_eq!(count_call(None, &config, 5), Some(first));
    assert_eq!(
        count_call(Some(&first), &config, 14),
        Some(RateLimitEntry { last_call_time: 14, count: 2, window_start: 5 })
    );
    let full = RateLimitEntry { last_call_time: 14, count: 2, window_start: 5 };
    assert_eq!(count_call(Some(&full), &config, 14), None);
    assert_eq!(
        count_call(Some(&full), &config, 15),
        Some(RateLimitEntry { last_call_time: 15, count: 1, window_start: 15 })
    );
    // A window that begins ahead has no age.
    assert_eq!(count_call(Some(&full), &config, 0), None);
    // With no interval every call opens a window.
    assert_eq!(
        count_call(Some(&full), &limit(0, 0), 7),
        Some(RateLimitEntry { last_call_time: 7, count: 1, window_start: 7 })
    );
}
