use t1bot::{Bucket, RateLimitConfig, RateLimiter, Tier, Trigger, ViolationKind};

fn config() -> RateLimitConfig {
    RateLimitConfig {
        token_new: 3,
        token_new_max: 3,
        token_new_timeout_secs: 120,
        token_join: 2,
        token_join_max: 10,
        fill_rate: 3,
        fill_freq_secs: 60,
    }
}

#[test]
fn bucket_new_defaults() {
    let b = Bucket::new();
    assert_eq!(b.token_current, 3);
    assert_eq!(b.token_max, 3);
    assert_eq!(b.fill_rate, 3);
    assert_eq!(b.fill_freq_secs, 60);
}

#[test]
fn three_events_then_a_fourth_is_spam() {
    let mut r = RateLimiter::start(Some(config()), Trigger::Message).unwrap();
    assert_eq!(r.tier, Tier::New);
    assert_eq!(r.bucket.token_current, 3);
    assert_eq!(r.bucket.token_max, 3);
    for _ in 0..3 {
        assert_eq!(r.on_activity(), None);
    }
    assert_eq!(r.bucket.token_current, 0);
    let mut violations = 0;
    if r.on_activity() == Some(ViolationKind::Spam) {
        violations += 1;
    }
    assert_eq!(violations, 1);
    assert_eq!(r.bucket.token_current, -1);
}

#[test]
fn fill_from_empty_returns_to_cap() {
    let mut r = RateLimiter::start(Some(config()), Trigger::Message).unwrap();
    for _ in 0..3 {
        r.on_activity();
    }
    assert_eq!(r.bucket.token_current, 0);
    assert_eq!(r.on_tick(), 60);
    assert_eq!(r.bucket.token_current, 3);
}

#[test]
fn fill_after_overdraw_adds_rate() {
    let mut r = RateLimiter::start(Some(config()), Trigger::Message).unwrap();
    for _ in 0..4 {
        r.on_activity();
    }
    assert_eq!(r.bucket.token_current, -1);
    r.on_tick();
    assert_eq!(r.bucket.token_current, 2);
}

#[test]
fn violations_persist_until_refill() {
    let mut r = RateLimiter::start(Some(config()), Trigger::Message).unwrap();
    for _ in 0..3 {
        r.on_activity();
    }
    assert_eq!(r.on_activity(), Some(ViolationKind::Spam));
    assert_eq!(r.on_activity(), Some(ViolationKind::Spam));
    assert_eq!(r.bucket.token_current, -2);
    r.on_tick();
    assert_eq!(r.bucket.token_current, 1);
    assert_eq!(r.on_activity(), None);
}

#[test]
fn disabled_without_config() {
    assert!(RateLimiter::start(None, Trigger::Message).is_none());
    assert!(RateLimiter::start(None, Trigger::Join).is_none());
}

#[test]
fn join_trigger_uses_join_defaults() {
    let r = RateLimiter::start(Some(config()), Trigger::Join).unwrap();
    assert_eq!(r.bucket.token_current, 2);
    assert_eq!(r.bucket.token_max, 10);
    assert_eq!(r.tier, Tier::New);
}

#[test]
fn tier_upgrade_after_window_and_never_back() {
    let mut r = RateLimiter::start(Some(config()), Trigger::Message).unwrap();
    r.on_tick();
    assert_eq!(r.tier, Tier::New);
    assert_eq!(r.bucket.token_max, 3);
    assert_eq!(r.elapsed_secs, 60);
    r.on_tick();
    assert_eq!(r.tier, Tier::Established);
    assert_eq!(r.bucket.token_max, 10);
    for _ in 0..5 {
        r.on_tick();
        assert_eq!(r.tier, Tier::Established);
        assert_eq!(r.bucket.token_max, 10);
    }
    assert_eq!(r.bucket.token_current, 10);
}

#[test]
fn consume_saturates_at_minimum() {
    let mut b = Bucket { token_current: i64::MIN + 1, token_max: 3, fill_rate: 3, fill_freq_secs: 60 };
    assert!(!b.consume(5));
    assert_eq!(b.token_current, i64::MIN);
}

#[test]
fn fill_caps_at_max() {
    let mut b = Bucket { token_current: i64::MAX - 1, token_max: i64::MAX, fill_rate: 3, fill_freq_secs: 60 };
    b.fill(u32::MAX);
    assert_eq!(b.token_current, i64::MAX);
    let mut c = Bucket::new();
    assert!(c.consume(2));
    assert_eq!(c.token_current, 1);
    c.fill(1);
    assert_eq!(c.token_current, 2);
}
