use t1bot::{Child, MonitorGroup, Trigger, HEARTBEAT_SECS, IDLE_TICKS};

#[test]
fn children_by_trigger() {
    let g = MonitorGroup::new(Trigger::Message, IDLE_TICKS);
    assert_eq!(g.children, vec![Child::RateLimit, Child::LinkSpam]);
    let j = MonitorGroup::new(Trigger::Join, IDLE_TICKS);
    assert_eq!(j.children, vec![Child::RateLimit, Child::LinkSpam, Child::Challenge]);
}

#[test]
fn idle_group_stops_after_limit() {
    assert_eq!(HEARTBEAT_SECS, 60);
    assert_eq!(IDLE_TICKS, 1440);
    let mut g = MonitorGroup::new(Trigger::Join, IDLE_TICKS);
    for _ in 0..1439 {
        assert!(g.on_heartbeat().is_empty());
        assert!(!g.clock.stopped);
    }
    let stopped = g.on_heartbeat();
    assert!(g.clock.stopped);
    assert_eq!(stopped, vec![Child::RateLimit, Child::LinkSpam, Child::Challenge]);
    assert!(g.children.is_empty());
    assert!(g.on_heartbeat().is_empty());
}

#[test]
fn activity_restarts_idle_clock() {
    let mut g = MonitorGroup::new(Trigger::Message, IDLE_TICKS);
    for _ in 0..1439 {
        g.on_heartbeat();
    }
    let targets = g.on_activity();
    assert_eq!(targets, vec![Child::RateLimit, Child::LinkSpam]);
    assert_eq!(g.clock.last_activity_age, 1439);
    assert!(g.on_heartbeat().is_empty());
    assert!(!g.clock.stopped);
    assert_eq!(g.clock.age, 1440);
}

#[test]
fn ended_child_gets_no_more_events() {
    let mut g = MonitorGroup::new(Trigger::Join, IDLE_TICKS);
    g.on_child_ended(Child::LinkSpam);
    assert_eq!(g.on_activity(), vec![Child::RateLimit, Child::Challenge]);
    g.on_child_ended(Child::LinkSpam);
    assert_eq!(g.children, vec![Child::RateLimit, Child::Challenge]);
}

#[test]
fn explicit_stop_returns_all_children() {
    let mut g = MonitorGroup::new(Trigger::Message, 5);
    assert_eq!(g.stop(), vec![Child::RateLimit, Child::LinkSpam]);
    assert!(g.clock.stopped);
    assert!(g.on_activity().is_empty());
}
