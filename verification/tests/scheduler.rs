use marker_tracking::scheduler::{
    DiscoveryScheduler, FutureState, TickAction, DISCOVERY_COOLDOWN_NANOS,
};

#[test]
fn disabled_tick_is_idle() {
    let sched = DiscoveryScheduler::new(false, 0);
    assert_eq!(sched.tick_action(5_000_000_000), TickAction::Idle);
    assert_eq!(sched.pending_future(), None);
}

#[test]
fn enabled_tick_starts_after_deadline() {
    let sched = DiscoveryScheduler::new(true, 100);
    assert_eq!(sched.tick_action(100), TickAction::Idle);
    assert_eq!(sched.tick_action(101), TickAction::StartDiscovery);
}

#[test]
fn pending_future_is_polled_not_restarted() {
    let mut sched = DiscoveryScheduler::new(true, 0);
    assert_eq!(sched.tick_action(1), TickAction::StartDiscovery);
    sched.begin_snapshot(77, 1);
    assert_eq!(sched.pending_future(), Some(77));
    // Two ticks inside the same cooldown window: both poll, neither starts.
    assert_eq!(sched.tick_action(16_000_000), TickAction::PollFuture(77));
    assert!(!sched.on_future_polled(FutureState::Pending));
    assert_eq!(sched.tick_action(32_000_000), TickAction::PollFuture(77));
    assert!(!sched.on_future_polled(FutureState::Pending));
    assert_eq!(sched.pending_future(), Some(77));
    // Even past the deadline the outstanding operation is polled first.
    assert_eq!(
        sched.tick_action(2 * DISCOVERY_COOLDOWN_NANOS),
        TickAction::PollFuture(77)
    );
}

#[test]
fn ready_poll_clears_the_slot() {
    let mut sched = DiscoveryScheduler::new(true, 0);
    sched.begin_snapshot(9, 1);
    assert!(sched.on_future_polled(FutureState::Ready));
    assert_eq!(sched.pending_future(), None);
}

#[test]
fn toggle_before_deadline_fires_once() {
    let mut sched = DiscoveryScheduler::new(true, 10);
    sched.begin_snapshot(5, 10);
    assert!(sched.on_future_polled(FutureState::Ready));
    let deadline = 10 + DISCOVERY_COOLDOWN_NANOS;
    // Toggle off then on again before the deadline: no request fires early.
    sched.set_discovery_enabled(false);
    sched.set_discovery_enabled(true);
    assert_eq!(sched.tick_action(deadline), TickAction::Idle);
    // The single request fires after the deadline...
    assert_eq!(sched.tick_action(deadline + 1), TickAction::StartDiscovery);
    sched.begin_snapshot(6, deadline + 1);
    // ...and later ticks poll it instead of starting another.
    assert_eq!(
        sched.tick_action(deadline + 2),
        TickAction::PollFuture(6)
    );
}

#[test]
fn disabling_does_not_cancel_outstanding_operation() {
    let mut sched = DiscoveryScheduler::new(true, 0);
    sched.begin_snapshot(3, 1);
    sched.set_discovery_enabled(false);
    assert_eq!(sched.tick_action(2), TickAction::PollFuture(3));
}

#[test]
fn deadline_saturates_at_clock_end() {
    let mut sched = DiscoveryScheduler::new(true, 0);
    sched.begin_snapshot(1, u64::MAX - 1);
    assert!(sched.on_future_polled(FutureState::Ready));
    // now + cooldown would overflow; the deadline saturates instead, and no
    // tick can fall strictly after it.
    assert_eq!(sched.tick_action(u64::MAX), TickAction::Idle);
}
