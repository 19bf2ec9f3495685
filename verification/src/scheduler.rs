use vstd::prelude::*;

verus! {

/// Cooldown between two discovery snapshot requests, in nanoseconds. The
/// scheduler throttles the query rate to one request per cooldown window,
/// independent of how often the tracking loop ticks.
pub const DISCOVERY_COOLDOWN_NANOS: u64 = 1_000_000_000;

/// State of a polled backend future: still pending, or ready to complete.
#[derive(Clone, Copy, Debug, PartialEq, Eq, Structural)]
pub enum FutureState {
    Pending,
    Ready,
}

/// What the tracking loop must do on one tick.
///
/// `Idle`: no backend call; the tick reports "no update". `StartDiscovery`:
/// issue a new create-snapshot request. `PollFuture`: poll the outstanding
/// operation with this token.
#[derive(Clone, Copy, Debug, PartialEq, Eq, Structural)]
pub enum TickAction {
    Idle,
    StartDiscovery,
    PollFuture(u64),
}

/// Per-tick discovery scheduling state: the enable flag, the at most one
/// outstanding snapshot operation, and the earliest time a new request may
/// be issued. Times are nanoseconds on the caller's monotonic clock.
#[derive(Clone, Copy, Debug, PartialEq, Eq, Structural)]
pub struct DiscoveryScheduler {
    pub discovery_enabled: bool,
    pub snapshot_future: Option<u64>,
    pub discovery_deadline: u64,
}

/// The deadline set after a request issued at `now`: one cooldown later,
/// saturating at the end of the clock's range.
pub open spec fn next_deadline(now: u64) -> u64 {
    if now <= u64::MAX - DISCOVERY_COOLDOWN_NANOS {
        (now + DISCOVERY_COOLDOWN_NANOS) as u64
    } else {
        u64::MAX
    }
}

/// The scheduling decision for one tick at time `now`: an outstanding
/// operation is always polled; otherwise a new request starts only if
/// discovery is enabled and the cooldown deadline has passed.
pub open spec fn tick_decision(s: DiscoveryScheduler, now: u64) -> TickAction {
    match s.snapshot_future {
        Option::Some(f) => TickAction::PollFuture(f),
        Option::None => {
            if s.discovery_enabled && now > s.discovery_deadline {
                TickAction::StartDiscovery
            } else {
                TickAction::Idle
            }
        },
    }
}

/// The scheduler with only its enable flag replaced.
pub open spec fn with_discovery_enabled(s: DiscoveryScheduler, enabled: bool) -> DiscoveryScheduler {
    DiscoveryScheduler { discovery_enabled: enabled, ..s }
}

/// The scheduler after a snapshot request issued at `now` was recorded with
/// its future token.
pub open spec fn after_snapshot_started(
    s: DiscoveryScheduler,
    future_token: u64,
    now: u64,
) -> DiscoveryScheduler {
    DiscoveryScheduler {
        snapshot_future: Some(future_token),
        discovery_deadline: next_deadline(now),
        ..s
    }
}

impl DiscoveryScheduler {
    /// A fresh scheduler: no outstanding operation, and the first request
    /// allowed at any tick strictly after `now`.
    pub fn new(initial_discovery_enabled: bool, now: u64) -> (s: Self)
        ensures
            s == (DiscoveryScheduler {
                discovery_enabled: initial_discovery_enabled,
                snapshot_future: None,
                discovery_deadline: now,
            }),
    {
        DiscoveryScheduler {
            discovery_enabled: initial_discovery_enabled,
            snapshot_future: None,
            discovery_deadline: now,
        }
    }

    /// Toggle discovery. Takes effect on the next scheduling decision; the
    /// outstanding operation and the deadline are untouched.
    pub fn set_discovery_enabled(&mut self, enabled: bool)
        ensures
            *final(self) == with_discovery_enabled(*old(self), enabled),
    {
        self.discovery_enabled = enabled;
    }

    /// Decide what this tick must do. Pure: the state is unchanged.
    pub fn tick_action(&self, now: u64) -> (a: TickAction)
        ensures
            a == tick_decision(*self, now),
    {
        match self.snapshot_future {
            Some(f) => TickAction::PollFuture(f),
            None => {
                if self.discovery_enabled && now > self.discovery_deadline {
                    TickAction::StartDiscovery
                } else {
                    TickAction::Idle
                }
            },
        }
    }

    /// Record a successfully issued snapshot request: its future token
    /// becomes the one outstanding operation and the deadline moves one
    /// cooldown past `now`.
    pub fn begin_snapshot(&mut self, future_token: u64, now: u64)
        requires
            old(self).snapshot_future is None,
        ensures
            *final(self) == after_snapshot_started(*old(self), future_token, now),
    {
        self.snapshot_future = Some(future_token);
        self.discovery_deadline = if now <= u64::MAX - DISCOVERY_COOLDOWN_NANOS {
            now + DISCOVERY_COOLDOWN_NANOS
        } else {
            u64::MAX
        };
    }

    /// Consume a poll outcome. A ready operation leaves the scheduler (its
    /// lifetime ends with the completion call that follows, whether that
    /// call succeeds or fails); a pending one stays outstanding and nothing
    /// else changes.
    pub fn on_future_polled(&mut self, state: FutureState) -> (ready: bool)
        ensures
            ready == (state == FutureState::Ready),
            ready ==> *final(self) == (DiscoveryScheduler {
                snapshot_future: None,
                ..*old(self)
            }),
            !ready ==> *final(self) == *old(self),
    {
        if state == FutureState::Ready {
            self.snapshot_future = None;
            true
        } else {
            false
        }
    }

    /// The outstanding snapshot operation, if any.
    pub fn pending_future(&self) -> (f: Option<u64>)
        ensures
            f == self.snapshot_future,
    {
        self.snapshot_future
    }
}

/// While discovery is disabled and no snapshot operation is outstanding, a
/// tick decides `Idle`: no backend call is requested, and the tracking loop
/// reports "no update".
pub proof fn lemma_disabled_tick_is_idle(s: DiscoveryScheduler, now: u64)
    requires
        !s.discovery_enabled,
        s.snapshot_future is None,
    ensures
        tick_decision(s, now) == TickAction::Idle,
{
}

/// While a snapshot operation is outstanding, every tick decides to poll
/// that same operation, never to start another; and since a pending poll
/// leaves the state unchanged (`on_future_polled`), two ticks inside the
/// same cooldown window both report "no update" until the operation is
/// ready.
pub proof fn lemma_pending_polls_are_stable(
    s: DiscoveryScheduler,
    f: u64,
    now1: u64,
    now2: u64,
)
    requires
        s.snapshot_future == Some(f),
    ensures
        tick_decision(s, now1) == TickAction::PollFuture(f),
        tick_decision(s, now2) == TickAction::PollFuture(f),
{
}

/// A new discovery request starts only when nothing is outstanding,
/// discovery is enabled, and the tick falls strictly after the deadline.
pub proof fn lemma_start_needs_deadline(s: DiscoveryScheduler, now: u64)
    requires
        tick_decision(s, now) == TickAction::StartDiscovery,
    ensures
        s.snapshot_future is None,
        s.discovery_enabled,
        now > s.discovery_deadline,
{
}

/// Toggling discovery off and then on again before the cooldown deadline
/// does not issue an extra request: a tick at or before the deadline still
/// decides `Idle`, and once the single request fired after the deadline,
/// every later tick polls it rather than starting another.
pub proof fn lemma_toggle_does_not_double_fire(
    s: DiscoveryScheduler,
    f: u64,
    t_early: u64,
    t_start: u64,
    t_later: u64,
)
    requires
        s.snapshot_future is None,
        t_early <= s.discovery_deadline,
    ensures
        tick_decision(with_discovery_enabled(with_discovery_enabled(s, false), true), t_early)
            == TickAction::Idle,
        tick_decision(
            after_snapshot_started(
                with_discovery_enabled(with_discovery_enabled(s, false), true),
                f,
                t_start,
            ),
            t_later,
        ) == TickAction::PollFuture(f),
{
}

} // verus!
