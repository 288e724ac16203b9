//! The per-connection liveness monitor.
//!
//! A repeating timer with period `interval_ms` and leniency `leniency_ms`;
//! on every tick it inspects the session's last-activity timestamp. If the
//! client showed no activity for longer than `interval_ms + leniency_ms`,
//! the connection is judged dead and must be closed; otherwise a liveness
//! probe (ping) is sent and the timer stays scheduled. Liveness is
//! inferred from any inbound activity, not from pong replies, so no
//! handshake correlation exists. The connection glue owns the timer and
//! the clock and acts on the returned decision.

use vstd::prelude::*;

verus! {

/// What the monitor does on one tick.
#[derive(Debug, Clone, Copy, PartialEq, Eq, Structural)]
pub enum HeartbeatDecision {
    /// The client was active recently enough: probe it and keep waiting.
    Ping,
    /// No activity within the window: close the connection with an
    /// abnormal-closure reason of "timed out" and stop the session.
    TimedOut,
}

/// The liveness monitor's configuration, in milliseconds.
#[derive(Debug, Clone, Copy)]
pub struct Heartbeat {
    interval_ms: u64,
    leniency_ms: u64,
}

impl Heartbeat {
    pub closed spec fn spec_interval_ms(&self) -> u64 {
        self.interval_ms
    }

    pub closed spec fn spec_leniency_ms(&self) -> u64 {
        self.leniency_ms
    }

    /// The whole window never overflows the tick arithmetic.
    pub open spec fn wf(&self) -> bool {
        self.spec_interval_ms() + self.spec_leniency_ms() <= u64::MAX
    }

    /// The verdict on a tick at `now_ms` with the last client activity at
    /// `last_activity_ms`: dead exactly when the silence exceeds the
    /// interval plus the leniency.
    pub open spec fn spec_decision(&self, last_activity_ms: int, now_ms: int) -> HeartbeatDecision {
        if now_ms - last_activity_ms > self.spec_interval_ms() + self.spec_leniency_ms() {
            HeartbeatDecision::TimedOut
        } else {
            HeartbeatDecision::Ping
        }
    }

    /// A monitor with period `interval_ms` and leniency `leniency_ms`.
    pub fn new(interval_ms: u64, leniency_ms: u64) -> (h: Heartbeat)
        requires
            interval_ms + leniency_ms <= u64::MAX,
        ensures
            h.spec_interval_ms() == interval_ms,
            h.spec_leniency_ms() == leniency_ms,
            h.wf(),
    {
        Heartbeat { interval_ms, leniency_ms }
    }

    /// One timer tick. `last_activity_ms` is the session's last-activity
    /// timestamp, `now_ms` the current time read from the same monotonic
    /// clock, so it is never behind.
    pub fn on_tick(&self, last_activity_ms: u64, now_ms: u64) -> (d: HeartbeatDecision)
        requires
            self.wf(),
            last_activity_ms <= now_ms,
        ensures
            d == self.spec_decision(last_activity_ms as int, now_ms as int),
            d is TimedOut <==> now_ms - last_activity_ms > self.spec_interval_ms()
                + self.spec_leniency_ms(),
    {
        if now_ms - last_activity_ms > self.interval_ms + self.leniency_ms {
            HeartbeatDecision::TimedOut
        } else {
            HeartbeatDecision::Ping
        }
    }
}

/// Law: with the last activity at time `last` and no further activity, no
/// tick at or before `last + interval + leniency` closes the connection;
/// every such tick only probes.
pub proof fn lemma_no_close_within_window(h: Heartbeat, last_activity_ms: int, now_ms: int)
    requires
        now_ms - last_activity_ms <= h.spec_interval_ms() + h.spec_leniency_ms(),
    ensures
        h.spec_decision(last_activity_ms, now_ms) is Ping,
{
}

/// Law: any tick strictly after `last + interval + leniency` with no
/// further activity closes the connection.
pub proof fn lemma_close_after_window(h: Heartbeat, last_activity_ms: int, now_ms: int)
    requires
        now_ms - last_activity_ms > h.spec_interval_ms() + h.spec_leniency_ms(),
    ensures
        h.spec_decision(last_activity_ms, now_ms) is TimedOut,
{
}

} // verus!
