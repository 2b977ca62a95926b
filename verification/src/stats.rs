//! Traffic counters of a session.
use vstd::prelude::*;
use std::time::{Duration, Instant};

use crate::text::{decimal, push_decimal};

verus! {

/// Declares `std::time::Instant`, a point in monotonic time.
#[verifier::external_type_specification]
#[verifier::external_body]
pub struct ExInstant(Instant);

/// Specifies `<Instant as Clone>::clone` (std): `Instant` is `Copy`, so a
/// clone is the same point in time.
pub assume_specification[ <Instant as Clone>::clone ](at: &Instant) -> (r: Instant)
    ensures
        r == *at,
;

/// Calls `Instant::now` (std): the current monotonic time. Nothing is stated
/// of its value.
#[verifier::external_body]
fn instant_now() -> (r: Instant) {
    Instant::now()
}

/// Calls `Instant::elapsed` (std): the time since `at`. Nothing is stated of
/// its value.
#[verifier::external_body]
fn instant_elapsed(at: &Instant) -> (r: Duration) {
    at.elapsed()
}

/// Renders a duration with two decimals, as `{:.2?}` does (std). Nothing is
/// stated of the text.
#[verifier::external_body]
fn duration_text(d: Duration) -> (r: String) {
    format!("{:.2?}", d)
}

/// The counters of a session.
pub struct MetricsView {
    pub bytes_sent: u64,
    pub bytes_received: u64,
    pub frames_sent: u64,
    pub frames_received: u64,
}

/// Counters of the frames and bytes a session sent and received, with the
/// time it started and the time of its last activity.
#[derive(Debug, Clone)]
pub struct SessionMetrics {
    bytes_sent: u64,
    bytes_received: u64,
    frames_sent: u64,
    frames_received: u64,
    started_at: Instant,
    last_activity: Instant,
}

impl View for SessionMetrics {
    type V = MetricsView;

    closed spec fn view(&self) -> MetricsView {
        MetricsView {
            bytes_sent: self.bytes_sent,
            bytes_received: self.bytes_received,
            frames_sent: self.frames_sent,
            frames_received: self.frames_received,
        }
    }
}

/// All counters at zero.
pub open spec fn zero_metrics() -> MetricsView {
    MetricsView { bytes_sent: 0, bytes_received: 0, frames_sent: 0, frames_received: 0 }
}

impl Default for SessionMetrics {
    /// Counters at zero, started now.
    fn default() -> (r: Self)
        ensures
            r@ == zero_metrics(),
            r.last_activity_at() == r.started_at(),
    {
        Self::new()
    }
}

impl SessionMetrics {
    /// The time the session started.
    pub closed spec fn started_at(&self) -> Instant {
        self.started_at
    }

    /// The time of the last counted frame, or the start.
    pub closed spec fn last_activity_at(&self) -> Instant {
        self.last_activity
    }

    /// Counters at zero, started now; the last activity is the start.
    pub fn new() -> (r: Self)
        ensures
            r@ == zero_metrics(),
            r.last_activity_at() == r.started_at(),
    {
        let now = instant_now();
        SessionMetrics {
            bytes_sent: 0,
            bytes_received: 0,
            frames_sent: 0,
            frames_received: 0,
            started_at: now,
            last_activity: now,
        }
    }

    /// Counts an outgoing frame of `bytes` bytes; the start time stays and the
    /// last activity is read from the clock.
    pub fn record_tx(&mut self, bytes: usize)
        requires
            old(self)@.bytes_sent + bytes <= u64::MAX,
            old(self)@.frames_sent < u64::MAX,
        ensures
            final(self)@ == (MetricsView {
                bytes_sent: (old(self)@.bytes_sent + bytes) as u64,
                frames_sent: (old(self)@.frames_sent + 1) as u64,
                ..old(self)@
            }),
            final(self).started_at() == old(self).started_at(),
    {
        self.bytes_sent = self.bytes_sent + bytes as u64;
        self.frames_sent = self.frames_sent + 1;
        self.last_activity = instant_now();
    }

    /// Counts an incoming frame of `bytes` bytes; the start time stays and the
    /// last activity is read from the clock.
    pub fn record_rx(&mut self, bytes: usize)
        requires
            old(self)@.bytes_received + bytes <= u64::MAX,
            old(self)@.frames_received < u64::MAX,
        ensures
            final(self)@ == (MetricsView {
                bytes_received: (old(self)@.bytes_received + bytes) as u64,
                frames_received: (old(self)@.frames_received + 1) as u64,
                ..old(self)@
            }),
            final(self).started_at() == old(self).started_at(),
    {
        self.bytes_received = self.bytes_received + bytes as u64;
        self.frames_received = self.frames_received + 1;
        self.last_activity = instant_now();
    }

    /// Bytes sent.
    pub fn bytes_sent(&self) -> (r: u64)
        ensures
            r == self@.bytes_sent,
    {
        self.bytes_sent
    }

    /// Bytes received.
    pub fn bytes_received(&self) -> (r: u64)
        ensures
            r == self@.bytes_received,
    {
        self.bytes_received
    }

    /// Bytes sent and received together.
    pub fn total_bytes(&self) -> (r: u64)
        requires
            self@.bytes_sent + self@.bytes_received <= u64::MAX,
        ensures
            r == self@.bytes_sent + self@.bytes_received,
    {
        self.bytes_sent + self.bytes_received
    }

    /// Frames sent.
    pub fn frames_sent(&self) -> (r: u64)
        ensures
            r == self@.frames_sent,
    {
        self.frames_sent
    }

    /// Frames received.
    pub fn frames_received(&self) -> (r: u64)
        ensures
            r == self@.frames_received,
    {
        self.frames_received
    }

    /// Frames sent and received together.
    pub fn total_frames(&self) -> (r: u64)
        requires
            self@.frames_sent + self@.frames_received <= u64::MAX,
        ensures
            r == self@.frames_sent + self@.frames_received,
    {
        self.frames_sent + self.frames_received
    }

    /// Time since the session started.
    pub fn elapsed(&self) -> Duration {
        instant_elapsed(&self.started_at)
    }

    /// Time since the last counted frame (or the start).
    pub fn idle_duration(&self) -> Duration {
        instant_elapsed(&self.last_activity)
    }

    /// Zeroes the counters and restarts the clock: the start time and the last
    /// activity become one new clock reading.
    pub fn reset(&mut self)
        ensures
            final(self)@ == zero_metrics(),
            final(self).last_activity_at() == final(self).started_at(),
    {
        let now = instant_now();
        self.bytes_sent = 0;
        self.bytes_received = 0;
        self.frames_sent = 0;
        self.frames_received = 0;
        self.started_at = now;
        self.last_activity = now;
    }

    /// A one-line description: counters, total bytes and elapsed time.
    pub fn to_string(&self) -> (r: String)
        requires
            self@.bytes_sent + self@.bytes_received <= u64::MAX,
        ensures
            exists|elapsed: Seq<char>|
                r@ == metrics_text(self@) + elapsed + ")"@,
    {
        let mut r = String::from_str("SessionMetrics(TX: ");
        push_decimal(&mut r, self.frames_sent);
        r.append(" frames (");
        push_decimal(&mut r, self.bytes_sent);
        r.append(" B), RX: ");
        push_decimal(&mut r, self.frames_received);
        r.append(" frames (");
        push_decimal(&mut r, self.bytes_received);
        r.append(" B), Total: ");
        push_decimal(&mut r, self.total_bytes());
        r.append(" B, Elapsed: ");
        let t = duration_text(self.elapsed());
        r.append(t.as_str());
        r.append(")");
        assert(r@ == metrics_text(self@) + t@ + ")"@);
        r
    }
}

/// The text of a metrics description up to the elapsed time.
pub open spec fn metrics_text(m: MetricsView) -> Seq<char> {
    "SessionMetrics(TX: "@ + decimal(m.frames_sent as nat) + " frames ("@ + decimal(
        m.bytes_sent as nat,
    ) + " B), RX: "@ + decimal(m.frames_received as nat) + " frames ("@ + decimal(
        m.bytes_received as nat,
    ) + " B), Total: "@ + decimal((m.bytes_sent + m.bytes_received) as nat) + " B, Elapsed: "@
}

} // verus!
