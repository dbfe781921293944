//! The rate-limited listener: measures every hit, emits at most once per
//! interval.
use vstd::prelude::*;
use crate::measure::{delta_of, stack_delta};

verus! {

/// The reporting interval, one second, in nanoseconds.
pub const INTERVAL_NANOS: u64 = 1_000_000_000;

/// A rate-limited listener. Times are nanoseconds on a monotonic clock,
/// counted from any fixed origin that the caller keeps for the session.
pub struct RateLimitedListener {
    /// The least spacing between two emissions.
    pub interval: u64,
    /// When the last emission happened; `None` before the first one.
    pub last_emitted: Option<u64>,
}

/// Whether a hit at `now` emits: always before the first emission, and
/// afterwards only once at least one interval has elapsed. A clock reading
/// before the last emission counts as no time elapsed.
pub open spec fn emits(l: RateLimitedListener, now: u64) -> bool {
    match l.last_emitted {
        None => true,
        Some(t) => now >= t && now - t >= l.interval,
    }
}

/// The listener's state after a hit at `now`.
pub open spec fn after_hit(l: RateLimitedListener, now: u64) -> RateLimitedListener {
    if emits(l, now) {
        RateLimitedListener { interval: l.interval, last_emitted: Some(now) }
    } else {
        l
    }
}

impl RateLimitedListener {
    /// A listener with the one-second interval whose first hit emits.
    pub fn new() -> (r: RateLimitedListener)
        ensures
            r.interval == INTERVAL_NANOS,
            r.last_emitted is None,
    {
        RateLimitedListener { interval: INTERVAL_NANOS, last_emitted: None }
    }

    /// A listener with the given interval whose first hit emits.
    pub fn with_interval(interval: u64) -> (r: RateLimitedListener)
        ensures
            r.interval == interval,
            r.last_emitted is None,
    {
        RateLimitedListener { interval, last_emitted: None }
    }

    /// Handles one probe hit at time `now`: computes the stack delta and
    /// returns it when the hit is due to emit, else discards it.
    pub fn on_hit(&mut self, now: u64, context_sp: u64, snapshot_sp: u64) -> (r: Option<i64>)
        ensures
            *final(self) == after_hit(*old(self), now),
            r is Some <==> emits(*old(self), now),
            r matches Some(d) ==> d as int == delta_of(context_sp, snapshot_sp),
    {
        let d = stack_delta(context_sp, snapshot_sp);
        let due = match self.last_emitted {
            None => true,
            Some(t) => now >= t && now - t >= self.interval,
        };
        if due {
            self.last_emitted = Some(now);
            Some(d)
        } else {
            None
        }
    }
}

/// Of two hits less than one interval apart, the later one does not emit
/// when the earlier one did: the two never both emit.
pub proof fn lemma_close_hits_emit_at_most_once(l: RateLimitedListener, t1: u64, t2: u64)
    requires
        t1 <= t2,
        t2 - t1 < l.interval,
    ensures
        !(emits(l, t1) && emits(after_hit(l, t1), t2)),
{
}

/// Of two hits more than one interval apart, the later one always emits,
/// provided the clock has not run backwards past the last emission; on a
/// fresh listener both emit.
pub proof fn lemma_spaced_hits_emit(l: RateLimitedListener, t1: u64, t2: u64)
    requires
        t1 <= t2,
        t2 - t1 > l.interval,
        l.last_emitted matches Some(t) ==> t <= t1,
    ensures
        emits(after_hit(l, t1), t2),
        l.last_emitted is None ==> emits(l, t1),
{
}

} // verus!
