//! Per-hit stack measurement.
use vstd::prelude::*;

verus! {

/// The signed distance between a context stack pointer and a snapshot,
/// taken as `ctx - snap` and wrapped into the range of `i64`.
pub open spec fn delta_of(context_sp: u64, snapshot_sp: u64) -> int {
    let d = context_sp as int - snapshot_sp as int;
    if d > i64::MAX as int {
        d - 0x1_0000_0000_0000_0000
    } else if d < i64::MIN as int {
        d + 0x1_0000_0000_0000_0000
    } else {
        d
    }
}

/// Computes the stack delta of one probe hit: the stack pointer seen in the
/// invocation context minus the snapshot, as a signed word.
pub fn stack_delta(context_sp: u64, snapshot_sp: u64) -> (r: i64)
    ensures
        r as int == delta_of(context_sp, snapshot_sp),
{
    if context_sp >= snapshot_sp {
        let d: u64 = context_sp - snapshot_sp;
        if d <= i64::MAX as u64 {
            d as i64
        } else {
            // d - 2^64, written as -(2^64 - 1 - d) - 1
            let m: u64 = u64::MAX - d;
            -(m as i64) - 1
        }
    } else {
        let e: u64 = snapshot_sp - context_sp;
        if e <= i64::MAX as u64 {
            -(e as i64)
        } else if e == i64::MAX as u64 + 1 {
            i64::MIN
        } else {
            // 2^64 - e, which lies strictly between 0 and 2^63
            (u64::MAX - e + 1) as i64
        }
    }
}

/// The delta is exactly `context_sp - snapshot_sp` whenever that difference
/// fits a signed word; otherwise it is that difference wrapped by 2^64.
pub proof fn lemma_delta_exact(context_sp: u64, snapshot_sp: u64)
    ensures
        i64::MIN <= context_sp - snapshot_sp <= i64::MAX ==> delta_of(context_sp, snapshot_sp)
            == context_sp - snapshot_sp,
        (delta_of(context_sp, snapshot_sp) - (context_sp - snapshot_sp)) % 0x1_0000_0000_0000_0000
            == 0,
        i64::MIN <= delta_of(context_sp, snapshot_sp) <= i64::MAX,
{
}

/// The shared aggregate of a continuous session: a gauge holding the most
/// recently written delta. Any number of probe hits may write it concurrently
/// and the reporting loop reads it; the last completed write wins and no
/// history is kept.
pub struct Gauge {
    cell: std::sync::atomic::AtomicI64,
}

impl Gauge {
    /// A gauge holding `initial` until the first write.
    pub fn new(initial: i64) -> (r: Gauge) {
        Gauge { cell: std::sync::atomic::AtomicI64::new(initial) }
    }

    /// Overwrites the gauge with `value`, with no ordering against other memory.
    pub fn record(&self, value: i64) {
        self.cell.store(value, std::sync::atomic::Ordering::Relaxed);
    }

    /// The value of the most recent write visible to this thread.
    pub fn read(&self) -> (r: i64) {
        self.cell.load(std::sync::atomic::Ordering::Relaxed)
    }
}

/// The continuous listener: every hit overwrites the shared gauge with the
/// hit's stack delta, with no rate limiting.
pub struct ContinuousListener {
    pub gauge: std::sync::Arc<Gauge>,
}

impl ContinuousListener {
    pub fn new(gauge: std::sync::Arc<Gauge>) -> (r: ContinuousListener)
        ensures
            r.gauge == gauge,
    {
        ContinuousListener { gauge }
    }

    /// Handles one probe hit: computes the delta of the context stack pointer
    /// against the snapshot, writes it to the gauge and returns it.
    pub fn on_hit(&self, context_sp: u64, snapshot_sp: u64) -> (r: i64)
        ensures
            r as int == delta_of(context_sp, snapshot_sp),
    {
        let d = stack_delta(context_sp, snapshot_sp);
        self.gauge.record(d);
        d
    }
}

} // verus!
