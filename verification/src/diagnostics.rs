//! Opt-in reporting for an overlay that is not drawing.
//!
//! The overlay fails silently by construction: every layer degrades to "no
//! highlights" without an error. When reporting is enabled, each layer reports
//! what it decided, at most once every few seconds per call site.
//!
//! Time is a reading of a monotonic clock in nanoseconds.
use vstd::prelude::*;

verus! {

/// How often each call site may report: five seconds.
pub const REPORT_INTERVAL: u64 = 5_000_000_000;

/// Rate limiter for one call site.
#[derive(Debug)]
pub struct Throttle {
    last: Option<u64>,
}

/// Whether a call site that last reported at `last` may report at `now`
/// with reporting `enabled`.
pub open spec fn may_report(last: Option<u64>, enabled: bool, now: u64) -> bool {
    enabled && match last {
        Some(at) => now >= at && now - at >= REPORT_INTERVAL,
        None => true,
    }
}

impl Throttle {
    /// When this call site last reported, if ever.
    pub closed spec fn last_report(&self) -> Option<u64> {
        self.last
    }

    /// A call site that has never reported.
    pub fn new() -> (throttle: Self)
        ensures
            throttle.last_report() is None,
    {
        Throttle { last: None }
    }

    /// Whether this call site may report at `now`, given whether reporting
    /// is `enabled`: only if it is, and the last report is at least
    /// [`REPORT_INTERVAL`] old. A report granted is remembered.
    pub fn ready(&mut self, enabled: bool, now: u64) -> (ready: bool)
        ensures
            ready == may_report(old(self).last_report(), enabled, now),
            final(self).last_report() == if ready {
                Some(now)
            } else {
                old(self).last_report()
            },
    {
        if !enabled {
            return false;
        }
        if let Some(last) = self.last {
            if now.saturating_sub(last) < REPORT_INTERVAL {
                return false;
            }
        }
        self.last = Some(now);
        true
    }
}

impl Default for Throttle {
    fn default() -> (throttle: Self)
        ensures
            throttle.last_report() is None,
    {
        Throttle::new()
    }
}

/// A call site reports at most once per interval: right after a report, it
/// stays silent until the interval has passed.
pub proof fn lemma_reports_are_spaced(at: u64, now: u64, enabled: bool)
    requires
        at <= now,
        now - at < REPORT_INTERVAL,
    ensures
        !may_report(Some(at), enabled, now),
{
}


/// When a call site last reported after the calls `calls`, each whether
/// reporting was enabled and the time it was made at, starting from a last
/// report at `last`: every call of [`Throttle::ready`] moves it as its
/// contract says.
pub open spec fn last_after(last: Option<u64>, calls: Seq<(bool, u64)>) -> Option<u64>
    decreases calls.len(),
{
    if calls.len() == 0 {
        last
    } else {
        let previous = last_after(last, calls.drop_last());
        if may_report(previous, calls.last().0, calls.last().1) {
            Some(calls.last().1)
        } else {
            previous
        }
    }
}

/// One more call of [`Throttle::ready`] extends a run as its contract moves the
/// remembered report: a throttle that remembers `last_after(last, calls)` and
/// is asked at `now` remembers `last_after` of the longer run.
pub proof fn lemma_ready_extends_run(last: Option<u64>, calls: Seq<(bool, u64)>, enabled: bool, now: u64)
    ensures
        last_after(last, calls.push((enabled, now))) == if may_report(last_after(last, calls), enabled, now) {
            Some(now)
        } else {
            last_after(last, calls)
        },
{
    assert(calls.push((enabled, now)).drop_last() =~= calls);
}

/// Whether call `i` of `calls` reports.
pub open spec fn reports_at(last: Option<u64>, calls: Seq<(bool, u64)>, i: int) -> bool {
    may_report(last_after(last, calls.take(i)), calls[i].0, calls[i].1)
}

/// After a report at call `i`, the remembered report is never earlier than
/// that call, whatever calls follow.
proof fn lemma_last_report_not_before(last: Option<u64>, calls: Seq<(bool, u64)>, i: int, k: int)
    requires
        0 <= i < k <= calls.len(),
        reports_at(last, calls, i),
    ensures
        last_after(last, calls.take(k)) matches Some(at) && at >= calls[i].1,
    decreases k - i,
{
    assert(calls.take(k).drop_last() =~= calls.take(k - 1));
    if k == i + 1 {
        assert(calls.take(k).last() == calls[i]);
    } else {
        lemma_last_report_not_before(last, calls, i, k - 1);
        assert(calls.take(k).last() == calls[k - 1]);
    }
}

/// Over any run of calls, a call site reports at most once per
/// [`REPORT_INTERVAL`]: any two reports are at least an interval apart, and
/// only calls made with reporting enabled report at all.
pub proof fn lemma_reports_spaced_over_any_run(last: Option<u64>, calls: Seq<(bool, u64)>, i: int, j: int)
    requires
        0 <= i < j < calls.len(),
        reports_at(last, calls, i),
        reports_at(last, calls, j),
    ensures
        calls[j].1 >= calls[i].1 + REPORT_INTERVAL,
        calls[i].0 && calls[j].0,
{
    lemma_last_report_not_before(last, calls, i, j);
}

} // verus!
