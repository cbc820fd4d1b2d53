//! The delay/liveness-checked invocation wrapper.
//!
//! Delay-schedulable events are not handed to a behavior directly: a
//! configured delay elapses first, and the element's continued attachment
//! to the visible tree together with the behavior's `enabled` flag are
//! re-checked immediately before the handler would run.  If either check
//! fails the call is silently dropped, never queued or retried.

use vstd::prelude::*;

verus! {

/// The liveness check: a handler may run only while the behavior is
/// enabled and its element is still attached to the visible tree.
pub open spec fn spec_live(enabled: bool, connected: bool) -> bool {
    enabled && connected
}

/// Evaluates the liveness check.
pub fn should_run(enabled: bool, connected: bool) -> (r: bool)
    ensures
        r == spec_live(enabled, connected),
{
    enabled && connected
}

/// What the scheduler decides for one delayed invocation.
#[derive(Clone, Copy, PartialEq, Eq, Structural, Debug)]
pub enum Decision {
    /// Zero delay and the liveness check passed: run the handler
    /// synchronously, now.
    RunNow,
    /// Zero delay and the liveness check failed: the call is dropped for
    /// good.
    Dropped,
    /// Nonzero delay: suspend for this many milliseconds, then re-check
    /// liveness through [`resume_after_delay`] before running.
    Wait(u64),
}

/// Decides how a handler with the given delay is invoked, given the
/// liveness inputs observed at call time.
///
/// A nonzero delay defers the liveness check entirely: it is re-evaluated
/// at resume time, not at schedule time, because the element may be
/// detached, or the behavior disabled, during the wait.
pub fn run_now_or_after_delay(delay_ms: u64, enabled: bool, connected: bool) -> (d: Decision)
    ensures
        d == (if delay_ms == 0 {
            if spec_live(enabled, connected) {
                Decision::RunNow
            } else {
                Decision::Dropped
            }
        } else {
            Decision::Wait(delay_ms)
        }),
{
    if delay_ms == 0 {
        if should_run(enabled, connected) {
            Decision::RunNow
        } else {
            Decision::Dropped
        }
    } else {
        Decision::Wait(delay_ms)
    }
}

/// Re-checks liveness once a nonzero delay has elapsed; the handler runs
/// exactly when this returns true.
pub fn resume_after_delay(enabled: bool, connected: bool) -> (run: bool)
    ensures
        run == spec_live(enabled, connected),
{
    should_run(enabled, connected)
}

/// A delayed call whose element is detached by the time the delay has
/// elapsed never invokes the underlying handler: the decision at schedule
/// time is to wait, and the re-check at resume time fails whatever the
/// delay was and however the `enabled` flag changed meanwhile.
pub proof fn lemma_detached_at_resume_never_fires(
    delay_ms: u64,
    enabled_at_schedule: bool,
    connected_at_schedule: bool,
    enabled_at_resume: bool,
)
    requires
        delay_ms > 0,
    ensures
        run_now_or_after_delay_spec(delay_ms, enabled_at_schedule, connected_at_schedule)
            == Decision::Wait(delay_ms),
        !spec_live(enabled_at_resume, false),
{
}

/// A call with delay zero runs synchronously if and only if the liveness
/// check passes at call time; there is no later opportunity.
pub proof fn lemma_zero_delay_runs_iff_live(enabled: bool, connected: bool)
    ensures
        run_now_or_after_delay_spec(0, enabled, connected) == Decision::RunNow
            <==> spec_live(enabled, connected),
        run_now_or_after_delay_spec(0, enabled, connected) == Decision::Dropped
            <==> !spec_live(enabled, connected),
{
}

/// The decision of [`run_now_or_after_delay`], as a function.
pub open spec fn run_now_or_after_delay_spec(
    delay_ms: u64,
    enabled: bool,
    connected: bool,
) -> Decision {
    if delay_ms == 0 {
        if spec_live(enabled, connected) {
            Decision::RunNow
        } else {
            Decision::Dropped
        }
    } else {
        Decision::Wait(delay_ms)
    }
}

} // verus!
