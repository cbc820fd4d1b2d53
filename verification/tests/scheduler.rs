use animate_core::scheduler::{resume_after_delay, run_now_or_after_delay, should_run, Decision};

#[test]
fn zero_delay_fires_synchronously_when_live() {
    assert_eq!(run_now_or_after_delay(0, true, true), Decision::RunNow);
}

#[test]
fn zero_delay_drops_when_disabled() {
    assert_eq!(run_now_or_after_delay(0, false, true), Decision::Dropped);
}

#[test]
fn zero_delay_drops_when_detached() {
    assert_eq!(run_now_or_after_delay(0, true, false), Decision::Dropped);
}

#[test]
fn zero_delay_drops_when_dead() {
    assert_eq!(run_now_or_after_delay(0, false, false), Decision::Dropped);
}

#[test]
fn nonzero_delay_waits_without_checking_liveness() {
    // Even a currently-dead behavior waits: liveness is evaluated at
    // resume time, not at schedule time.
    assert_eq!(run_now_or_after_delay(250, false, false), Decision::Wait(250));
    assert_eq!(run_now_or_after_delay(250, true, true), Decision::Wait(250));
}

#[test]
fn detached_at_resume_never_fires() {
    // A delayed call whose element is detached before the delay elapses
    // never invokes the underlying handler.
    assert_eq!(run_now_or_after_delay(100, true, true), Decision::Wait(100));
    assert!(!resume_after_delay(true, false));
    assert!(!resume_after_delay(false, false));
}

#[test]
fn live_at_resume_fires() {
    assert!(resume_after_delay(true, true));
    assert!(!resume_after_delay(false, true));
}

#[test]
fn liveness_is_enabled_and_connected() {
    assert!(should_run(true, true));
    assert!(!should_run(true, false));
    assert!(!should_run(false, true));
    assert!(!should_run(false, false));
}
