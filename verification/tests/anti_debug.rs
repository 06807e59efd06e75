use runtime_guard::security::anti_debug::{
    am_i_debugged, check_timing, probe_workload, PROBE_ITERATIONS, PT_DENY_ATTACH,
    TIMING_THRESHOLD,
};

#[test]
fn attach_denial_constants() {
    assert_eq!(PT_DENY_ATTACH, 31);
    assert_eq!(TIMING_THRESHOLD, 100_000_000);
    assert_eq!(PROBE_ITERATIONS, 1000);
}

#[test]
fn zero_status_means_no_debugger() {
    assert!(!am_i_debugged(0));
}

#[test]
fn any_other_status_means_debugger() {
    for status in [-1, 1, 45, i32::MIN, i32::MAX] {
        assert!(am_i_debugged(status), "{}", status);
    }
}

#[test]
fn workload_sums_the_integers_below_one_thousand() {
    assert_eq!(probe_workload(), 499500);
    assert_eq!(probe_workload(), (0..1000).sum::<i32>());
}

#[test]
fn fast_sample_is_not_suspicious() {
    assert!(!check_timing(0, 0));
    assert!(!check_timing(5_000, 5_900));
    assert!(!check_timing(u64::MAX - 10, u64::MAX));
}

#[test]
fn sample_at_the_threshold_is_not_suspicious() {
    assert!(!check_timing(0, 100_000_000));
    assert!(!check_timing(10, 100_000_010));
}

#[test]
fn sample_past_the_threshold_is_suspicious() {
    assert!(check_timing(0, 100_000_001));
    assert!(check_timing(10, 100_000_011));
    assert!(check_timing(0, u64::MAX));
}

#[test]
fn clock_that_runs_backwards_is_suspicious() {
    assert!(check_timing(1, 0));
    assert!(check_timing(u64::MAX, 0));
    assert!(check_timing(100_000_010, 10));
}

#[test]
fn delayed_run_of_the_workload_is_reported() {
    let start: u64 = 1_000;
    let sum = probe_workload();
    let delayed_end = start + TIMING_THRESHOLD + 1;
    assert_eq!(sum, 499500);
    assert!(check_timing(start, delayed_end));
    assert!(!check_timing(start, start + 900));
}
