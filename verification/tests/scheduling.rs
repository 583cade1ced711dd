use monitor_runner::cadence::remaining_sleep;
use monitor_runner::config::{ConfigError, RuntimeOptions, Scheduler};

fn opts(interval: u32, timeout: u32) -> RuntimeOptions {
    RuntimeOptions {
        app_name: String::from("myapp"),
        name: String::from("ping"),
        test_cmd: String::from("sleep 1"),
        interval,
        timeout,
    }
}

#[test]
fn accepts_timeout_below_interval() {
    let s = Scheduler::new(opts(10, 5)).unwrap();
    assert_eq!(s.opts.interval, 10);
    assert_eq!(s.opts.timeout, 5);
    assert_eq!(s.opts.app_name, "myapp");
}

#[test]
fn accepts_timeout_equal_to_interval() {
    assert!(Scheduler::new(opts(10, 10)).is_ok());
}

#[test]
fn rejects_timeout_above_interval() {
    // interval=5s, timeout=10s is fatal at startup: no cycle ever runs.
    let r = Scheduler::new(opts(5, 10));
    assert_eq!(r.err().unwrap(), ConfigError::TimeoutExceedsInterval);
}

#[test]
fn rejects_zero_interval() {
    let r = Scheduler::new(opts(0, 0));
    assert_eq!(r.err().unwrap(), ConfigError::ZeroInterval);
}

#[test]
fn rejects_zero_timeout() {
    let r = Scheduler::new(opts(10, 0));
    assert_eq!(r.err().unwrap(), ConfigError::ZeroTimeout);
}

#[test]
fn converts_durations_to_milliseconds() {
    let s = Scheduler::new(opts(10, 5)).unwrap();
    assert_eq!(s.interval_ms(), 10_000);
    assert_eq!(s.timeout_ms(), 5_000);
}

#[test]
fn sleeps_the_remainder_of_the_interval() {
    let s = Scheduler::new(opts(10, 5)).unwrap();
    assert_eq!(s.sleep_after(1_000), 9_000);
    assert_eq!(s.sleep_after(9_999), 1);
}

#[test]
fn overrun_cycle_sleeps_nothing() {
    let s = Scheduler::new(opts(10, 5)).unwrap();
    assert_eq!(s.sleep_after(10_000), 0);
    assert_eq!(s.sleep_after(25_000), 0);
}

#[test]
fn remaining_sleep_at_the_boundary() {
    assert_eq!(remaining_sleep(10_000, 9_999), 1);
    assert_eq!(remaining_sleep(10_000, 10_000), 0);
    assert_eq!(remaining_sleep(10_000, 0), 10_000);
}

#[test]
fn steady_cadence_fills_each_interval() {
    // Cycles of varying duration below the interval all take exactly one
    // interval including their sleep.
    for d in [0u64, 1, 2_500, 9_999] {
        assert_eq!(d + remaining_sleep(10_000, d), 10_000);
    }
}

#[test]
fn describes_the_runtime_options() {
    let s = Scheduler::new(opts(10, 5)).unwrap();
    assert_eq!(s.opts.describe(), "Runtime[myapp/ping: sleep 1 every 10s for 5s]");
}
