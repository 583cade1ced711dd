//! Runner configuration and its startup validation.
//!
//! A configuration is usable only when both durations are positive and the
//! probe timeout does not exceed the cadence interval.  A violated
//! configuration is rejected before any cycle runs; nothing else is fatal to
//! the daemon.

use vstd::prelude::*;

verus! {

/// The immutable per-process runner configuration.  `interval` and `timeout`
/// are in whole seconds.
pub struct RuntimeOptions {
    pub app_name: String,
    pub name: String,
    pub test_cmd: String,
    pub interval: u32,
    pub timeout: u32,
}

/// Why a configuration was rejected at startup.
#[derive(Clone, Copy, Debug, PartialEq, Eq, Structural)]
pub enum ConfigError {
    /// The cadence interval is zero.
    ZeroInterval,
    /// The probe timeout is zero.
    ZeroTimeout,
    /// The probe timeout exceeds the cadence interval.
    TimeoutExceedsInterval,
}

/// The startup description of the runner configuration.
pub open spec fn spec_describe_runtime(o: RuntimeOptions) -> Seq<char> {
    "Runtime["@ + o.app_name@ + "/"@ + o.name@ + ": "@ + o.test_cmd@ + " every "@
        + crate::digits::dec_chars(o.interval as nat) + "s for "@ + crate::digits::dec_chars(
        o.timeout as nat,
    ) + "s]"@
}

impl RuntimeOptions {
    /// Renders the startup description of this configuration.
    pub fn describe(&self) -> (r: String)
        ensures
            r@ == spec_describe_runtime(*self),
    {
        let mut r = String::new();
        r.append("Runtime[");
        r.append(self.app_name.as_str());
        r.append("/");
        r.append(self.name.as_str());
        r.append(": ");
        r.append(self.test_cmd.as_str());
        r.append(" every ");
        r.append(crate::digits::u64_to_string(self.interval as u64).as_str());
        r.append("s for ");
        r.append(crate::digits::u64_to_string(self.timeout as u64).as_str());
        r.append("s]");
        proof {
            assert(r@ =~= spec_describe_runtime(*self));
        }
        r
    }
}

/// A configuration is acceptable exactly when `0 < timeout <= interval`.
pub open spec fn config_ok(interval: u32, timeout: u32) -> bool {
    0 < timeout <= interval
}

/// The error reported for an unacceptable configuration.
pub open spec fn spec_config_error(interval: u32, timeout: u32) -> ConfigError {
    if interval == 0 {
        ConfigError::ZeroInterval
    } else if timeout == 0 {
        ConfigError::ZeroTimeout
    } else {
        ConfigError::TimeoutExceedsInterval
    }
}

/// The composed scheduler: a validated configuration plus the per-cycle
/// arithmetic the embedding loop needs.
pub struct Scheduler {
    pub opts: RuntimeOptions,
}

impl Scheduler {
    /// A scheduler is well formed when its configuration is acceptable.
    pub open spec fn wf(&self) -> bool {
        config_ok(self.opts.interval, self.opts.timeout)
    }

    /// Validates a configuration.  Accepts it exactly when
    /// `0 < timeout <= interval`; any other configuration is rejected here,
    /// before a single probe is launched.
    pub fn new(opts: RuntimeOptions) -> (r: Result<Scheduler, ConfigError>)
        ensures
            r is Ok <==> config_ok(opts.interval, opts.timeout),
            (r matches Ok(s) ==> s.opts == opts && s.wf()),
            (r matches Err(e) ==> e == spec_config_error(opts.interval, opts.timeout)),
    {
        if opts.interval == 0 {
            Err(ConfigError::ZeroInterval)
        } else if opts.timeout == 0 {
            Err(ConfigError::ZeroTimeout)
        } else if opts.timeout > opts.interval {
            Err(ConfigError::TimeoutExceedsInterval)
        } else {
            Ok(Scheduler { opts })
        }
    }

    /// The cadence interval in milliseconds.
    pub fn interval_ms(&self) -> (r: u64)
        ensures
            r == self.opts.interval as int * 1000,
    {
        self.opts.interval as u64 * 1000
    }

    /// The probe timeout in milliseconds.
    pub fn timeout_ms(&self) -> (r: u64)
        ensures
            r == self.opts.timeout as int * 1000,
    {
        self.opts.timeout as u64 * 1000
    }

    /// End-of-cycle sleep for this scheduler's interval: the remainder of the
    /// interval after `elapsed_ms` of probe work, or nothing on an overrun.
    pub fn sleep_after(&self, elapsed_ms: u64) -> (r: u64)
        ensures
            r as int == crate::cadence::sleep_needed(
                self.opts.interval as int * 1000,
                elapsed_ms as int,
            ),
    {
        crate::cadence::remaining_sleep(self.interval_ms(), elapsed_ms)
    }
}

} // verus!
