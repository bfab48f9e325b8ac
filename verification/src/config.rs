use vstd::prelude::*;

use crate::device::Wdt;

verus! {

/// Fewest 32768 Hz ticks a watchdog window may last (about 458 microseconds).
/// A shorter requested timeout is raised to this floor before it is written.
pub const MIN_TICKS: u32 = 15;

/// Whether the watchdog keeps counting while the system sleeps.
#[derive(Clone, Copy, PartialEq, Eq, Structural, Debug)]
pub enum SleepConfig {
    Run,
    Pause,
}

/// Whether the watchdog keeps counting while the CPU is halted for debug.
#[derive(Clone, Copy, PartialEq, Eq, Structural, Debug)]
pub enum HaltConfig {
    Run,
    Pause,
}

/// Watchdog configuration.
#[derive(Clone, Copy)]
pub struct Config {
    /// Number of 32768 Hz ticks in each watchdog period.
    ///
    /// There is a minimum of `MIN_TICKS` ticks: a lower number is raised to
    /// that floor before it reaches the hardware.
    pub timeout_ticks: u32,

    /// Should the watchdog continue to count during sleep modes?
    pub action_during_sleep: SleepConfig,

    /// Should the watchdog continue to count when the CPU is halted for debug?
    pub action_during_debug_halt: HaltConfig,
}

/// The window length the hardware is given for a requested `timeout_ticks`:
/// the request, raised to the `MIN_TICKS` floor.
pub open spec fn effective_timeout(ticks: u32) -> u32 {
    if ticks < MIN_TICKS {
        MIN_TICKS
    } else {
        ticks
    }
}

impl Default for Config {
    /// One-second window at the 32768 Hz time base; counting continues in
    /// sleep and under a debug halt.
    fn default() -> (r: Self)
        ensures
            r.timeout_ticks == 32768,
            r.action_during_sleep == SleepConfig::Run,
            r.action_during_debug_halt == HaltConfig::Run,
    {
        Config {
            timeout_ticks: 32768,
            action_during_sleep: SleepConfig::Run,
            action_during_debug_halt: HaltConfig::Run,
        }
    }
}

impl Config {
    /// Read the live configuration back from the peripheral.
    ///
    /// Returns the stored settings when the watchdog is armed, and `None`
    /// otherwise. This is a query: it never arms or changes anything.
    pub fn try_new(wdt: &Wdt) -> (r: Option<Config>)
        ensures
            match r {
                Some(c) => {
                    &&& wdt@.started
                    &&& c.timeout_ticks == wdt@.crv
                    &&& c.action_during_sleep == wdt@.sleep
                    &&& c.action_during_debug_halt == wdt@.halt
                    &&& c.timeout_ticks >= MIN_TICKS
                },
                None => !wdt@.started,
            },
    {
        if wdt.runstatus() {
            proof {
                use_type_invariant(wdt);
            }
            let (sleep, halt) = wdt.read_config();
            Some(Config {
                timeout_ticks: wdt.read_crv(),
                action_during_sleep: sleep,
                action_during_debug_halt: halt,
            })
        } else {
            None
        }
    }
}

} // verus!
