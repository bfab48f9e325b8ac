use vstd::prelude::*;

use crate::config::{HaltConfig, SleepConfig, MIN_TICKS};

verus! {

/// A snapshot of the watchdog peripheral's register state, used in contracts.
///
/// One field per register of the hardware surface: the run-status flag, the
/// two behaviour bits of the configuration register, the compare/reload value,
/// the enable mask, the pending-status mask (one bit per reload index, set
/// while that index still owes a reload this window), and the timeout
/// interrupt enable bit.
pub struct WdtState {
    /// Run-status register: is the watchdog armed?
    pub started: bool,
    /// Configuration register, sleep-behaviour bit.
    pub sleep: SleepConfig,
    /// Configuration register, debug-halt-behaviour bit.
    pub halt: HaltConfig,
    /// Compare/reload-value register: window length in ticks.
    pub crv: u32,
    /// Enable-mask register: which reload indices are monitored.
    pub enabled: u32,
    /// Pending-status register: indices still awaiting a reload this window.
    pub pending: u32,
    /// Is the timeout interrupt (advance notice of the reset) enabled?
    pub inten: bool,
}

/// The watchdog peripheral itself: its hardware-resident register state.
///
/// A value of this type stands for the exclusive right to the one watchdog
/// peripheral of the device; it is passed by move, never duplicated. The only
/// way to arm it is `Watchdog::try_new`, and nothing offered here disarms it:
/// once `started` is set it stays set, as on the real device, where only a
/// full reset stops the watchdog.
pub struct Wdt {
    started: bool,
    sleep: SleepConfig,
    halt: HaltConfig,
    crv: u32,
    enabled: u32,
    pending: u32,
    inten: bool,
}

impl View for Wdt {
    type V = WdtState;

    closed spec fn view(&self) -> WdtState {
        WdtState {
            started: self.started,
            sleep: self.sleep,
            halt: self.halt,
            crv: self.crv,
            enabled: self.enabled,
            pending: self.pending,
            inten: self.inten,
        }
    }
}

impl Wdt {
    /// An armed watchdog never holds a window shorter than the floor: the one
    /// arming path raises the requested timeout to `MIN_TICKS` first.
    #[verifier::type_invariant]
    pub open spec fn inv(self) -> bool {
        self@.started ==> self@.crv >= MIN_TICKS
    }

    /// The peripheral in its power-on reset state: not armed, no reload
    /// indices enabled, nothing pending.
    pub fn new() -> (r: Wdt)
        ensures
            r@ == (WdtState {
                started: false,
                sleep: SleepConfig::Run,
                halt: HaltConfig::Pause,
                crv: 0xffff_ffffu32,
                enabled: 0u32,
                pending: 0u32,
                inten: false,
            }),
    {
        Wdt {
            started: false,
            sleep: SleepConfig::Run,
            halt: HaltConfig::Pause,
            crv: 0xffff_ffff,
            enabled: 0,
            pending: 0,
            inten: false,
        }
    }

    /// Run-status register: whether the watchdog is armed.
    pub(crate) fn runstatus(&self) -> (r: bool)
        ensures
            r == self@.started,
    {
        self.started
    }

    /// Read the configuration register: the sleep and debug-halt behaviour.
    pub(crate) fn read_config(&self) -> (r: (SleepConfig, HaltConfig))
        ensures
            r.0 == self@.sleep,
            r.1 == self@.halt,
    {
        (self.sleep, self.halt)
    }

    /// Read the compare/reload-value register.
    pub(crate) fn read_crv(&self) -> (r: u32)
        ensures
            r == self@.crv,
    {
        self.crv
    }

    /// Read the enable-mask register.
    pub(crate) fn read_rren(&self) -> (r: u32)
        ensures
            r == self@.enabled,
    {
        self.enabled
    }

    /// Read the pending-status register.
    pub(crate) fn read_reqstatus(&self) -> (r: u32)
        ensures
            r == self@.pending,
    {
        self.pending
    }

    /// Write the configuration register. Only possible before the watchdog is
    /// armed: afterwards the hardware ignores the register.
    pub(crate) fn write_config(&mut self, sleep: SleepConfig, halt: HaltConfig)
        requires
            !old(self)@.started,
        ensures
            final(self)@ == (WdtState { sleep, halt, ..old(self)@ }),
    {
        self.sleep = sleep;
        self.halt = halt;
    }

    /// Write the compare/reload-value register. Only possible before the
    /// watchdog is armed.
    pub(crate) fn write_crv(&mut self, ticks: u32)
        requires
            !old(self)@.started,
        ensures
            final(self)@ == (WdtState { crv: ticks, ..old(self)@ }),
    {
        self.crv = ticks;
    }

    /// Write the enable-mask register. Only possible before the watchdog is
    /// armed.
    pub(crate) fn write_rren(&mut self, mask: u32)
        requires
            !old(self)@.started,
        ensures
            final(self)@ == (WdtState { enabled: mask, ..old(self)@ }),
    {
        self.enabled = mask;
    }

    /// Set the timeout-interrupt enable bit.
    pub(crate) fn intenset_timeout(&mut self)
        ensures
            final(self)@ == (WdtState { inten: true, ..old(self)@ }),
    {
        proof {
            use_type_invariant(&*self);
        }
        self.inten = true;
    }

    /// Clear the timeout-interrupt enable bit.
    pub(crate) fn intenclr_timeout(&mut self)
        ensures
            final(self)@ == (WdtState { inten: false, ..old(self)@ }),
    {
        proof {
            use_type_invariant(&*self);
        }
        self.inten = false;
    }

    /// The start command: the one-way transition to the armed state. The
    /// first window opens and every enabled index becomes pending. The driver
    /// never issues this with a window below the `MIN_TICKS` floor.
    pub(crate) fn tasks_start(&mut self)
        requires
            old(self)@.crv >= MIN_TICKS,
        ensures
            final(self)@ == (WdtState { started: true, pending: old(self)@.enabled, ..old(self)@ }),
    {
        self.pending = self.enabled;
        self.started = true;
    }

    /// Write the reload sentinel into reload register `index`: the hardware
    /// drops that index's pending bit for the current window.
    pub(crate) fn write_rr(&mut self, index: u8)
        requires
            index < 8,
        ensures
            final(self)@ == (WdtState {
                pending: old(self)@.pending & !(1u32 << (index as u32)),
                ..old(self)@
            }),
    {
        proof {
            use_type_invariant(&*self);
        }
        self.pending = self.pending & !(1u32 << (index as u32));
    }

    /// The hardware opens a new window: every enabled index must report
    /// again, so the whole enable mask becomes pending.
    pub(crate) fn new_window(&mut self)
        requires
            old(self)@.started,
        ensures
            final(self)@ == (WdtState { pending: old(self)@.enabled, ..old(self)@ }),
    {
        proof {
            use_type_invariant(&*self);
        }
        self.pending = self.enabled;
    }
}

} // verus!
