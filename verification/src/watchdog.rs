use vstd::prelude::*;

use crate::config::{effective_timeout, Config, MIN_TICKS};
use crate::device::{Wdt, WdtState};

verus! {

/// Bit `i` of a status or enable mask: one bit per reload index.
pub open spec fn bit_set(x: u32, i: u32) -> bool {
    (x >> i) & 1u32 == 1u32
}

/// The enable mask written for `n` handles: the low `n` bits set.
pub open spec fn enabled_mask(n: usize) -> u32 {
    ((1u32 << n) - 1) as u32
}

/// Does the armed peripheral hold exactly the settings that a construction
/// with `config` and `n` handles would request?
pub open spec fn config_matches(state: WdtState, config: Config, n: usize) -> bool {
    &&& state.halt == config.action_during_debug_halt
    &&& state.sleep == config.action_during_sleep
    &&& state.crv == effective_timeout(config.timeout_ticks)
    &&& state.enabled == enabled_mask(n)
}

/// Watchdog driver: the exclusive owner of the armed peripheral.
pub struct Watchdog {
    wdt: Wdt,
}

impl View for Watchdog {
    type V = WdtState;

    closed spec fn view(&self) -> WdtState {
        self.wdt@
    }
}

/// Watchdog handle: the capability to satisfy one reload index's liveness
/// bit. Handles are minted together at construction, one per index.
pub struct WatchdogHandle {
    index: u8,
}

impl View for WatchdogHandle {
    type V = u8;

    closed spec fn view(&self) -> u8 {
        self.index
    }
}

impl WatchdogHandle {
    /// The peripheral has eight reload registers; a handle owns one of them.
    #[verifier::type_invariant]
    spec fn inv(self) -> bool {
        self.index < 8
    }
}

impl Watchdog {
    /// Try to create a new watchdog driver with `n` handles, `1 <= n <= 8`.
    ///
    /// With the peripheral not yet armed, this writes the behaviour bits,
    /// enables the timeout interrupt, writes the window length (raised to the
    /// `MIN_TICKS` floor) and the enable mask, issues the irreversible start
    /// command, and reports liveness once for every fresh handle, so that no
    /// index enters the first window already pending.
    ///
    /// With the peripheral already armed, it compares the stored settings
    /// against the requested ones. If they are identical it attaches without
    /// touching the hardware and mints fresh handles; otherwise it fails and
    /// hands the peripheral back unchanged — such a mismatch cannot be
    /// retried short of accepting the stored settings or a device reset.
    #[verifier::loop_isolation(false)]
    pub fn try_new(wdt: Wdt, config: Config, n: usize) -> (r: Result<
        (Watchdog, Vec<WatchdogHandle>),
        Wdt,
    >)
        requires
            1 <= n <= 8,
        ensures
            match r {
                Ok(ok) => {
                    &&& ok.1@.len() == n
                    &&& (forall|j: int| 0 <= j < n ==> #[trigger] ok.1@[j]@ == j)
                    &&& (wdt@.started ==> config_matches(wdt@, config, n) && ok.0@ == wdt@)
                    &&& (!wdt@.started ==> ok.0@ == (WdtState {
                        started: true,
                        sleep: config.action_during_sleep,
                        halt: config.action_during_debug_halt,
                        crv: effective_timeout(config.timeout_ticks),
                        enabled: enabled_mask(n),
                        pending: 0u32,
                        inten: true,
                    }))
                    &&& (!wdt@.started ==> (forall|i: u32|
                        i < 32 ==> !(#[trigger] bit_set(ok.0@.pending, i))))
                },
                Err(w) => {
                    &&& w@ == wdt@
                    &&& wdt@.started
                    &&& !config_matches(wdt@, config, n)
                },
            },
    {
        let mut wdt = wdt;
        let crv: u32 = if config.timeout_ticks < MIN_TICKS {
            MIN_TICKS
        } else {
            config.timeout_ticks
        };
        assert(1u32 << n >= 1u32) by (bit_vector)
            requires
                n <= 8,
        ;
        let rren: u32 = (1u32 << n) - 1;
        assert(rren == enabled_mask(n));

        let was_started = wdt.runstatus();
        if was_started {
            let (cur_sleep, cur_halt) = wdt.read_config();
            if cur_halt != config.action_during_debug_halt
                || cur_sleep != config.action_during_sleep
                || wdt.read_crv() != crv
                || wdt.read_rren() != rren {
                return Err(wdt);
            }
        } else {
            wdt.write_config(config.action_during_sleep, config.action_during_debug_halt);
            wdt.intenset_timeout();
            wdt.write_crv(crv);
            wdt.write_rren(rren);
            wdt.tasks_start();
        }

        let ghost state0 = wdt@;
        proof {
            assert(enabled_mask(n) & !enabled_mask(0) == enabled_mask(n)) by (bit_vector)
                requires
                    n <= 8,
            ;
        }
        let mut dog = Watchdog { wdt };
        let mut handles: Vec<WatchdogHandle> = Vec::new();
        let mut i: usize = 0;
        while i < n
            invariant
                i <= n,
                handles@.len() == i,
                forall|j: int| 0 <= j < i ==> #[trigger] handles@[j]@ == j,
                was_started ==> dog@ == state0,
                !was_started ==> dog@ == (WdtState {
                    pending: enabled_mask(n) & !enabled_mask(i),
                    ..state0
                }),
            decreases n - i,
        {
            let mut handle = WatchdogHandle { index: i as u8 };
            if !was_started {
                handle.pet(&mut dog);
                proof {
                    assert((enabled_mask(n) & !enabled_mask(i)) & !(1u32 << (i as u32))
                        == enabled_mask(n) & !enabled_mask((i + 1) as usize)) by (bit_vector)
                        requires
                            i < 8,
                            n <= 8,
                    ;
                }
            }
            handles.push(handle);
            i = i + 1;
        }
        proof {
            if !was_started {
                assert(enabled_mask(n) & !enabled_mask(n) == 0u32) by (bit_vector)
                    requires
                        n <= 8,
                ;
                assert(forall|i: u32| i < 32 ==> !(#[trigger] bit_set(0u32, i))) by (bit_vector);
            }
        }
        Ok((dog, handles))
    }

    /// Enable the watchdog interrupt: advance notice, two ticks before the
    /// reset, when a window lapses unsatisfied.
    ///
    /// The interrupt only notifies; there is no way to prevent the reset
    /// itself once the window has lapsed.
    pub fn enable_interrupt(&mut self)
        ensures
            final(self)@ == (WdtState { inten: true, ..old(self)@ }),
    {
        self.wdt.intenset_timeout();
    }

    /// Disable the watchdog interrupt.
    ///
    /// This has no effect on the reset caused by the watchdog: only the
    /// advance notice is switched off.
    pub fn disable_interrupt(&mut self)
        ensures
            final(self)@ == (WdtState { inten: false, ..old(self)@ }),
    {
        self.wdt.intenclr_timeout();
    }

    /// Is the watchdog still awaiting pets from any handle?
    ///
    /// True exactly when at least one enabled index has its pending bit set,
    /// that is, has not reported liveness yet in the current window.
    pub fn awaiting_pets(&self) -> (r: bool)
        ensures
            r == ((self@.pending & self@.enabled) != 0),
    {
        let enabled = self.wdt.read_rren();
        let status = self.wdt.read_reqstatus();
        (status & enabled) != 0
    }

    /// The hardware opens the next watchdog window: every enabled index owes
    /// a fresh liveness report and becomes pending again.
    ///
    /// This is the peripheral's own periodic behaviour, exposed so that the
    /// driver's life across windows can be exercised.
    pub fn start_new_window(&mut self)
        requires
            old(self)@.started,
        ensures
            final(self)@ == (WdtState { pending: old(self)@.enabled, ..old(self)@ }),
    {
        self.wdt.new_window();
    }

    /// Release the peripheral. The watchdog stays armed: giving up the
    /// driver does not and cannot stop it.
    pub fn free(self) -> (r: Wdt)
        ensures
            r@ == self@,
    {
        self.wdt
    }
}

impl WatchdogHandle {
    /// Pet the watchdog: report that this handle's owner is alive.
    ///
    /// Writes the reload sentinel for this handle's index, clearing exactly
    /// this index's pending bit for the current window. Idempotent within a
    /// window. All active handles must pet within the window to prevent the
    /// reset.
    pub fn pet(&mut self, dog: &mut Watchdog)
        ensures
            final(self)@ == old(self)@,
            final(dog)@ == (WdtState {
                pending: old(dog)@.pending & !(1u32 << (old(self)@ as u32)),
                ..old(dog)@
            }),
    {
        proof {
            use_type_invariant(&*self);
        }
        dog.wdt.write_rr(self.index);
    }

    /// Has this handle been pet within the current window?
    ///
    /// The logical negation of this handle's raw pending-status bit.
    pub fn is_pet(&self, dog: &Watchdog) -> (r: bool)
        ensures
            r == !bit_set(dog@.pending, self@ as u32),
    {
        proof {
            use_type_invariant(self);
        }
        let status = dog.wdt.read_reqstatus();
        let shift: u32 = self.index as u32;
        let r = (status >> shift) & 1u32 == 0u32;
        proof {
            assert(((status >> shift) & 1u32 == 0u32) == !((status >> shift) & 1u32 == 1u32))
                by (bit_vector);
        }
        r
    }

    /// Reconstruct a handle from a raw index, without any proof of
    /// uniqueness: an escape hatch for recovery and bootstrap paths.
    ///
    /// The caller alone must make sure that the watchdog was constructed
    /// with more than `index` handles, and that no other live handle with
    /// the same index is concurrently in use by conflicting code — a
    /// duplicated index reintroduces exactly the aliasing the rest of the
    /// design rules out.
    pub fn steal(index: u8) -> (r: WatchdogHandle)
        requires
            index < 8,
        ensures
            r@ == index,
    {
        WatchdogHandle { index }
    }
}

/// The position of one set bit of a nonzero word: the witness behind
/// `lemma_awaiting_iff_enabled_pending`.
proof fn lowest_set_bit(x: u32) -> (i: u32)
    requires
        x != 0,
    ensures
        i < 32,
        bit_set(x, i),
    decreases x,
{
    if x & 1u32 == 1u32 {
        assert(bit_set(x, 0)) by (bit_vector)
            requires
                x & 1u32 == 1u32,
        ;
        0u32
    } else {
        assert(x >> 1u32 != 0u32 && x >> 1u32 < x) by (bit_vector)
            requires
                x != 0u32,
                x & 1u32 != 1u32,
        ;
        let j: u32 = lowest_set_bit(x >> 1u32);
        assert(j < 31) by (bit_vector)
            requires
                j < 32,
                bit_set(x >> 1u32, j),
        ;
        let i: u32 = (j + 1) as u32;
        assert(bit_set(x, i)) by (bit_vector)
            requires
                i == j + 1,
                j < 31,
                bit_set(x >> 1u32, j),
        ;
        i
    }
}

/// Some enabled index is still pending exactly when the masked status is
/// nonzero: what `awaiting_pets` computes is "at least one enabled index has
/// its pending bit set".
pub proof fn lemma_awaiting_iff_enabled_pending(pending: u32, enabled: u32)
    ensures
        ((pending & enabled) != 0) <==> (exists|i: u32|
            i < 32 && bit_set(pending, i) && bit_set(enabled, i)),
{
    if pending & enabled != 0 {
        let i: u32 = lowest_set_bit(pending & enabled);
        assert(bit_set(pending, i) && bit_set(enabled, i)) by (bit_vector)
            requires
                i < 32,
                bit_set(pending & enabled, i),
        ;
        assert(i < 32 && bit_set(pending, i) && bit_set(enabled, i));
    }
    if exists|i: u32| i < 32 && bit_set(pending, i) && bit_set(enabled, i) {
        let i: u32 = choose|i: u32| i < 32 && bit_set(pending, i) && bit_set(enabled, i);
        assert((pending & enabled) != 0) by (bit_vector)
            requires
                i < 32,
                bit_set(pending, i),
                bit_set(enabled, i),
        ;
    }
}

/// Petting index `i` clears exactly bit `i` of the pending mask: that bit is
/// clear afterwards, and every other bit keeps its old value.
pub proof fn lemma_pet_clears_only_own_bit(pending: u32, i: u32)
    by (bit_vector)
    requires
        i < 8,
    ensures
        !bit_set(pending & !(1u32 << i), i),
        forall|j: u32|
            j < 32 && j != i ==> bit_set(pending & !(1u32 << i), j) == bit_set(pending, j),
{
}

} // verus!
