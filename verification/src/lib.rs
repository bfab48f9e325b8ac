//! Watchdog timer driver with up to eight cooperating liveness handles.
//!
//! Once the watchdog has been started it cannot be stopped: arming is a
//! one-way transition, reversed only by a full device reset. Construction
//! either arms the peripheral, or attaches idempotently to one that is
//! already armed with the identical settings. Each of the handles minted at
//! construction owns one reload index and reports liveness for it; the
//! watchdog answers whether any enabled index still owes a report in the
//! current window.
//!
//! The peripheral's register state is carried by an explicitly owned [`Wdt`]
//! value, so every register transfer the driver performs is stated in the
//! contracts over that value's view.

mod config;
mod device;
mod watchdog;

pub use config::{Config, HaltConfig, SleepConfig, effective_timeout, MIN_TICKS};
pub use device::{Wdt, WdtState};
pub use watchdog::{
    bit_set, config_matches, enabled_mask, lemma_awaiting_iff_enabled_pending,
    lemma_pet_clears_only_own_bit, Watchdog, WatchdogHandle,
};
