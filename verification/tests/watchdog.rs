use wdt::{Config, HaltConfig, SleepConfig, Watchdog, WatchdogHandle, Wdt};

fn arm(config: Config, n: usize) -> (Watchdog, Vec<WatchdogHandle>) {
    match Watchdog::try_new(Wdt::new(), config, n) {
        Ok(pair) => pair,
        Err(_) => panic!("arming a fresh peripheral must succeed"),
    }
}

#[test]
fn default_config_is_one_second_run_run() {
    let c = Config::default();
    assert_eq!(c.timeout_ticks, 32768);
    assert_eq!(c.action_during_sleep, SleepConfig::Run);
    assert_eq!(c.action_during_debug_halt, HaltConfig::Run);
}

#[test]
fn fresh_peripheral_has_no_live_config() {
    let wdt = Wdt::new();
    assert!(Config::try_new(&wdt).is_none());
}

#[test]
fn construction_mints_reported_handles_for_each_count() {
    for n in 1..=8usize {
        let (dog, handles) = arm(Config::default(), n);
        assert_eq!(handles.len(), n);
        for h in &handles {
            assert!(h.is_pet(&dog));
        }
        assert!(!dog.awaiting_pets());
    }
}

#[test]
fn timeout_below_floor_is_stored_as_fifteen() {
    let cases: [(u32, u32); 5] = [(0, 15), (10, 15), (14, 15), (15, 15), (16, 16)];
    for (requested, stored) in cases {
        let config = Config { timeout_ticks: requested, ..Config::default() };
        let (dog, _handles) = arm(config, 1);
        let wdt = dog.free();
        let live = Config::try_new(&wdt).unwrap();
        assert_eq!(live.timeout_ticks, stored);
    }
}

#[test]
fn reattach_with_identical_config_succeeds_without_writes() {
    let config = Config::default();
    let (mut dog, _handles) = arm(config, 2);
    dog.start_new_window();
    assert!(dog.awaiting_pets());

    let wdt = dog.free();
    let (dog2, handles2) = match Watchdog::try_new(wdt, config, 2) {
        Ok(pair) => pair,
        Err(_) => panic!("identical settings must attach"),
    };
    assert_eq!(handles2.len(), 2);

    // Nothing was written: the pending bits of the open window survived the
    // attach, and the fresh handles have not reported in it.
    assert!(dog2.awaiting_pets());
    assert!(!handles2[0].is_pet(&dog2));
    assert!(!handles2[1].is_pet(&dog2));

    let wdt = dog2.free();
    let live = Config::try_new(&wdt).unwrap();
    assert_eq!(live.timeout_ticks, 32768);
    assert_eq!(live.action_during_sleep, SleepConfig::Run);
    assert_eq!(live.action_during_debug_halt, HaltConfig::Run);
}

#[test]
fn reattach_with_any_difference_fails_and_returns_peripheral() {
    let config = Config::default();
    let (dog, _handles) = arm(config, 2);
    let mut wdt = dog.free();

    let differing = [
        (Config { timeout_ticks: 1000, ..config }, 2),
        (Config { action_during_sleep: SleepConfig::Pause, ..config }, 2),
        (Config { action_during_debug_halt: HaltConfig::Pause, ..config }, 2),
        (config, 3),
    ];
    for (bad, n) in differing {
        wdt = match Watchdog::try_new(wdt, bad, n) {
            Ok(_) => panic!("differing settings must be refused"),
            Err(w) => w,
        };
        // The peripheral came back untouched.
        let live = Config::try_new(&wdt).unwrap();
        assert_eq!(live.timeout_ticks, 32768);
        assert_eq!(live.action_during_sleep, SleepConfig::Run);
        assert_eq!(live.action_during_debug_halt, HaltConfig::Run);
    }

    // The unchanged peripheral still accepts the settings it was armed with.
    assert!(Watchdog::try_new(wdt, config, 2).is_ok());
}

#[test]
fn attach_compares_the_clamped_timeout() {
    let (dog, _handles) = arm(Config { timeout_ticks: 10, ..Config::default() }, 1);
    let wdt = dog.free();

    // 14 and 15 both clamp to the stored 15, so either request attaches.
    let again = Config { timeout_ticks: 14, ..Config::default() };
    let (dog, _handles) = match Watchdog::try_new(wdt, again, 1) {
        Ok(pair) => pair,
        Err(_) => panic!("requests at or below the floor must match a stored floor"),
    };
    let wdt = dog.free();
    let again = Config { timeout_ticks: 15, ..Config::default() };
    assert!(Watchdog::try_new(wdt, again, 1).is_ok());
}

#[test]
fn reporting_liveness_clears_only_own_index() {
    let (mut dog, mut handles) = arm(Config::default(), 3);
    assert!(!dog.awaiting_pets());

    dog.start_new_window();
    assert!(dog.awaiting_pets());
    for h in &handles {
        assert!(!h.is_pet(&dog));
    }

    handles[0].pet(&mut dog);
    assert!(handles[0].is_pet(&dog));
    assert!(!handles[1].is_pet(&dog));
    assert!(!handles[2].is_pet(&dog));
    assert!(dog.awaiting_pets());

    handles[1].pet(&mut dog);
    assert!(dog.awaiting_pets());

    handles[2].pet(&mut dog);
    assert!(!dog.awaiting_pets());
}

#[test]
fn petting_twice_in_a_window_changes_nothing_more() {
    let (mut dog, mut handles) = arm(Config::default(), 2);
    dog.start_new_window();

    handles[0].pet(&mut dog);
    handles[0].pet(&mut dog);
    assert!(handles[0].is_pet(&dog));
    assert!(!handles[1].is_pet(&dog));
    assert!(dog.awaiting_pets());
}

#[test]
fn stolen_handle_reports_for_its_index() {
    let (mut dog, handles) = arm(Config::default(), 2);
    dog.start_new_window();

    let mut stolen = WatchdogHandle::steal(1);
    stolen.pet(&mut dog);
    assert!(handles[1].is_pet(&dog));
    assert!(!handles[0].is_pet(&dog));
}

#[test]
fn interrupt_toggle_does_not_touch_liveness_state() {
    let (mut dog, mut handles) = arm(Config::default(), 1);
    dog.start_new_window();

    dog.enable_interrupt();
    dog.disable_interrupt();
    assert!(dog.awaiting_pets());

    handles[0].pet(&mut dog);
    dog.enable_interrupt();
    assert!(!dog.awaiting_pets());
}
