//! Scenario tests for the whole event-interpretation core.

use ogage::dispatch::{Action, Binding, DispatchTable};
use ogage::double_press::DoublePressWindow;
use ogage::engine::{Core, CoreConfig, DimStep, PowerKeyAction, StepOutput};
use ogage::event::{ButtonCode, PressPolicy, RawEvent};
use ogage::idle::IdlePolicy;

const EV_KEY: u16 = 1;

fn key(code: u16) -> ButtonCode {
    ButtonCode { ev_type: EV_KEY, code }
}

const HOTKEY: u16 = 704;
const POWER: u16 = 116;
const VOL_UP: u16 = 307;
const VOL_DOWN: u16 = 304;
const OTHER: u16 = 999;

fn event(code: u16, value: i32, time: u64) -> RawEvent {
    RawEvent { source: 0, code: key(code), value, time }
}

fn base_config() -> CoreConfig {
    CoreConfig {
        hotkey_code: key(HOTKEY),
        press_policy: PressPolicy::PressOnly,
        power_code: key(POWER),
        power_window: DoublePressWindow {
            double_push: true,
            min_interval: 1_000_000,
            max_interval: 2_000_000,
        },
        power_action: PowerKeyAction::Shutdown,
        auto_suspend: IdlePolicy { enabled: false, timeout: 0, stay_awake_while_charging: false },
        auto_dim: IdlePolicy { enabled: false, timeout: 0, stay_awake_while_charging: false },
        dim_brightness: 10,
    }
}

fn base_table() -> DispatchTable {
    let chorded = vec![
        Binding { code: key(VOL_UP), enabled: true, action: Action::VolumeUp },
        Binding { code: key(VOL_DOWN), enabled: true, action: Action::VolumeDown },
    ];
    DispatchTable::new(chorded, Vec::new())
}

fn idle_output(out: &StepOutput) -> bool {
    out.action.is_none() && out.power.is_none() && !out.suspend && out.dim == DimStep::Idle
}

#[test]
fn very_first_power_press_never_fires() {
    let mut core = Core::new(base_config(), base_table(), 0);
    let out = core.handle_event(&event(POWER, 1, 0), 0, false);
    assert!(out.power.is_none());
}

#[test]
fn double_press_too_fast_then_slides() {
    // Presses at t=0 and t=0.5s with MIN=1s: nothing fires, but the
    // reference point becomes t=0.5s, so a press at t=1.6s fires, since
    // 1.6s - 0.5s = 1.1s lies within [1s, 2s].
    let mut core = Core::new(base_config(), base_table(), 0);
    let out = core.handle_event(&event(POWER, 1, 0), 0, false);
    assert!(out.power.is_none());
    let out = core.handle_event(&event(POWER, 1, 500_000), 500_000, false);
    assert!(out.power.is_none());
    let out = core.handle_event(&event(POWER, 1, 1_600_000), 1_600_000, false);
    assert_eq!(out.power, Some(Action::PowerOff));
}

#[test]
fn double_press_too_slow_resets_reference() {
    // Presses at t=0 and t=3s with window [1s, 2s]: no fire, and the
    // second press becomes the new reference, so t=4.5s completes a
    // double press against t=3s.
    let mut core = Core::new(base_config(), base_table(), 0);
    let out = core.handle_event(&event(POWER, 1, 0), 0, false);
    assert!(out.power.is_none());
    let out = core.handle_event(&event(POWER, 1, 3_000_000), 3_000_000, false);
    assert!(out.power.is_none());
    let out = core.handle_event(&event(POWER, 1, 4_500_000), 4_500_000, false);
    assert_eq!(out.power, Some(Action::PowerOff));
}

#[test]
fn double_press_fire_carries_no_timestamp_over() {
    // After a completed double press the detector re-arms empty: the
    // next press is a first press again and cannot fire by itself.
    let mut core = Core::new(base_config(), base_table(), 0);
    core.handle_event(&event(POWER, 1, 0), 0, false);
    let out = core.handle_event(&event(POWER, 1, 1_500_000), 1_500_000, false);
    assert_eq!(out.power, Some(Action::PowerOff));
    let out = core.handle_event(&event(POWER, 1, 3_000_000), 3_000_000, false);
    assert!(out.power.is_none());
}

#[test]
fn single_press_fires_with_double_push_disabled() {
    let mut config = base_config();
    config.power_window.double_push = false;
    config.power_action = PowerKeyAction::Suspend;
    let mut core = Core::new(config, base_table(), 0);
    let out = core.handle_event(&event(POWER, 1, 0), 0, false);
    assert_eq!(out.power, Some(Action::Suspend));
}

#[test]
fn disabled_power_action_fires_nothing() {
    let mut config = base_config();
    config.power_action = PowerKeyAction::Disabled;
    let mut core = Core::new(config, base_table(), 0);
    core.handle_event(&event(POWER, 1, 0), 0, false);
    let out = core.handle_event(&event(POWER, 1, 1_500_000), 1_500_000, false);
    assert!(out.power.is_none());
}

#[test]
fn power_release_does_not_feed_the_detector() {
    let mut core = Core::new(base_config(), base_table(), 0);
    core.handle_event(&event(POWER, 1, 0), 0, false);
    core.handle_event(&event(POWER, 0, 100_000), 100_000, false);
    // The release at t=0.1s must not have become the reference point:
    // measured from t=0, the press at t=1.5s completes the pair.
    let out = core.handle_event(&event(POWER, 1, 1_500_000), 1_500_000, false);
    assert_eq!(out.power, Some(Action::PowerOff));
}

#[test]
fn chord_dispatches_only_while_modifier_held() {
    let mut core = Core::new(base_config(), base_table(), 0);
    let out = core.handle_event(&event(VOL_UP, 1, 0), 0, false);
    assert!(out.action.is_none());
    let out = core.handle_event(&event(HOTKEY, 1, 1), 1, false);
    assert!(out.action.is_none());
    let out = core.handle_event(&event(VOL_UP, 1, 2), 2, false);
    assert_eq!(out.action, Some(Action::VolumeUp));
    let out = core.handle_event(&event(HOTKEY, 0, 3), 3, false);
    assert!(out.action.is_none());
    let out = core.handle_event(&event(VOL_UP, 1, 4), 4, false);
    assert!(out.action.is_none());
}

#[test]
fn hotkey_event_is_never_dispatched_itself() {
    // Even with the hotkey code bound in both tables, the activating
    // event is a state change only.
    let bound = vec![Binding { code: key(HOTKEY), enabled: true, action: Action::VolumeMute }];
    let table = DispatchTable::new(bound.clone(), bound);
    let mut core = Core::new(base_config(), table, 0);
    let out = core.handle_event(&event(HOTKEY, 1, 0), 0, false);
    assert!(out.action.is_none());
    let out = core.handle_event(&event(HOTKEY, 0, 1), 1, false);
    assert!(out.action.is_none());
}

#[test]
fn release_events_are_not_dispatched() {
    let mut core = Core::new(base_config(), base_table(), 0);
    core.handle_event(&event(HOTKEY, 1, 0), 0, false);
    let out = core.handle_event(&event(VOL_UP, 0, 1), 1, false);
    assert!(out.action.is_none());
}

#[test]
fn repeat_dispatches_only_under_press_or_repeat_policy() {
    let mut core = Core::new(base_config(), base_table(), 0);
    core.handle_event(&event(HOTKEY, 1, 0), 0, false);
    let out = core.handle_event(&event(VOL_UP, 2, 1), 1, false);
    assert!(out.action.is_none());

    let mut config = base_config();
    config.press_policy = PressPolicy::PressOrRepeat;
    let mut core = Core::new(config, base_table(), 0);
    core.handle_event(&event(HOTKEY, 1, 0), 0, false);
    let out = core.handle_event(&event(VOL_UP, 2, 1), 1, false);
    assert_eq!(out.action, Some(Action::VolumeUp));
}

#[test]
fn auto_dim_snapshots_and_restores_exactly() {
    // With a 5s timeout and no press for 5s the display dims to the
    // configured brightness; the prior value is snapshotted, and a press
    // at t=5.1s restores that exact value and clears the dimmed state.
    let mut config = base_config();
    config.auto_dim = IdlePolicy {
        enabled: true,
        timeout: 5_000_000,
        stay_awake_while_charging: false,
    };
    config.dim_brightness = 10;
    let mut core = Core::new(config, base_table(), 0);
    let out = core.handle_event(&event(OTHER, 0, 5_000_001), 5_000_001, false);
    assert_eq!(out.dim, DimStep::Due);
    let level = core.begin_dim(63);
    assert_eq!(level, 10);
    let out = core.handle_event(&event(OTHER, 1, 5_100_000), 5_100_000, false);
    assert_eq!(out.dim, DimStep::Restore(63));
    // Cleared: the next press finds nothing to restore.
    let out = core.handle_event(&event(OTHER, 1, 5_200_000), 5_200_000, false);
    assert_eq!(out.dim, DimStep::Idle);
}

#[test]
fn auto_dim_does_not_trigger_before_the_timeout() {
    let mut config = base_config();
    config.auto_dim = IdlePolicy {
        enabled: true,
        timeout: 5_000_000,
        stay_awake_while_charging: false,
    };
    let mut core = Core::new(config, base_table(), 0);
    let out = core.handle_event(&event(OTHER, 0, 5_000_000), 5_000_000, false);
    assert_eq!(out.dim, DimStep::Idle);
}

#[test]
fn auto_dim_stay_awake_restores_when_charging_resumes() {
    let mut config = base_config();
    config.auto_dim = IdlePolicy {
        enabled: true,
        timeout: 5_000_000,
        stay_awake_while_charging: true,
    };
    let mut core = Core::new(config, base_table(), 0);
    let out = core.handle_event(&event(OTHER, 0, 5_000_001), 5_000_001, false);
    assert_eq!(out.dim, DimStep::Due);
    core.begin_dim(80);
    // No press, but the charger returns: the snapshot comes back.
    let out = core.handle_event(&event(OTHER, 0, 5_200_000), 5_200_000, true);
    assert_eq!(out.dim, DimStep::Restore(80));
}

#[test]
fn auto_suspend_stays_awake_while_charging() {
    // With stay-awake-while-charging, idle activity alone never
    // suspends while the battery keeps charging; only once both the
    // activity and the charge timestamps are stale does it fire.
    let mut config = base_config();
    config.auto_suspend = IdlePolicy {
        enabled: true,
        timeout: 5_000_000,
        stay_awake_while_charging: true,
    };
    let mut core = Core::new(config, base_table(), 0);
    let out = core.handle_event(&event(OTHER, 0, 6_000_000), 6_000_000, true);
    assert!(!out.suspend);
    let out = core.handle_event(&event(OTHER, 0, 12_000_000), 12_000_000, true);
    assert!(!out.suspend);
    let out = core.handle_event(&event(OTHER, 0, 17_000_001), 17_000_001, false);
    assert!(out.suspend);
    // The firing reset both timestamps: nothing more is due right away.
    let out = core.handle_event(&event(OTHER, 0, 17_100_000), 17_100_000, false);
    assert!(!out.suspend);
}

#[test]
fn auto_suspend_without_stay_awake_ignores_charging() {
    let mut config = base_config();
    config.auto_suspend = IdlePolicy {
        enabled: true,
        timeout: 5_000_000,
        stay_awake_while_charging: false,
    };
    let mut core = Core::new(config, base_table(), 0);
    let out = core.handle_event(&event(OTHER, 0, 5_000_001), 5_000_001, true);
    assert!(out.suspend);
}

#[test]
fn presses_keep_the_device_awake() {
    let mut config = base_config();
    config.auto_suspend = IdlePolicy {
        enabled: true,
        timeout: 5_000_000,
        stay_awake_while_charging: false,
    };
    let mut core = Core::new(config, base_table(), 0);
    let out = core.handle_event(&event(OTHER, 1, 4_000_000), 4_000_000, false);
    assert!(!out.suspend);
    // 4s later than the press, 8s later than the start: not stale.
    let out = core.handle_event(&event(OTHER, 0, 8_000_000), 8_000_000, false);
    assert!(!out.suspend);
    let out = core.handle_event(&event(OTHER, 0, 9_000_001), 9_000_001, false);
    assert!(out.suspend);
}

#[test]
fn noop_event_asks_for_nothing() {
    let mut config = base_config();
    config.auto_suspend = IdlePolicy {
        enabled: true,
        timeout: 5_000_000,
        stay_awake_while_charging: false,
    };
    config.auto_dim = IdlePolicy {
        enabled: true,
        timeout: 5_000_000,
        stay_awake_while_charging: false,
    };
    let mut core = Core::new(config, base_table(), 0);
    let out = core.handle_event(&event(OTHER, 0, 1_000_000), 1_000_000, false);
    assert!(idle_output(&out));
    // And the machine behaves afterwards as if nothing had happened: a
    // press at 4s keeps the suspend trigger quiet at 9s.
    let out = core.handle_event(&event(OTHER, 1, 4_000_000), 4_000_000, false);
    assert!(idle_output(&out));
    let out = core.handle_event(&event(OTHER, 0, 9_000_000), 9_000_000, false);
    assert!(idle_output(&out));
}
