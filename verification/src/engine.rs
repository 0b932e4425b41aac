//! The event-interpretation core: one state machine combining the
//! modifier tracker, the dispatch table, the double-press detector and
//! the idle/charge timer.
//!
//! Every raw event runs through [`Core::handle_event`] in the order the
//! surrounding loop drains them: the modifier state is updated first (so
//! the activating event itself never dispatches), then the binding
//! tables are consulted, then power-class presses feed the double-press
//! detector, and last the idle timers are brought up to date and
//! evaluated.  The core performs no side effect itself: it returns which
//! actions are due and the caller invokes the corresponding
//! capabilities, feeding back plain values (the clock reading, the
//! charging state, the brightness to snapshot) where the core needs
//! them.

use vstd::prelude::*;
use crate::dispatch::{Action, Binding, DispatchTable, spec_lookup};
use crate::double_press::{DoublePressDetector, DoublePressWindow, spec_double_press_fires,
    spec_double_press_next};
use crate::event::{ButtonCode, PressPolicy, RawEvent, spec_is_dispatch_press};
use crate::idle::{ActivityClock, IdlePolicy, spec_idle_trigger};
use crate::modifier::{ModifierTracker, spec_modifier_after};

verus! {

/// What a fired power key does, resolved at startup.
#[derive(Clone, Copy, Debug, PartialEq, Eq, Structural)]
pub enum PowerKeyAction {
    Shutdown,
    Suspend,
    Disabled,
}

/// The action a firing power key invokes, if any.
pub open spec fn spec_power_fire_action(a: PowerKeyAction) -> Option<Action> {
    match a {
        PowerKeyAction::Shutdown => Some(Action::PowerOff),
        PowerKeyAction::Suspend => Some(Action::Suspend),
        PowerKeyAction::Disabled => None,
    }
}

/// Runtime form of [`spec_power_fire_action`].
pub fn power_fire_action(a: PowerKeyAction) -> (r: Option<Action>)
    ensures
        r == spec_power_fire_action(a),
{
    match a {
        PowerKeyAction::Shutdown => Some(Action::PowerOff),
        PowerKeyAction::Suspend => Some(Action::Suspend),
        PowerKeyAction::Disabled => None,
    }
}

/// The whole resolved configuration the core runs under.  All of it
/// comes from the surrounding system, already validated; the core never
/// parses anything here.
#[derive(Clone, Copy, Debug, PartialEq, Eq, Structural)]
pub struct CoreConfig {
    /// The modifier button.
    pub hotkey_code: ButtonCode,
    /// What counts as a dispatchable press.
    pub press_policy: PressPolicy,
    /// The power-class button fed to the double-press detector.
    pub power_code: ButtonCode,
    /// The double-press timing window.
    pub power_window: DoublePressWindow,
    /// What a fired power key does.
    pub power_action: PowerKeyAction,
    /// The auto-suspend sub-timer policy.
    pub auto_suspend: IdlePolicy,
    /// The auto-dim sub-timer policy.
    pub auto_dim: IdlePolicy,
    /// The brightness the display dims to.
    pub dim_brightness: u32,
}

/// What the auto-dim toggle asks of the caller after one event.
#[derive(Clone, Copy, Debug, PartialEq, Eq)]
pub enum DimStep {
    /// Nothing to do.
    Idle,
    /// The dim trigger fired: the caller reads the current brightness
    /// and completes the transition through [`Core::begin_dim`].
    Due,
    /// Activity ended the dimmed state: the caller sets the display back
    /// to the carried snapshot.
    Restore(u32),
}

/// Everything [`Core::handle_event`] asks of the caller for one event.
#[derive(Clone, Copy, Debug, PartialEq, Eq)]
pub struct StepOutput {
    /// The action dispatched through the binding tables, if any.
    pub action: Option<Action>,
    /// The action a fired power key invokes, if any.
    pub power: Option<Action>,
    /// Whether the auto-suspend trigger fired.
    pub suspend: bool,
    /// What the auto-dim toggle asks.
    pub dim: DimStep,
}

/// The mathematical state of the core.
pub struct CoreModel {
    pub cfg: CoreConfig,
    pub chorded: Seq<Binding>,
    pub unchorded: Seq<Binding>,
    pub modifier_held: bool,
    pub pending_press: Option<u64>,
    pub last_activity: u64,
    pub last_charge: u64,
    pub dim_active: bool,
    pub saved_brightness: Option<u32>,
}

impl CoreModel {
    /// A brightness snapshot is held exactly while the display stands
    /// dimmed.
    pub open spec fn wf(&self) -> bool {
        self.dim_active <==> self.saved_brightness is Some
    }
}

/// The state and output after one event, handled at clock reading `now`
/// with the battery reporting `charging`.  This is the whole behaviour
/// of [`Core::handle_event`], in order:
///
/// 1. an event with the hotkey code updates the modifier and is itself
///    never dispatched;
/// 2. a dispatchable press consults the table selected by the updated
///    modifier state;
/// 3. a power-class press (`value == 1`) runs the double-press detector,
///    whose fire invokes the configured power action;
/// 4. a press refreshes the activity timestamp and a charging battery
///    the charge timestamp; then auto-suspend triggers if its policy
///    finds the timestamps stale, resetting both to `now`;
/// 5. auto-dim either asks for a restore (on a press or, under its
///    stay-awake policy, while charging), or reports that its trigger
///    fired, judged on the timestamps as just updated.
pub open spec fn spec_step(m: CoreModel, e: RawEvent, now: u64, charging: bool) -> (CoreModel, StepOutput) {
    let held = spec_modifier_after(m.modifier_held, m.cfg.hotkey_code, e);
    let action = if e.code != m.cfg.hotkey_code && spec_is_dispatch_press(m.cfg.press_policy, e.value) {
        spec_lookup(if held { m.chorded } else { m.unchorded }, e.code)
    } else {
        None
    };
    let qualifying = e.code == m.cfg.power_code && e.value == 1;
    let fires = qualifying && spec_double_press_fires(m.cfg.power_window, m.pending_press, now);
    let pending = if qualifying {
        spec_double_press_next(m.cfg.power_window, m.pending_press, now)
    } else {
        m.pending_press
    };
    let power = if fires {
        spec_power_fire_action(m.cfg.power_action)
    } else {
        None
    };
    let pressed = e.value == 1;
    let activity1 = if pressed { now } else { m.last_activity };
    let charge1 = if charging { now } else { m.last_charge };
    let suspend = spec_idle_trigger(m.cfg.auto_suspend, activity1, charge1, now);
    let activity2 = if suspend { now } else { activity1 };
    let charge2 = if suspend { now } else { charge1 };
    let dim = if !m.cfg.auto_dim.enabled {
        DimStep::Idle
    } else if m.dim_active {
        if pressed || (m.cfg.auto_dim.stay_awake_while_charging && charging) {
            DimStep::Restore(m.saved_brightness->0)
        } else {
            DimStep::Idle
        }
    } else if spec_idle_trigger(m.cfg.auto_dim, activity2, charge2, now) {
        DimStep::Due
    } else {
        DimStep::Idle
    };
    let restored = dim is Restore;
    (
        CoreModel {
            modifier_held: held,
            pending_press: pending,
            last_activity: activity2,
            last_charge: charge2,
            dim_active: if restored { false } else { m.dim_active },
            saved_brightness: if restored { None } else { m.saved_brightness },
            ..m
        },
        StepOutput { action, power, suspend, dim },
    )
}

/// One processed event with the clock reading and charging state it was
/// processed under.
pub struct ProcessedEvent {
    pub event: RawEvent,
    pub now: u64,
    pub charging: bool,
}

/// The state after a whole sequence of events, each handled by
/// [`spec_step`] in order.
pub open spec fn spec_step_seq(m: CoreModel, steps: Seq<ProcessedEvent>) -> CoreModel
    decreases steps.len(),
{
    if steps.len() == 0 {
        m
    } else {
        let prev = spec_step_seq(m, steps.drop_last());
        spec_step(prev, steps.last().event, steps.last().now, steps.last().charging).0
    }
}

/// No step moves the configuration or the binding tables.
pub proof fn lemma_step_seq_keeps_config(m: CoreModel, steps: Seq<ProcessedEvent>)
    ensures
        spec_step_seq(m, steps).cfg == m.cfg,
        spec_step_seq(m, steps).chorded == m.chorded,
        spec_step_seq(m, steps).unchorded == m.unchorded,
    decreases steps.len(),
{
    if steps.len() > 0 {
        lemma_step_seq_keeps_config(m, steps.drop_last());
    }
}

/// The modifier state of the whole machine is history-independent: after
/// any event sequence it is what the modifier tracker alone makes of the
/// events — decided by the most recent event carrying the hotkey code,
/// with everything else (dispatches, double presses, idle transitions)
/// having no influence.
pub proof fn lemma_modifier_depends_on_hotkey_events_alone(m: CoreModel, steps: Seq<ProcessedEvent>)
    ensures
        spec_step_seq(m, steps).modifier_held == crate::modifier::spec_modifier_after_seq(
            m.modifier_held,
            m.cfg.hotkey_code,
            steps.map_values(|s: ProcessedEvent| s.event),
        ),
    decreases steps.len(),
{
    let events = steps.map_values(|s: ProcessedEvent| s.event);
    if steps.len() == 0 {
        assert(events.len() == 0);
    } else {
        lemma_modifier_depends_on_hotkey_events_alone(m, steps.drop_last());
        lemma_step_seq_keeps_config(m, steps.drop_last());
        assert(steps.drop_last().map_values(|s: ProcessedEvent| s.event) =~= events.drop_last());
        assert(events.last() == steps.last().event);
    }
}

/// A no-op event leaves the machine's state untouched: invoking an
/// action capability is a side effect outside the machine's purview, and
/// an event that is no press (`value == 0`), carries neither the hotkey
/// nor — as a press — any bound code, and arrives while the battery is
/// not charging and no suspend transition is due, moves nothing.  The
/// output asks for no dispatch, no power action, no suspend and no
/// restore.
pub proof fn lemma_noop_event_state_unchanged(m: CoreModel, e: RawEvent, now: u64, charging: bool)
    requires
        m.wf(),
        e.value == 0,
        e.code != m.cfg.hotkey_code,
        !charging,
        !spec_idle_trigger(m.cfg.auto_suspend, m.last_activity, m.last_charge, now),
    ensures
        spec_step(m, e, now, charging).0 == m,
        spec_step(m, e, now, charging).1.action is None,
        spec_step(m, e, now, charging).1.power is None,
        !spec_step(m, e, now, charging).1.suspend,
        spec_step(m, e, now, charging).1.dim !is Restore,
{
}

/// The core state machine.
pub struct Core {
    config: CoreConfig,
    table: DispatchTable,
    modifier: ModifierTracker,
    detector: DoublePressDetector,
    clock: ActivityClock,
}

impl View for Core {
    type V = CoreModel;

    closed spec fn view(&self) -> CoreModel {
        CoreModel {
            cfg: self.config,
            chorded: self.table.spec_bindings(true),
            unchorded: self.table.spec_bindings(false),
            modifier_held: self.modifier.spec_held(),
            pending_press: self.detector.spec_pending(),
            last_activity: self.clock.spec_last_activity(),
            last_charge: self.clock.spec_last_charge(),
            dim_active: self.clock.spec_dim_active(),
            saved_brightness: self.clock.spec_saved_brightness(),
        }
    }
}

impl Core {
    /// The components agree with the configuration they were built from,
    /// and the clock is well formed.
    pub closed spec fn inv(&self) -> bool {
        &&& self.modifier.spec_hotkey_code() == self.config.hotkey_code
        &&& self.detector.spec_window() == self.config.power_window
        &&& self.clock.wf()
    }

    /// A fresh core at clock reading `now`: modifier released, detector
    /// armed with nothing recorded, both idle timestamps current,
    /// nothing dimmed.
    pub fn new(config: CoreConfig, table: DispatchTable, now: u64) -> (c: Core)
        ensures
            c.inv(),
            c@.wf(),
            c@ == (CoreModel {
                cfg: config,
                chorded: table.spec_bindings(true),
                unchorded: table.spec_bindings(false),
                modifier_held: false,
                pending_press: None,
                last_activity: now,
                last_charge: now,
                dim_active: false,
                saved_brightness: None,
            }),
    {
        Core {
            config,
            table,
            modifier: ModifierTracker::new(config.hotkey_code),
            detector: DoublePressDetector::new(config.power_window),
            clock: ActivityClock::new(now),
        }
    }

    /// Run one raw event through the whole machine at clock reading
    /// `now`, with the battery reporting `charging`.  The state moves
    /// and the output reads exactly as [`spec_step`] says.
    pub fn handle_event(&mut self, e: &RawEvent, now: u64, charging: bool) -> (out: StepOutput)
        requires
            old(self).inv(),
            old(self)@.wf(),
            old(self)@.last_activity <= now,
            old(self)@.last_charge <= now,
            old(self)@.pending_press matches Some(t0) ==> t0 <= now,
        ensures
            final(self).inv(),
            final(self)@.wf(),
            final(self)@ == spec_step(old(self)@, *e, now, charging).0,
            out == spec_step(old(self)@, *e, now, charging).1,
            final(self)@.last_activity <= now,
            final(self)@.last_charge <= now,
            final(self)@.pending_press matches Some(t0) ==> t0 <= now,
    {
        let held = self.modifier.update(e);
        let action = if !(e.code == self.config.hotkey_code) && crate::event::is_dispatch_press(
            self.config.press_policy,
            e.value,
        ) {
            self.table.lookup(held, e.code)
        } else {
            None
        };
        let fires = if e.code == self.config.power_code && e.value == 1 {
            self.detector.note_press(now)
        } else {
            false
        };
        let power = if fires {
            power_fire_action(self.config.power_action)
        } else {
            None
        };
        let pressed = e.value == 1;
        self.clock.note(now, pressed, charging);
        let suspend = self.clock.idle_trigger(&self.config.auto_suspend, now);
        if suspend {
            self.clock.reset(now);
        }
        let dim = if !self.config.auto_dim.enabled {
            DimStep::Idle
        } else if self.clock.dim_active() {
            if pressed || (self.config.auto_dim.stay_awake_while_charging && charging) {
                DimStep::Restore(self.clock.end_dim())
            } else {
                DimStep::Idle
            }
        } else if self.clock.idle_trigger(&self.config.auto_dim, now) {
            DimStep::Due
        } else {
            DimStep::Idle
        };
        StepOutput { action, power, suspend, dim }
    }

    /// Complete a [`DimStep::Due`] transition: snapshot the brightness
    /// the caller read and return the level to dim the display to.
    pub fn begin_dim(&mut self, current_brightness: u32) -> (level: u32)
        requires
            old(self).inv(),
            !old(self)@.dim_active,
        ensures
            final(self).inv(),
            final(self)@.wf(),
            final(self)@ == (CoreModel {
                dim_active: true,
                saved_brightness: Some(current_brightness),
                ..old(self)@
            }),
            level == old(self)@.cfg.dim_brightness,
    {
        self.clock.begin_dim(current_brightness);
        self.config.dim_brightness
    }
}

} // verus!
