//! The power sequencer: a finite state machine driven by debounced button
//! edges, deciding DC-enable, system-reset and power-LED levels.
//!
//! Each poll feeds the raw button levels through three debouncers (a short
//! and a long window for the power button, a long window for the reset
//! button),
//! dispatches the confirmed edges through the state table, and reports the
//! requested output-level changes as plain values for the caller to drive
//! onto the pins.

use crate::debounce::Debouncer;
use crate::debounce::Edge;
use vstd::prelude::*;

verus! {

/// Milliseconds between two polls of the power and reset buttons.
pub const DEBOUNCE_POLL_INTERVAL_MS: u64 = 75;

/// Milliseconds the system-reset line is held low by a reset pulse.
pub const RESET_DURATION_MS: u64 = 250;

/// Milliseconds between two toggles of the power LED while powered off.
pub const LED_PERIOD_MS: u64 = 1000;

/// Samples of the short (tap) window for the power button.
pub const POWER_SHORT_DEPTH: u8 = 2;

/// Samples of the long (hold) window for the power button.
pub const POWER_LONG_DEPTH: u8 = 16;

/// Samples of the long (hold) window for the reset button: a reset pulse
/// needs a confirmed hold, not a tap.
pub const RESET_DEPTH: u8 = 16;

/// The states of the DC power control.
#[derive(Copy, Clone, PartialEq, Eq, Structural, Debug)]
pub enum DcPowerState {
    /// DC power was just enabled; an ongoing long press is still the
    /// power-on press and must not be read as a power-off request.
    Starting,
    /// Fully on; a long press turns the system off.
    On,
    /// Fully off; DC disabled and reset held low.
    Off,
}

/// Output-level changes requested by one step of the sequencer. `None`
/// leaves the corresponding line untouched.
#[derive(Copy, Clone, PartialEq, Eq, Debug)]
pub struct SideEffects {
    /// New level for the power LED, if it changes.
    pub led_power: Option<bool>,
    /// New level for the DC-enable line, if it changes.
    pub dc_on: Option<bool>,
    /// New level for the system-reset line, if it changes (high releases
    /// reset, low asserts it).
    pub sys_reset: Option<bool>,
    /// Whether the LED blink task must be re-armed (set when power returns
    /// to off).
    pub restart_blink: bool,
}

/// The step that changes nothing.
pub open spec fn no_effects() -> SideEffects {
    SideEffects { led_power: None, dc_on: None, sys_reset: None, restart_blink: false }
}

/// The state table: next state for a pair of confirmed power-button edges.
/// Any combination outside the three listed rows is spurious noise and
/// changes nothing.
pub open spec fn fsm_next(
    state: DcPowerState,
    long_edge: Option<Edge>,
    short_edge: Option<Edge>,
) -> DcPowerState {
    match (long_edge, short_edge, state) {
        (None, Some(Edge::Rising), DcPowerState::Off) => DcPowerState::Starting,
        (None, Some(Edge::Falling), DcPowerState::Starting) => DcPowerState::On,
        (Some(Edge::Rising), None, DcPowerState::On) => DcPowerState::Off,
        _ => state,
    }
}

/// The state table's side effects, row by row.
pub open spec fn fsm_effects(
    state: DcPowerState,
    long_edge: Option<Edge>,
    short_edge: Option<Edge>,
) -> SideEffects {
    match (long_edge, short_edge, state) {
        (None, Some(Edge::Rising), DcPowerState::Off) => SideEffects {
            led_power: Some(true),
            dc_on: Some(true),
            sys_reset: Some(true),
            restart_blink: false,
        },
        (None, Some(Edge::Falling), DcPowerState::Starting) => no_effects(),
        (Some(Edge::Rising), None, DcPowerState::On) => SideEffects {
            led_power: Some(false),
            dc_on: Some(false),
            sys_reset: Some(false),
            restart_blink: true,
        },
        _ => no_effects(),
    }
}

/// One dispatch through the state table.
pub fn power_event_step(state: DcPowerState, long_edge: Option<Edge>, short_edge: Option<Edge>) -> (r: (
    DcPowerState,
    SideEffects,
))
    ensures
        r.0 == fsm_next(state, long_edge, short_edge),
        r.1 == fsm_effects(state, long_edge, short_edge),
{
    match (long_edge, short_edge, state) {
        (None, Some(Edge::Rising), DcPowerState::Off) => (
            DcPowerState::Starting,
            SideEffects {
                led_power: Some(true),
                dc_on: Some(true),
                sys_reset: Some(true),
                restart_blink: false,
            },
        ),
        (None, Some(Edge::Falling), DcPowerState::Starting) => (
            DcPowerState::On,
            SideEffects { led_power: None, dc_on: None, sys_reset: None, restart_blink: false },
        ),
        (Some(Edge::Rising), None, DcPowerState::On) => (
            DcPowerState::Off,
            SideEffects {
                led_power: Some(false),
                dc_on: Some(false),
                sys_reset: Some(false),
                restart_blink: true,
            },
        ),
        _ => (
            state,
            SideEffects { led_power: None, dc_on: None, sys_reset: None, restart_blink: false },
        ),
    }
}

/// The sequencer: current power state plus the three button debouncers.
pub struct PowerSequencer {
    /// The current power state.
    pub state: DcPowerState,
    /// Short (tap) window over the power button.
    pub btn_power_short: Debouncer,
    /// Long (hold) window over the power button.
    pub btn_power_long: Debouncer,
    /// Long (hold) window over the reset button.
    pub btn_reset: Debouncer,
}

/// What one poll asks the caller to do.
#[derive(Copy, Clone, PartialEq, Eq, Debug)]
pub struct PollOutcome {
    /// Output-level changes from the state table.
    pub effects: SideEffects,
    /// When a reset pulse starts: drive the system-reset line low now and
    /// schedule the release this many milliseconds ahead.
    pub reset_pulse: Option<u64>,
    /// Delay until the next button poll.
    pub poll_again_ms: u64,
}

/// Whether a poll starts a reset pulse: the debounced reset button rose and
/// the machine — after dispatching this poll's power edges — is on.
pub open spec fn poll_reset_request(
    s: PowerSequencer,
    power_pressed: bool,
    reset_pressed: bool,
) -> Option<u64> {
    if s.btn_reset.spec_edge(reset_pressed) == Some(Edge::Rising) && fsm_next(
        s.state,
        s.btn_power_long.spec_edge(power_pressed),
        s.btn_power_short.spec_edge(power_pressed),
    ) == DcPowerState::On {
        Some(RESET_DURATION_MS)
    } else {
        None
    }
}

impl PowerSequencer {
    /// The debouncers are well formed and have their configured depths.
    pub open spec fn wf(self) -> bool {
        &&& self.btn_power_short.wf()
        &&& self.btn_power_long.wf()
        &&& self.btn_reset.wf()
        &&& self.btn_power_short.depth == POWER_SHORT_DEPTH
        &&& self.btn_power_long.depth == POWER_LONG_DEPTH
        &&& self.btn_reset.depth == RESET_DEPTH
    }

    /// The sequencer as built at startup: powered off, no button pressed.
    pub fn new() -> (s: PowerSequencer)
        ensures
            s.wf(),
            s.state == DcPowerState::Off,
            !s.btn_power_short.confirmed,
            !s.btn_power_long.confirmed,
            !s.btn_reset.confirmed,
    {
        PowerSequencer {
            state: DcPowerState::Off,
            btn_power_short: Debouncer::new(POWER_SHORT_DEPTH, false),
            btn_power_long: Debouncer::new(POWER_LONG_DEPTH, false),
            btn_reset: Debouncer::new(RESET_DEPTH, false),
        }
    }

    /// One poll of the buttons: push the raw levels through the debouncers,
    /// dispatch the confirmed edges through the state table, start a reset
    /// pulse when the debounced reset button rose while on, and ask to be
    /// polled again after the poll interval.
    pub fn poll(&mut self, power_pressed: bool, reset_pressed: bool) -> (out: PollOutcome)
        requires
            old(self).wf(),
        ensures
            final(self).wf(),
            final(self).btn_power_short == old(self).btn_power_short.spec_update(power_pressed),
            final(self).btn_power_long == old(self).btn_power_long.spec_update(power_pressed),
            final(self).btn_reset == old(self).btn_reset.spec_update(reset_pressed),
            final(self).state == fsm_next(
                old(self).state,
                old(self).btn_power_long.spec_edge(power_pressed),
                old(self).btn_power_short.spec_edge(power_pressed),
            ),
            out.effects == fsm_effects(
                old(self).state,
                old(self).btn_power_long.spec_edge(power_pressed),
                old(self).btn_power_short.spec_edge(power_pressed),
            ),
            out.reset_pulse == poll_reset_request(*old(self), power_pressed, reset_pressed),
            out.poll_again_ms == DEBOUNCE_POLL_INTERVAL_MS,
    {
        let short_edge = self.btn_power_short.update(power_pressed);
        let long_edge = self.btn_power_long.update(power_pressed);
        let reset_edge = self.btn_reset.update(reset_pressed);

        let (next, effects) = power_event_step(self.state, long_edge, short_edge);
        self.state = next;

        let reset_pulse = if reset_edge == Some(Edge::Rising) && self.state == DcPowerState::On {
            Some(RESET_DURATION_MS)
        } else {
            None
        };

        PollOutcome { effects, reset_pulse, poll_again_ms: DEBOUNCE_POLL_INTERVAL_MS }
    }
}

/// The delayed release of a reset pulse: the line returns high only if the
/// machine is still on when the release fires; a power-off that raced the
/// pulse leaves the line held low.
pub fn exit_reset_step(state: DcPowerState) -> (release: bool)
    ensures
        release == (state == DcPowerState::On),
{
    state == DcPowerState::On
}

/// One step of the LED blink task: while the machine is off, toggle the LED
/// and run again after half a blink period; in any other state do nothing
/// and stop re-arming (the task is re-armed explicitly when power returns
/// to off).
pub fn led_blink_step(state: DcPowerState, led_on: bool) -> (r: (Option<bool>, Option<u64>))
    ensures
        state == DcPowerState::Off ==> r == (Some(!led_on), Some(LED_PERIOD_MS)),
        state != DcPowerState::Off ==> r == (None::<bool>, None::<u64>),
{
    if state == DcPowerState::Off {
        (Some(!led_on), Some(LED_PERIOD_MS))
    } else {
        (None, None)
    }
}

/// The board variant without a delayed release pulses the reset line
/// immediately — low then high in the same poll — when the debounced reset
/// button is released, in any power state. Kept as its own documented path,
/// distinct from the debounced 250 ms pulse of [`PowerSequencer::poll`].
pub fn quick_reset_step(reset_edge: Option<Edge>) -> (pulse: bool)
    ensures
        pulse == (reset_edge == Some(Edge::Falling)),
{
    reset_edge == Some(Edge::Falling)
}

/// The power-cycle law: starting from off, a confirmed short press starts
/// the supply (LED on, DC on, reset released), releasing the press
/// completes power-on with no further effect, and a confirmed long press
/// while on turns everything off and re-arms the LED blink — exactly the
/// three rows of the state table, in that order.
pub proof fn lemma_power_cycle()
    ensures
        fsm_next(DcPowerState::Off, None, Some(Edge::Rising)) == DcPowerState::Starting,
        fsm_effects(DcPowerState::Off, None, Some(Edge::Rising)) == (SideEffects {
            led_power: Some(true),
            dc_on: Some(true),
            sys_reset: Some(true),
            restart_blink: false,
        }),
        fsm_next(DcPowerState::Starting, None, Some(Edge::Falling)) == DcPowerState::On,
        fsm_effects(DcPowerState::Starting, None, Some(Edge::Falling)) == no_effects(),
        fsm_next(DcPowerState::On, Some(Edge::Rising), None) == DcPowerState::Off,
        fsm_effects(DcPowerState::On, Some(Edge::Rising), None) == (SideEffects {
            led_power: Some(false),
            dc_on: Some(false),
            sys_reset: Some(false),
            restart_blink: true,
        }),
{
}

/// No extra transitions: any (state, edges) combination outside the three
/// rows of the state table leaves the state unchanged and produces no side
/// effect.
pub proof fn lemma_spurious_events_ignored(
    state: DcPowerState,
    long_edge: Option<Edge>,
    short_edge: Option<Edge>,
)
    requires
        !(state == DcPowerState::Off && long_edge is None && short_edge == Some(Edge::Rising)),
        !(state == DcPowerState::Starting && long_edge is None && short_edge == Some(Edge::Falling)),
        !(state == DcPowerState::On && long_edge == Some(Edge::Rising) && short_edge is None),
    ensures
        fsm_next(state, long_edge, short_edge) == state,
        fsm_effects(state, long_edge, short_edge) == no_effects(),
{
}

/// The reset-pulse law: a poll starts a pulse exactly when the debounced
/// reset button rose while the machine (after this poll's power edges) is
/// on, the scheduled release always lies exactly [`RESET_DURATION_MS`]
/// ahead, and the release itself ([`exit_reset_step`]) touches the line
/// only if the machine is still on when it fires.
pub proof fn lemma_reset_pulse(s: PowerSequencer, power_pressed: bool, reset_pressed: bool)
    ensures
        poll_reset_request(s, power_pressed, reset_pressed) is Some <==> (s.btn_reset.spec_edge(
            reset_pressed,
        ) == Some(Edge::Rising) && fsm_next(
            s.state,
            s.btn_power_long.spec_edge(power_pressed),
            s.btn_power_short.spec_edge(power_pressed),
        ) == DcPowerState::On),
        poll_reset_request(s, power_pressed, reset_pressed) is Some ==> poll_reset_request(
            s,
            power_pressed,
            reset_pressed,
        ) == Some(RESET_DURATION_MS),
{
}

} // verus!
