//! Tests for the power sequencer: the full on/off cycle with its side
//! effects, spurious-event rejection, and the reset pulse.

use neotron_bmc::power::exit_reset_step;
use neotron_bmc::power::led_blink_step;
use neotron_bmc::power::quick_reset_step;
use neotron_bmc::power::DcPowerState;
use neotron_bmc::power::PollOutcome;
use neotron_bmc::power::PowerSequencer;
use neotron_bmc::power::LED_PERIOD_MS;
use neotron_bmc::power::RESET_DURATION_MS;
use neotron_bmc::debounce::Edge;
use neotron_bmc::scheduler::Scheduler;
use neotron_bmc::scheduler::TaskId;

fn assert_no_op(out: &PollOutcome) {
    assert_eq!(out.effects.led_power, None);
    assert_eq!(out.effects.dc_on, None);
    assert_eq!(out.effects.sys_reset, None);
    assert!(!out.effects.restart_blink);
    assert_eq!(out.reset_pulse, None);
}

/// Drive the sequencer from off to fully on: press the power button for
/// two polls, then release it for two.
fn power_up(seq: &mut PowerSequencer) {
    assert_no_op(&seq.poll(true, false));
    assert_eq!(seq.state, DcPowerState::Off);
    let on = seq.poll(true, false);
    assert_eq!(seq.state, DcPowerState::Starting);
    assert_eq!(on.effects.led_power, Some(true));
    assert_eq!(on.effects.dc_on, Some(true));
    assert_eq!(on.effects.sys_reset, Some(true));
    assert!(!on.effects.restart_blink);
    assert_no_op(&seq.poll(false, false));
    assert_eq!(seq.state, DcPowerState::Starting);
    assert_no_op(&seq.poll(false, false));
    assert_eq!(seq.state, DcPowerState::On);
}

#[test]
fn full_power_cycle_side_effects_in_order() {
    let mut seq = PowerSequencer::new();
    assert_eq!(seq.state, DcPowerState::Off);

    // Off --short-press--> Starting --release--> On.
    power_up(&mut seq);

    // Hold the button: the short window re-confirms quickly (a no-op row
    // while on), the long window fires on its sixteenth unanimous sample.
    for _ in 0..15 {
        assert_no_op(&seq.poll(true, false));
        assert_eq!(seq.state, DcPowerState::On);
    }
    let off = seq.poll(true, false);
    assert_eq!(seq.state, DcPowerState::Off);
    assert_eq!(off.effects.led_power, Some(false));
    assert_eq!(off.effects.dc_on, Some(false));
    assert_eq!(off.effects.sys_reset, Some(false));
    assert!(off.effects.restart_blink);
}

#[test]
fn single_edges_alone_cause_no_extra_transitions() {
    let mut seq = PowerSequencer::new();
    // A short press while already on is ignored.
    power_up(&mut seq);
    assert_no_op(&seq.poll(true, false));
    let out = seq.poll(true, false);
    // Short rising edge fires here, but the (On, short-rise) pair is not a
    // table row.
    assert_no_op(&out);
    assert_eq!(seq.state, DcPowerState::On);
}

#[test]
fn reset_pulse_scheduled_while_on() {
    let mut seq = PowerSequencer::new();
    power_up(&mut seq);
    // A reset pulse needs a confirmed hold: fifteen unanimous samples are
    // not yet enough.
    for _ in 0..15 {
        assert_eq!(seq.poll(false, true).reset_pulse, None);
    }
    // The sixteenth confirms the hold and starts exactly one pulse,
    // releasing after the fixed duration.
    let out = seq.poll(false, true);
    assert_eq!(out.reset_pulse, Some(RESET_DURATION_MS));
    // Holding the button further schedules nothing more.
    assert_eq!(seq.poll(false, true).reset_pulse, None);
}

#[test]
fn reset_ignored_while_off() {
    let mut seq = PowerSequencer::new();
    // Hold reset long enough to confirm: the edge fires on the sixteenth
    // sample, but the machine is off, so no pulse starts.
    for _ in 0..16 {
        assert_eq!(seq.poll(false, true).reset_pulse, None);
    }
    assert_eq!(seq.state, DcPowerState::Off);
}

#[test]
fn reset_tap_too_short_to_confirm() {
    let mut seq = PowerSequencer::new();
    power_up(&mut seq);
    // A short tap on reset — two polls — never confirms the hold window
    // and must not pulse the reset line.
    assert_eq!(seq.poll(false, true).reset_pulse, None);
    assert_eq!(seq.poll(false, true).reset_pulse, None);
    for _ in 0..20 {
        assert_eq!(seq.poll(false, false).reset_pulse, None);
    }
    assert_eq!(seq.state, DcPowerState::On);
}

#[test]
fn power_off_during_pulse_window_leaves_reset_low() {
    let mut seq = PowerSequencer::new();
    power_up(&mut seq);

    // Hold reset: the sixteenth poll confirms the hold and starts the
    // pulse.
    let mut sched = Scheduler::new();
    let now: u64 = 0;
    for _ in 0..15 {
        assert_eq!(seq.poll(false, true).reset_pulse, None);
    }
    let out = seq.poll(false, true);
    let delay = out.reset_pulse.expect("pulse should start while on");
    assert_eq!(delay, RESET_DURATION_MS);
    assert!(sched.schedule(TaskId::ExitReset, now, delay));
    // Exactly one release is pending; a repeat of the request is refused.
    assert!(!sched.schedule(TaskId::ExitReset, now + 75, delay));

    // Power off during the pulse window: hold the power button.
    for _ in 0..16 {
        seq.poll(true, true);
    }
    assert_eq!(seq.state, DcPowerState::Off);

    // The release fires after the pulse width, but the machine is off: it
    // must not re-assert the reset line high.
    assert_eq!(sched.pop_due(now + delay), Some(TaskId::ExitReset));
    assert!(!exit_reset_step(seq.state));
}

#[test]
fn reset_release_only_fires_when_still_on() {
    // The delayed release re-raises the line only if the machine is still
    // on; a power-off that raced the pulse leaves the line low.
    assert!(exit_reset_step(DcPowerState::On));
    assert!(!exit_reset_step(DcPowerState::Off));
    assert!(!exit_reset_step(DcPowerState::Starting));
}

#[test]
fn led_blinks_only_while_off() {
    assert_eq!(led_blink_step(DcPowerState::Off, false), (Some(true), Some(LED_PERIOD_MS)));
    assert_eq!(led_blink_step(DcPowerState::Off, true), (Some(false), Some(LED_PERIOD_MS)));
    assert_eq!(led_blink_step(DcPowerState::On, true), (None, None));
    assert_eq!(led_blink_step(DcPowerState::Starting, false), (None, None));
}

#[test]
fn quick_reset_pulses_on_release_edge() {
    assert!(quick_reset_step(Some(Edge::Falling)));
    assert!(!quick_reset_step(Some(Edge::Rising)));
    assert!(!quick_reset_step(None));
}
