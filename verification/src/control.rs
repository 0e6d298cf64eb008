//! The decisions of the heater control loop, taken every control tick from
//! the controller's state and the measured temperature.
use vstd::prelude::*;
use crate::fsm::{Event, Shared, State, is_menu_event, machine_step};
use crate::reflow_profiles::{ReflowProfiles, profile_values};

verus! {

/// The band (in quarter degrees Celsius, that is 3 °C) below a phase's
/// temperature within which the phase counts as done.
pub const PHASE_DONE_BAND_QUARTERS: u32 = 12;

/// A heating phase of a reflow run.
#[derive(Clone, Copy, Debug, PartialEq, Eq, Structural)]
pub enum HeatingPhase {
    Preheat,
    Soak,
    Reflow,
}

/// What the control loop does in one tick.
#[derive(Clone, Copy, Debug, PartialEq, Eq, Structural)]
pub enum ControlAction {
    /// Regulate the heater towards the set-point temperature.
    RegulateSetpoint,
    /// The phase's temperature is reached: send this event and leave the
    /// heater output as it is for this tick.
    PhaseDone(Event),
    /// Regulate the heater along the phase's ramp, then count the tick.
    FollowRamp(HeatingPhase),
    /// Keep the heater off while the plate cools, then count the tick.
    Cooling,
    /// Keep the heater off.
    HeaterOff,
}

/// The temperature (°C) a heating phase heads for.
pub open spec fn phase_temperature(p: ReflowProfiles, phase: HeatingPhase) -> u32 {
    match phase {
        HeatingPhase::Preheat => profile_values(p)[3],
        HeatingPhase::Soak => profile_values(p)[4],
        HeatingPhase::Reflow => profile_values(p)[5],
    }
}

/// A heating phase is done once the temperature is within 3 °C of (or above)
/// the phase's temperature; `quarters` is in quarter degrees.
pub open spec fn heating_done(quarters: i32, target: u32) -> bool {
    quarters as int >= 4 * target as int - PHASE_DONE_BAND_QUARTERS
}

/// Cooling is done once the temperature is at or below the profile's cooling
/// temperature.
pub open spec fn cooling_done(quarters: i32, p: ReflowProfiles) -> bool {
    quarters as int <= 4 * profile_values(p)[6] as int
}

/// The decision of one control tick, with the plate at `quarters` quarter
/// degrees Celsius and `p` the selected profile.
pub open spec fn control_step(s: State, quarters: i32, p: ReflowProfiles) -> ControlAction {
    match s {
        State::SetpointRunning => ControlAction::RegulateSetpoint,
        State::ReflowPhasePreheat => if heating_done(quarters, phase_temperature(p, HeatingPhase::Preheat)) {
            ControlAction::PhaseDone(Event::ReflowPhasePreheatDone)
        } else {
            ControlAction::FollowRamp(HeatingPhase::Preheat)
        },
        State::ReflowPhaseSoak => if heating_done(quarters, phase_temperature(p, HeatingPhase::Soak)) {
            ControlAction::PhaseDone(Event::ReflowPhaseSoakDone)
        } else {
            ControlAction::FollowRamp(HeatingPhase::Soak)
        },
        State::ReflowPhaseReflow => if heating_done(quarters, phase_temperature(p, HeatingPhase::Reflow)) {
            ControlAction::PhaseDone(Event::ReflowPhaseReflowDone)
        } else {
            ControlAction::FollowRamp(HeatingPhase::Reflow)
        },
        State::ReflowPhaseCool => if cooling_done(quarters, p) {
            ControlAction::PhaseDone(Event::ReflowPhaseCoolDone)
        } else {
            ControlAction::Cooling
        },
        _ => ControlAction::HeaterOff,
    }
}

/// Whether a plate at `quarters` quarter degrees is within the done band of
/// `target` °C.
fn reached(quarters: i32, target: u32) -> (b: bool)
    requires
        target <= 1000,
    ensures
        b == heating_done(quarters, target),
{
    let threshold: i32 = 4 * (target as i32) - (PHASE_DONE_BAND_QUARTERS as i32);
    quarters >= threshold
}

/// Decides what the control loop does in this tick.
pub fn control_action(state: State, temperature_quarters: i32, profile: ReflowProfiles) -> (a: ControlAction)
    ensures
        a == control_step(state, temperature_quarters, profile),
{
    match state {
        State::SetpointRunning => ControlAction::RegulateSetpoint,
        State::ReflowPhasePreheat => {
            let preheat_temp = profile.profile().preheat_temp;
            if reached(temperature_quarters, preheat_temp) {
                ControlAction::PhaseDone(Event::ReflowPhasePreheatDone)
            } else {
                ControlAction::FollowRamp(HeatingPhase::Preheat)
            }
        },
        State::ReflowPhaseSoak => {
            let soak_temp = profile.profile().soak_temp;
            if reached(temperature_quarters, soak_temp) {
                ControlAction::PhaseDone(Event::ReflowPhaseSoakDone)
            } else {
                ControlAction::FollowRamp(HeatingPhase::Soak)
            }
        },
        State::ReflowPhaseReflow => {
            let reflow_temp = profile.profile().reflow_temp;
            if reached(temperature_quarters, reflow_temp) {
                ControlAction::PhaseDone(Event::ReflowPhaseReflowDone)
            } else {
                ControlAction::FollowRamp(HeatingPhase::Reflow)
            }
        },
        State::ReflowPhaseCool => {
            let cool_temp = profile.profile().cool_temp;
            if temperature_quarters <= 4 * (cool_temp as i32) {
                ControlAction::PhaseDone(Event::ReflowPhaseCoolDone)
            } else {
                ControlAction::Cooling
            }
        },
        _ => ControlAction::HeaterOff,
    }
}

/// The heater is only driven in set-point regulation and in the heating
/// phases of a reflow run; in every other state it is kept off.
pub proof fn lemma_heater_only_when_wanted(s: State, quarters: i32, p: ReflowProfiles)
    ensures
        (control_step(s, quarters, p) == ControlAction::RegulateSetpoint || control_step(
            s,
            quarters,
            p,
        ) is FollowRamp) ==> (s == State::SetpointRunning || s == State::ReflowPhasePreheat || s
            == State::ReflowPhaseSoak || s == State::ReflowPhaseReflow),
{
}

/// The event a finished phase sends is the one that moves the state machine
/// on to the next phase.
pub proof fn lemma_done_event_matches_phase(s: State, quarters: i32, p: ReflowProfiles)
    ensures
        control_step(s, quarters, p) matches ControlAction::PhaseDone(e) ==> (
            (s == State::ReflowPhasePreheat && e == Event::ReflowPhasePreheatDone) || (s
                == State::ReflowPhaseSoak && e == Event::ReflowPhaseSoakDone) || (s
                == State::ReflowPhaseReflow && e == Event::ReflowPhaseReflowDone) || (s
                == State::ReflowPhaseCool && e == Event::ReflowPhaseCoolDone)),
{
}

/// Heating done is monotone: a hotter plate is done whenever a cooler one is.
pub proof fn lemma_heating_done_monotone(q1: i32, q2: i32, target: u32)
    requires
        q1 <= q2,
        heating_done(q1, target),
    ensures
        heating_done(q2, target),
{
}

/// The event a finished phase sends moves the state machine on to the next
/// phase (or to the completion screen), restarting the phase's tick count.
pub proof fn lemma_done_event_advances_run(s: State, sh: Shared, quarters: i32, p: ReflowProfiles)
    requires
        control_step(s, quarters, p) is PhaseDone,
    ensures
        ({
            let e = control_step(s, quarters, p)->PhaseDone_0;
            let (t, sh2, out) = machine_step(s, sh, e);
            &&& out.transitioned
            &&& sh2.phase_elapsed_steps == 0
            &&& t == match s {
                State::ReflowPhasePreheat => State::ReflowPhaseSoak,
                State::ReflowPhaseSoak => State::ReflowPhaseReflow,
                State::ReflowPhaseReflow => State::ReflowPhaseCool,
                _ => State::ReflowPhaseCompleted,
            }
        }),
{
}

/// Leaving set-point regulation for the menu turns the heater off: after a
/// handled "Menu" event the control loop drives the heater in no way.
pub proof fn lemma_menu_turns_heater_off(s: State, sh: Shared, e: Event, quarters: i32, p: ReflowProfiles)
    requires
        is_menu_event(e),
        machine_step(s, sh, e).2.transitioned,
    ensures
        control_step(machine_step(s, sh, e).0, quarters, p) == ControlAction::HeaterOff,
{
}

} // verus!
