use hot_plate_reflow::control::{control_action, ControlAction, HeatingPhase};
use hot_plate_reflow::errors::ErrorType;
use hot_plate_reflow::fsm::{Event, HandleOutcome, SelectedUIElement, Shared, StartTimeUpdate, State, HPRC};
use hot_plate_reflow::knob::{on_button, on_turn};
use hot_plate_reflow::reflow_profiles::{ReflowParams, ReflowProfiles};
use hot_plate_reflow::rotary_encoder::Direction;
use hot_plate_reflow::ui::{display_input, EncoderReport, RotaryEncoderDirection};
use RotaryEncoderDirection::{CCW, CW, Stationary};

fn initial_shared() -> Shared {
    Shared {
        selected_element: SelectedUIElement::MenuReflow,
        setpoint_temperature: 20,
        current_error: ErrorType::NoErrors,
        phase_elapsed_steps: 0,
        selected_profile: ReflowProfiles::NoProfile,
        reflow_parameters: ReflowParams::zero(),
        temperature: 88,
        reflow_start_temp: 0,
    }
}

fn moved() -> HandleOutcome {
    HandleOutcome { transitioned: true, start_time: StartTimeUpdate::Unchanged }
}

#[test]
fn machine_starts_in_menu() {
    assert_eq!(HPRC::new().state(), State::Menu);
}

#[test]
fn full_reflow_run() {
    let mut m = HPRC::new();
    let mut sh = initial_shared();
    assert_eq!(m.handle(&Event::ReflowSelected, &mut sh), moved());
    assert_eq!(m.state(), State::ReflowProfileSelection);
    assert_eq!(sh.selected_element, SelectedUIElement::ReflowProfile1);
    sh.selected_profile = ReflowProfiles::GC10;
    m.handle(&Event::ReflowSelected, &mut sh);
    assert_eq!(m.state(), State::Reflow);
    assert_eq!(sh.selected_element, SelectedUIElement::ReflowStart);
    sh.phase_elapsed_steps = 7;
    let out = m.handle(&Event::ReflowStartSelected, &mut sh);
    assert_eq!(out, HandleOutcome { transitioned: true, start_time: StartTimeUpdate::Now });
    assert_eq!(m.state(), State::ReflowPhasePreheat);
    assert_eq!(sh.phase_elapsed_steps, 0);
    assert_eq!(sh.reflow_parameters, ReflowParams::from_profile(ReflowProfiles::GC10));
    assert_eq!(sh.reflow_start_temp, 22);
    assert_eq!(sh.selected_element, SelectedUIElement::ReflowStop);
    sh.phase_elapsed_steps = 30;
    m.handle(&Event::ReflowPhasePreheatDone, &mut sh);
    assert_eq!((m.state(), sh.phase_elapsed_steps), (State::ReflowPhaseSoak, 0));
    sh.phase_elapsed_steps = 30;
    m.handle(&Event::ReflowPhaseSoakDone, &mut sh);
    assert_eq!((m.state(), sh.phase_elapsed_steps), (State::ReflowPhaseReflow, 0));
    m.handle(&Event::ReflowPhaseReflowDone, &mut sh);
    assert_eq!(m.state(), State::ReflowPhaseCool);
    m.handle(&Event::ReflowPhaseCoolDone, &mut sh);
    assert_eq!(m.state(), State::ReflowPhaseCompleted);
    assert_eq!(sh.selected_element, SelectedUIElement::ReflowCompleteConfirmation);
    let out = m.handle(&Event::ReflowCompleteConfirmed, &mut sh);
    assert_eq!(out, HandleOutcome { transitioned: true, start_time: StartTimeUpdate::Cleared });
    assert_eq!(m.state(), State::Reflow);
    assert_eq!(sh.selected_element, SelectedUIElement::ReflowStart);
}

#[test]
fn stop_aborts_a_run() {
    let mut m = HPRC::new();
    let mut sh = initial_shared();
    m.handle(&Event::ReflowSelected, &mut sh);
    m.handle(&Event::ReflowSelected, &mut sh);
    m.handle(&Event::ReflowStartSelected, &mut sh);
    m.handle(&Event::ReflowPhasePreheatDone, &mut sh);
    sh.phase_elapsed_steps = 12;
    let out = m.handle(&Event::ReflowStopSelected, &mut sh);
    assert_eq!(out, HandleOutcome { transitioned: true, start_time: StartTimeUpdate::Cleared });
    assert_eq!(m.state(), State::Reflow);
    assert_eq!(sh.phase_elapsed_steps, 0);
    assert_eq!(sh.selected_element, SelectedUIElement::ReflowStart);
}

#[test]
fn out_of_order_phase_events_are_dropped() {
    let mut m = HPRC::new();
    let mut sh = initial_shared();
    m.handle(&Event::ReflowSelected, &mut sh);
    m.handle(&Event::ReflowSelected, &mut sh);
    m.handle(&Event::ReflowStartSelected, &mut sh);
    sh.phase_elapsed_steps = 5;
    let before = sh;
    let out = m.handle(&Event::ReflowPhaseCoolDone, &mut sh);
    assert_eq!(out, HandleOutcome { transitioned: false, start_time: StartTimeUpdate::Unchanged });
    assert_eq!(m.state(), State::ReflowPhasePreheat);
    assert_eq!(sh, before);
    m.handle(&Event::TemperatureReading(100), &mut sh);
    m.handle(&Event::EncoderPressed, &mut sh);
    assert_eq!(m.state(), State::ReflowPhasePreheat);
    assert_eq!(sh, before);
}

#[test]
fn setpoint_screens() {
    let mut m = HPRC::new();
    let mut sh = initial_shared();
    sh.setpoint_temperature = 180;
    m.handle(&Event::SetpointSelected, &mut sh);
    assert_eq!(m.state(), State::Setpoint);
    assert_eq!(sh.setpoint_temperature, 20);
    assert_eq!(sh.selected_element, SelectedUIElement::SetpointTemperatureRollerInactive);
    m.handle(&Event::SetpointTemperatureRollerSelected, &mut sh);
    assert_eq!(m.state(), State::SetpointSelecting);
    assert_eq!(sh.selected_element, SelectedUIElement::SetpointTemperatureRollerActive);
    m.handle(&Event::SetpointTemperatureSet, &mut sh);
    assert_eq!(m.state(), State::SetpointRunning);
    m.handle(&Event::SetpointTemperatureRollerSelected, &mut sh);
    m.handle(&Event::SetpointTemperatureUnset, &mut sh);
    assert_eq!(m.state(), State::Setpoint);
    m.handle(&Event::SetpointMenuSelected, &mut sh);
    assert_eq!(m.state(), State::Menu);
    assert_eq!(sh.selected_element, SelectedUIElement::MenuReflow);
    m.handle(&Event::MeasureSelected, &mut sh);
    assert_eq!((m.state(), sh.selected_element), (State::Measure, SelectedUIElement::MeasureMenu));
    m.handle(&Event::MenuSelected, &mut sh);
    assert_eq!(m.state(), State::Menu);
}

#[test]
fn recoverable_fault_and_acknowledgement() {
    let mut m = HPRC::new();
    let mut sh = initial_shared();
    m.handle(&Event::MeasureSelected, &mut sh);
    let out = m.handle(&Event::Error(ErrorType::NoThermocouple), &mut sh);
    assert_eq!(out, moved());
    assert_eq!(m.state(), State::RecoverableError);
    assert_eq!(sh.current_error, ErrorType::NoThermocouple);
    assert_eq!(sh.selected_element, SelectedUIElement::RecoverableErrorConfirmation);
    // a second recoverable fault re-enters the screen and is recorded
    let out = m.handle(&Event::Error(ErrorType::Overtemp), &mut sh);
    assert_eq!(out, moved());
    assert_eq!(sh.current_error, ErrorType::Overtemp);
    // acknowledging returns to the menu but keeps the recorded code
    m.handle(&Event::Error(ErrorType::NoErrors), &mut sh);
    assert_eq!(m.state(), State::Menu);
    assert_eq!(sh.selected_element, SelectedUIElement::MenuReflow);
    assert_eq!(sh.current_error, ErrorType::Overtemp);
    // clearing from elsewhere also clears the record
    m.handle(&Event::Error(ErrorType::NoErrors), &mut sh);
    assert_eq!(sh.current_error, ErrorType::NoErrors);
}

#[test]
fn unrecoverable_fault_locks_out_the_user() {
    let mut m = HPRC::new();
    let mut sh = initial_shared();
    m.handle(&Event::SetpointSelected, &mut sh);
    m.handle(&Event::Error(ErrorType::NoDisplay), &mut sh);
    assert_eq!(m.state(), State::UnrecoverableError);
    assert_eq!(sh.current_error, ErrorType::NoDisplay);
    assert_eq!(sh.selected_element, SelectedUIElement::SetpointTemperatureRollerInactive);
    let before = sh;
    let out = m.handle(&Event::SetpointMenuSelected, &mut sh);
    assert!(!out.transitioned);
    m.handle(&Event::MenuSelected, &mut sh);
    assert_eq!(m.state(), State::UnrecoverableError);
    // neither an acknowledgement nor another fault leaves the state
    let out = m.handle(&Event::Error(ErrorType::NoErrors), &mut sh);
    assert!(!out.transitioned);
    m.handle(&Event::Error(ErrorType::NoThermocouple), &mut sh);
    m.handle(&Event::Error(ErrorType::Overcurrent), &mut sh);
    assert_eq!(m.state(), State::UnrecoverableError);
    assert_eq!(sh, before);
}

#[test]
fn reflow_start_records_plate_temperature() {
    let mut m = HPRC::new();
    let mut sh = initial_shared();
    m.handle(&Event::ReflowSelected, &mut sh);
    m.handle(&Event::ReflowSelected, &mut sh);
    sh.temperature = -3;
    m.handle(&Event::ReflowStartSelected, &mut sh);
    assert_eq!(sh.reflow_start_temp, 0);
    m.handle(&Event::ReflowStopSelected, &mut sh);
    sh.temperature = 103;
    m.handle(&Event::ReflowStartSelected, &mut sh);
    assert_eq!(sh.reflow_start_temp, 25);
    // other events leave the record alone
    sh.temperature = 400;
    m.handle(&Event::ReflowPhasePreheatDone, &mut sh);
    assert_eq!(sh.reflow_start_temp, 25);
}

fn press() -> EncoderReport {
    EncoderReport { pressed: true, direction: RotaryEncoderDirection::Stationary }
}

fn turn(d: RotaryEncoderDirection) -> EncoderReport {
    EncoderReport { pressed: false, direction: d }
}

#[test]
fn menu_cursor_cycles() {
    let s = State::Menu;
    let a = display_input(s, SelectedUIElement::MenuReflow, turn(CW), 20);
    assert_eq!(a.selected, SelectedUIElement::MenuSetpoint);
    assert_eq!(a.event, None);
    let b = display_input(s, a.selected, turn(CW), 20);
    assert_eq!(b.selected, SelectedUIElement::MenuMeasure);
    let c = display_input(s, b.selected, turn(CW), 20);
    assert_eq!(c.selected, SelectedUIElement::MenuReflow);
    let d = display_input(s, c.selected, turn(CCW), 20);
    assert_eq!(d.selected, SelectedUIElement::MenuMeasure);
    let e = display_input(s, d.selected, turn(Stationary), 20);
    assert_eq!(e.selected, SelectedUIElement::MenuMeasure);
    assert_eq!(RotaryEncoderDirection::default(), Stationary);
}

#[test]
fn setpoint_cursor_toggles_and_phases_do_not_move() {
    let a = display_input(State::Setpoint, SelectedUIElement::SetpointMenu, turn(CCW), 20);
    assert_eq!(a.selected, SelectedUIElement::SetpointTemperatureRollerInactive);
    let b = display_input(State::SetpointRunning, a.selected, turn(CW), 20);
    assert_eq!(b.selected, SelectedUIElement::SetpointMenu);
    let c = display_input(State::ReflowPhaseSoak, SelectedUIElement::ReflowStop, turn(CW), 20);
    assert_eq!(c.selected, SelectedUIElement::ReflowStop);
    let r = display_input(State::Reflow, SelectedUIElement::ReflowStart, turn(CCW), 20);
    assert_eq!(r.selected, SelectedUIElement::ReflowMenu);
    let p = display_input(State::ReflowProfileSelection, SelectedUIElement::ReflowProfileMenu, turn(CW), 20);
    assert_eq!(p.selected, SelectedUIElement::ReflowProfile1);
}

#[test]
fn presses_send_events() {
    let a = display_input(State::Menu, SelectedUIElement::MenuSetpoint, press(), 20);
    assert_eq!(a.event, Some(Event::SetpointSelected));
    assert_eq!(a.selected, SelectedUIElement::MenuSetpoint);
    let b = display_input(State::ReflowProfileSelection, SelectedUIElement::ReflowProfile2, press(), 20);
    assert_eq!(b.event, Some(Event::ReflowSelected));
    assert_eq!(b.chosen_profile, Some(ReflowProfiles::GC10));
    let c = display_input(State::ReflowProfileSelection, SelectedUIElement::ReflowProfile1, press(), 20);
    assert_eq!(c.chosen_profile, Some(ReflowProfiles::TS391SNL));
    let d = display_input(State::SetpointSelecting, SelectedUIElement::SetpointTemperatureRollerActive, press(), 20);
    assert_eq!(d.event, Some(Event::SetpointTemperatureSet));
    let e = display_input(State::SetpointSelecting, SelectedUIElement::SetpointTemperatureRollerActive, press(), 0);
    assert_eq!(e.event, Some(Event::SetpointTemperatureUnset));
    let f = display_input(State::RecoverableError, SelectedUIElement::RecoverableErrorConfirmation, press(), 0);
    assert_eq!(f.event, Some(Event::Error(ErrorType::NoErrors)));
    let g = display_input(State::UnrecoverableError, SelectedUIElement::NoneSelected, press(), 0);
    assert_eq!(g.event, None);
    let h = display_input(State::ReflowPhaseCool, SelectedUIElement::ReflowStop, press(), 0);
    assert_eq!(h.event, Some(Event::ReflowStopSelected));
}

#[test]
fn press_drives_machine_through_menus() {
    let mut m = HPRC::new();
    let mut sh = initial_shared();
    let step = display_input(m.state(), sh.selected_element, press(), sh.setpoint_temperature);
    m.handle(&step.event.unwrap(), &mut sh);
    assert_eq!(m.state(), State::ReflowProfileSelection);
    let step = display_input(m.state(), sh.selected_element, press(), sh.setpoint_temperature);
    if let Some(p) = step.chosen_profile {
        sh.selected_profile = p;
    }
    m.handle(&step.event.unwrap(), &mut sh);
    assert_eq!(m.state(), State::Reflow);
    assert_eq!(sh.selected_profile, ReflowProfiles::TS391SNL);
}

#[test]
fn knob_adjusts_setpoint_within_limits() {
    let up = on_turn(Some(Direction::Clockwise), 359, State::SetpointSelecting, 299);
    assert_eq!((up.position, up.setpoint_temperature), (0, 300));
    assert_eq!(up.report, Some(EncoderReport { pressed: false, direction: RotaryEncoderDirection::CW }));
    let stuck = on_turn(Some(Direction::Clockwise), 0, State::SetpointSelecting, 300);
    assert_eq!((stuck.position, stuck.setpoint_temperature, stuck.report), (1, 300, None));
    let down = on_turn(Some(Direction::CounterClockwise), 0, State::SetpointSelecting, 1);
    assert_eq!((down.position, down.setpoint_temperature), (359, 0));
    let floor = on_turn(Some(Direction::CounterClockwise), 5, State::SetpointSelecting, 0);
    assert_eq!((floor.position, floor.setpoint_temperature, floor.report), (4, 0, None));
    let other = on_turn(Some(Direction::Clockwise), 10, State::Menu, 50);
    assert_eq!((other.position, other.setpoint_temperature), (11, 50));
    let none = on_turn(None, 10, State::SetpointSelecting, 50);
    assert_eq!(none.report, Some(EncoderReport { pressed: false, direction: RotaryEncoderDirection::Stationary }));
    assert_eq!((none.position, none.setpoint_temperature), (10, 50));
}

#[test]
fn button_edges() {
    let (r, e) = on_button(false);
    assert!(r.pressed);
    assert_eq!(e, Event::EncoderPressed);
    let (r, _) = on_button(true);
    assert!(!r.pressed);
    assert_eq!(r.direction, RotaryEncoderDirection::Stationary);
}

#[test]
fn control_tick_decisions() {
    let p = ReflowProfiles::GC10;
    // preheat to 150 °C: done from 147 °C (588 quarter degrees) on
    assert_eq!(control_action(State::ReflowPhasePreheat, 587, p), ControlAction::FollowRamp(HeatingPhase::Preheat));
    assert_eq!(control_action(State::ReflowPhasePreheat, 588, p), ControlAction::PhaseDone(Event::ReflowPhasePreheatDone));
    assert_eq!(control_action(State::ReflowPhaseSoak, 787, p), ControlAction::FollowRamp(HeatingPhase::Soak));
    assert_eq!(control_action(State::ReflowPhaseSoak, 788, p), ControlAction::PhaseDone(Event::ReflowPhaseSoakDone));
    assert_eq!(control_action(State::ReflowPhaseReflow, 1003, p), ControlAction::FollowRamp(HeatingPhase::Reflow));
    assert_eq!(control_action(State::ReflowPhaseReflow, 1004, p), ControlAction::PhaseDone(Event::ReflowPhaseReflowDone));
    // cooling to 217 °C: done at 868 quarter degrees or below
    assert_eq!(control_action(State::ReflowPhaseCool, 869, p), ControlAction::Cooling);
    assert_eq!(control_action(State::ReflowPhaseCool, 868, p), ControlAction::PhaseDone(Event::ReflowPhaseCoolDone));
    assert_eq!(control_action(State::SetpointRunning, 0, p), ControlAction::RegulateSetpoint);
    assert_eq!(control_action(State::Menu, 4000, p), ControlAction::HeaterOff);
    assert_eq!(control_action(State::RecoverableError, 0, p), ControlAction::HeaterOff);
    // a plate below zero is far from done
    assert_eq!(control_action(State::ReflowPhasePreheat, -40, p), ControlAction::FollowRamp(HeatingPhase::Preheat));
    assert_eq!(control_action(State::ReflowPhaseCool, -40, p), ControlAction::PhaseDone(Event::ReflowPhaseCoolDone));
    // without a profile every heating phase is done at once
    assert_eq!(
        control_action(State::ReflowPhasePreheat, 0, ReflowProfiles::NoProfile),
        ControlAction::PhaseDone(Event::ReflowPhasePreheatDone)
    );
}
