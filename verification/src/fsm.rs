//! The controller's state machine: menu navigation, set-point regulation, the
//! phases of a reflow run, and fault handling. Every state shares the fault
//! handling of a common parent state: an event a state does not handle goes
//! to the parent, and an event the parent does not handle is dropped.
use vstd::prelude::*;
use crate::errors::{ErrorType, spec_is_recoverable, spec_is_unrecoverable};
use crate::reflow_profiles::{ReflowParams, ReflowProfiles, spec_params_of};
use crate::thermocouple::{spec_whole_degrees, whole_degrees};
use SelectedUIElement as U;

verus! {

/// The set-point temperature (°C) that entering the set-point screen starts from.
pub const SETPOINT_START_TEMPERATURE: u32 = 20;

/// The states of the controller.
#[derive(Clone, Copy, PartialEq, Eq, Structural, Debug)]
pub enum State {
    Menu,
    Setpoint,
    SetpointSelecting,
    SetpointRunning,
    ReflowProfileSelection,
    Reflow,
    ReflowPhasePreheat,
    ReflowPhaseSoak,
    ReflowPhaseReflow,
    ReflowPhaseCool,
    ReflowPhaseCompleted,
    Measure,
    RecoverableError,
    UnrecoverableError,
}

/// The events the controller reacts to. Temperatures are in quarter degrees
/// Celsius, currents in milliamperes.
#[derive(Clone, Copy, PartialEq, Eq, Structural, Debug)]
pub enum Event {
    EncoderPressed,
    SetpointSelected,
    SetpointTemperatureRollerSelected,
    SetpointMenuSelected,
    SetpointTemperatureSet,
    SetpointTemperatureUnset,
    ReflowSelected,
    ReflowStartSelected,
    ReflowStopSelected,
    ReflowProfileSelectorSelected,
    ReflowMenuSelected,
    ReflowPhasePreheatDone,
    ReflowPhaseSoakDone,
    ReflowPhaseReflowDone,
    ReflowPhaseCoolDone,
    ReflowCompleteConfirmed,
    MenuSelected,
    MeasureSelected,
    EncoderPositionReading(u16),
    TemperatureReading(i32),
    FanCurrentReading(u32),
    TransformerCurrentReading(u32),
    ControlTick,
    DisplayTick,
    Error(ErrorType),
}

/// The elements of the user interface that the cursor can stand on.
#[derive(Clone, Copy, PartialEq, Eq, Structural, Debug)]
pub enum SelectedUIElement {
    MenuReflow,
    MenuSetpoint,
    MenuMeasure,
    SetpointTemperatureRollerInactive,
    SetpointTemperatureRollerActive,
    SetpointMenu,
    ReflowProfile1,
    ReflowProfile2,
    ReflowProfile3,
    ReflowProfile4,
    ReflowProfile5,
    ReflowProfile6,
    ReflowProfileMenu,
    ReflowProfileSelectorMenu,
    ReflowStart,
    ReflowStop,
    ReflowMenu,
    ReflowCompleteConfirmation,
    MeasureMenu,
    RecoverableErrorConfirmation,
    NoneSelected,
}

/// The values the state machine shares with the rest of the controller.
#[derive(Clone, Copy, PartialEq, Eq, Structural, Debug)]
pub struct Shared {
    /// The element the display's cursor stands on.
    pub selected_element: SelectedUIElement,
    /// The set-point temperature in °C.
    pub setpoint_temperature: u32,
    /// The last fault reported.
    pub current_error: ErrorType,
    /// Control ticks spent in the current reflow phase.
    pub phase_elapsed_steps: u32,
    /// The profile chosen for reflow runs.
    pub selected_profile: ReflowProfiles,
    /// The ramps of the running reflow.
    pub reflow_parameters: ReflowParams,
    /// The latest plate temperature, in quarter degrees Celsius.
    pub temperature: i32,
    /// The plate temperature (whole °C) recorded when the running reflow
    /// started; the preheat ramp does not go below it.
    pub reflow_start_temp: u32,
}

/// What happens to the recorded start time of a reflow run.
#[derive(Clone, Copy, PartialEq, Eq, Structural, Debug)]
pub enum StartTimeUpdate {
    Unchanged,
    /// Record the current time as the start of the run.
    Now,
    /// Forget the start time (set it to the earliest instant).
    Cleared,
}

/// The effects of handling one event beyond the new state and shared values.
#[derive(Clone, Copy, PartialEq, Eq, Structural, Debug)]
pub struct HandleOutcome {
    /// A transition was taken (its target is to be published).
    pub transitioned: bool,
    pub start_time: StartTimeUpdate,
}

/// A transition to `target` with the cursor moved to `sel`.
pub open spec fn go(target: State, sh: Shared, sel: SelectedUIElement) -> (State, Shared, HandleOutcome) {
    (
        target,
        Shared { selected_element: sel, ..sh },
        HandleOutcome { transitioned: true, start_time: StartTimeUpdate::Unchanged },
    )
}

/// A transition between reflow phases: the phase's tick count restarts.
pub open spec fn go_phase(target: State, sh: Shared, sel: SelectedUIElement) -> (
    State,
    Shared,
    HandleOutcome,
) {
    (
        target,
        Shared { selected_element: sel, phase_elapsed_steps: 0, ..sh },
        HandleOutcome { transitioned: true, start_time: StartTimeUpdate::Unchanged },
    )
}

/// Leaving a reflow run for the reflow screen: tick count and start time are reset.
pub open spec fn stop_run(sh: Shared) -> (State, Shared, HandleOutcome) {
    (
        State::Reflow,
        Shared {
            selected_element: SelectedUIElement::ReflowStart,
            phase_elapsed_steps: 0,
            ..sh
        },
        HandleOutcome { transitioned: true, start_time: StartTimeUpdate::Cleared },
    )
}

/// The event is dropped: nothing changes.
pub open spec fn ignored(s: State, sh: Shared) -> (State, Shared, HandleOutcome) {
    (s, sh, HandleOutcome { transitioned: false, start_time: StartTimeUpdate::Unchanged })
}

/// The fault handling every state shares: the fault is recorded; an
/// unrecoverable one stops the controller, a recoverable one asks for
/// acknowledgement, and `NoErrors` returns to the menu.
pub open spec fn on_error(e: ErrorType, sh: Shared) -> (State, Shared, HandleOutcome) {
    let recorded = Shared { current_error: e, ..sh };
    if spec_is_unrecoverable(e) {
        (
            State::UnrecoverableError,
            recorded,
            HandleOutcome { transitioned: true, start_time: StartTimeUpdate::Unchanged },
        )
    } else if spec_is_recoverable(e) {
        go(State::RecoverableError, recorded, SelectedUIElement::RecoverableErrorConfirmation)
    } else {
        go(State::Menu, recorded, SelectedUIElement::MenuReflow)
    }
}

/// The state machine: the state, shared values and effects after `e`.
pub open spec fn machine_step(s: State, sh: Shared, e: Event) -> (State, Shared, HandleOutcome) {
    match (s, e) {
        (State::UnrecoverableError, _) => ignored(s, sh),
        (State::RecoverableError, Event::Error(ErrorType::NoErrors)) => go(State::Menu, sh, U::MenuReflow),
        (_, Event::Error(err)) => on_error(err, sh),
        (State::Menu, Event::ReflowSelected) => go(State::ReflowProfileSelection, sh, U::ReflowProfile1),
        (State::Menu, Event::SetpointSelected) => go(
            State::Setpoint,
            Shared { setpoint_temperature: SETPOINT_START_TEMPERATURE, ..sh },
            U::SetpointTemperatureRollerInactive,
        ),
        (State::Menu, Event::MeasureSelected) => go(State::Measure, sh, U::MeasureMenu),
        (State::Setpoint, Event::SetpointMenuSelected) => go(State::Menu, sh, U::MenuReflow),
        (State::Setpoint, Event::SetpointTemperatureRollerSelected) => go(
            State::SetpointSelecting,
            sh,
            U::SetpointTemperatureRollerActive,
        ),
        (State::SetpointSelecting, Event::SetpointTemperatureSet) => go(
            State::SetpointRunning,
            sh,
            U::SetpointTemperatureRollerInactive,
        ),
        (State::SetpointSelecting, Event::SetpointTemperatureUnset) => go(
            State::Setpoint,
            sh,
            U::SetpointTemperatureRollerInactive,
        ),
        (State::SetpointRunning, Event::SetpointMenuSelected) => go(State::Menu, sh, U::MenuReflow),
        (State::SetpointRunning, Event::SetpointTemperatureRollerSelected) => go(
            State::SetpointSelecting,
            sh,
            U::SetpointTemperatureRollerActive,
        ),
        (State::ReflowProfileSelection, Event::MenuSelected) => go(State::Menu, sh, U::MenuReflow),
        (State::ReflowProfileSelection, Event::ReflowSelected) => go(State::Reflow, sh, U::ReflowStart),
        (State::Reflow, Event::ReflowStartSelected) => (
            State::ReflowPhasePreheat,
            Shared {
                selected_element: U::ReflowStop,
                phase_elapsed_steps: 0,
                reflow_parameters: spec_params_of(sh.selected_profile),
                reflow_start_temp: spec_whole_degrees(sh.temperature),
                ..sh
            },
            HandleOutcome { transitioned: true, start_time: StartTimeUpdate::Now },
        ),
        (State::Reflow, Event::ReflowProfileSelectorSelected) => go(
            State::ReflowProfileSelection,
            sh,
            U::ReflowProfile1,
        ),
        (State::Reflow, Event::ReflowMenuSelected) => go(State::Menu, sh, U::MenuReflow),
        (State::ReflowPhasePreheat, Event::ReflowStopSelected) => stop_run(sh),
        (State::ReflowPhasePreheat, Event::ReflowPhasePreheatDone) => go_phase(
            State::ReflowPhaseSoak,
            sh,
            U::ReflowStop,
        ),
        (State::ReflowPhaseSoak, Event::ReflowStopSelected) => stop_run(sh),
        (State::ReflowPhaseSoak, Event::ReflowPhaseSoakDone) => go_phase(
            State::ReflowPhaseReflow,
            sh,
            U::ReflowStop,
        ),
        (State::ReflowPhaseReflow, Event::ReflowStopSelected) => stop_run(sh),
        (State::ReflowPhaseReflow, Event::ReflowPhaseReflowDone) => go_phase(
            State::ReflowPhaseCool,
            sh,
            U::ReflowStop,
        ),
        (State::ReflowPhaseCool, Event::ReflowStopSelected) => stop_run(sh),
        (State::ReflowPhaseCool, Event::ReflowPhaseCoolDone) => go_phase(
            State::ReflowPhaseCompleted,
            sh,
            U::ReflowCompleteConfirmation,
        ),
        (State::ReflowPhaseCompleted, Event::ReflowCompleteConfirmed) => stop_run(sh),
        (State::Measure, Event::MenuSelected) => go(State::Menu, sh, U::MenuReflow),
        _ => ignored(s, sh),
    }
}

/// What the parent state does with an event a state leaves to it.
pub open spec fn parent_step(s: State, sh: Shared, e: Event) -> (State, Shared, HandleOutcome) {
    match e {
        Event::Error(err) => on_error(err, sh),
        _ => ignored(s, sh),
    }
}

/// What a state's own handler decides.
enum Outcome {
    Handled,
    Super,
    Transition(State),
}

/// A state handler for `s` agrees with the state machine: a transition it
/// takes is the machine's, and an event it passes on is one the machine
/// leaves to the parent state.
spec fn handler_agrees(
    s: State,
    e: Event,
    before: Shared,
    after: Shared,
    o: Outcome,
    st: StartTimeUpdate,
) -> bool {
    match o {
        Outcome::Transition(t) => machine_step(s, before, e) == (
            t,
            after,
            HandleOutcome { transitioned: true, start_time: st },
        ),
        Outcome::Super => after == before && st == StartTimeUpdate::Unchanged && machine_step(
            s,
            before,
            e,
        ) == parent_step(s, before, e),
        Outcome::Handled => after == before && st == StartTimeUpdate::Unchanged && machine_step(
            s,
            before,
            e,
        ) == ignored(s, before),
    }
}

/// The parent of every state: fault handling.
fn issue(event: &Event, shared: &mut Shared) -> (o: Outcome)
    ensures
        match *event {
            Event::Error(e) => {
                let (t, sh, _) = on_error(e, *old(shared));
                o == Outcome::Transition(t) && *final(shared) == sh
            },
            _ => o == Outcome::Super && *final(shared) == *old(shared),
        },
{
    match event {
        Event::Error(error) => {
            let error = *error;
            if error.is_unrecoverable() {
                shared.current_error = error;
                Outcome::Transition(State::UnrecoverableError)
            } else if error.is_recoverable() {
                shared.current_error = error;
                shared.selected_element = SelectedUIElement::RecoverableErrorConfirmation;
                Outcome::Transition(State::RecoverableError)
            } else {
                shared.current_error = error;
                shared.selected_element = SelectedUIElement::MenuReflow;
                Outcome::Transition(State::Menu)
            }
        },
        _ => Outcome::Super,
    }
}

fn recoverable_error(event: &Event, shared: &mut Shared) -> (r: (Outcome, StartTimeUpdate))
    ensures
        handler_agrees(State::RecoverableError, *event, *old(shared), *final(shared), r.0, r.1),
{
    match event {
        Event::Error(ErrorType::NoErrors) => {
            shared.selected_element = SelectedUIElement::MenuReflow;
            (Outcome::Transition(State::Menu), StartTimeUpdate::Unchanged)
        },
        _ => (Outcome::Super, StartTimeUpdate::Unchanged),
    }
}

/// An unrecoverable fault: no transition is possible, every event is
/// consumed here.
fn unrecoverable_error(event: &Event, shared: &mut Shared) -> (r: (Outcome, StartTimeUpdate))
    ensures
        handler_agrees(State::UnrecoverableError, *event, *old(shared), *final(shared), r.0, r.1),
{
    (Outcome::Handled, StartTimeUpdate::Unchanged)
}

fn menu(event: &Event, shared: &mut Shared) -> (r: (Outcome, StartTimeUpdate))
    ensures
        handler_agrees(State::Menu, *event, *old(shared), *final(shared), r.0, r.1),
{
    match event {
        Event::ReflowSelected => {
            shared.selected_element = SelectedUIElement::ReflowProfile1;
            (Outcome::Transition(State::ReflowProfileSelection), StartTimeUpdate::Unchanged)
        },
        Event::SetpointSelected => {
            shared.selected_element = SelectedUIElement::SetpointTemperatureRollerInactive;
            shared.setpoint_temperature = SETPOINT_START_TEMPERATURE;
            (Outcome::Transition(State::Setpoint), StartTimeUpdate::Unchanged)
        },
        Event::MeasureSelected => {
            shared.selected_element = SelectedUIElement::MeasureMenu;
            (Outcome::Transition(State::Measure), StartTimeUpdate::Unchanged)
        },
        _ => (Outcome::Super, StartTimeUpdate::Unchanged),
    }
}

fn setpoint(event: &Event, shared: &mut Shared) -> (r: (Outcome, StartTimeUpdate))
    ensures
        handler_agrees(State::Setpoint, *event, *old(shared), *final(shared), r.0, r.1),
{
    match event {
        Event::SetpointMenuSelected => {
            shared.selected_element = SelectedUIElement::MenuReflow;
            (Outcome::Transition(State::Menu), StartTimeUpdate::Unchanged)
        },
        Event::SetpointTemperatureRollerSelected => {
            shared.selected_element = SelectedUIElement::SetpointTemperatureRollerActive;
            (Outcome::Transition(State::SetpointSelecting), StartTimeUpdate::Unchanged)
        },
        _ => (Outcome::Super, StartTimeUpdate::Unchanged),
    }
}

fn setpoint_selecting(event: &Event, shared: &mut Shared) -> (r: (Outcome, StartTimeUpdate))
    ensures
        handler_agrees(State::SetpointSelecting, *event, *old(shared), *final(shared), r.0, r.1),
{
    match event {
        Event::SetpointTemperatureSet => {
            shared.selected_element = SelectedUIElement::SetpointTemperatureRollerInactive;
            (Outcome::Transition(State::SetpointRunning), StartTimeUpdate::Unchanged)
        },
        Event::SetpointTemperatureUnset => {
            shared.selected_element = SelectedUIElement::SetpointTemperatureRollerInactive;
            (Outcome::Transition(State::Setpoint), StartTimeUpdate::Unchanged)
        },
        _ => (Outcome::Super, StartTimeUpdate::Unchanged),
    }
}

fn setpoint_running(event: &Event, shared: &mut Shared) -> (r: (Outcome, StartTimeUpdate))
    ensures
        handler_agrees(State::SetpointRunning, *event, *old(shared), *final(shared), r.0, r.1),
{
    match event {
        Event::SetpointMenuSelected => {
            shared.selected_element = SelectedUIElement::MenuReflow;
            (Outcome::Transition(State::Menu), StartTimeUpdate::Unchanged)
        },
        Event::SetpointTemperatureRollerSelected => {
            shared.selected_element = SelectedUIElement::SetpointTemperatureRollerActive;
            (Outcome::Transition(State::SetpointSelecting), StartTimeUpdate::Unchanged)
        },
        _ => (Outcome::Super, StartTimeUpdate::Unchanged),
    }
}

fn reflow_profile_selection(event: &Event, shared: &mut Shared) -> (r: (Outcome, StartTimeUpdate))
    ensures
        handler_agrees(State::ReflowProfileSelection, *event, *old(shared), *final(shared), r.0, r.1),
{
    match event {
        Event::MenuSelected => {
            shared.selected_element = SelectedUIElement::MenuReflow;
            (Outcome::Transition(State::Menu), StartTimeUpdate::Unchanged)
        },
        Event::ReflowSelected => {
            shared.selected_element = SelectedUIElement::ReflowStart;
            (Outcome::Transition(State::Reflow), StartTimeUpdate::Unchanged)
        },
        _ => (Outcome::Super, StartTimeUpdate::Unchanged),
    }
}

fn reflow(event: &Event, shared: &mut Shared) -> (r: (Outcome, StartTimeUpdate))
    ensures
        handler_agrees(State::Reflow, *event, *old(shared), *final(shared), r.0, r.1),
{
    match event {
        Event::ReflowStartSelected => {
            shared.reflow_parameters = ReflowParams::from_profile(shared.selected_profile);
            shared.reflow_start_temp = whole_degrees(shared.temperature);
            shared.phase_elapsed_steps = 0;
            shared.selected_element = SelectedUIElement::ReflowStop;
            (Outcome::Transition(State::ReflowPhasePreheat), StartTimeUpdate::Now)
        },
        Event::ReflowProfileSelectorSelected => {
            shared.selected_element = SelectedUIElement::ReflowProfile1;
            (Outcome::Transition(State::ReflowProfileSelection), StartTimeUpdate::Unchanged)
        },
        Event::ReflowMenuSelected => {
            shared.selected_element = SelectedUIElement::MenuReflow;
            (Outcome::Transition(State::Menu), StartTimeUpdate::Unchanged)
        },
        _ => (Outcome::Super, StartTimeUpdate::Unchanged),
    }
}

/// Stopping a running reflow: back to the reflow screen.
fn stop_reflow_run(shared: &mut Shared) -> (r: (Outcome, StartTimeUpdate))
    ensures
        (State::Reflow, *final(shared), HandleOutcome { transitioned: true, start_time: r.1 })
            == stop_run(*old(shared)),
        r.0 == Outcome::Transition(State::Reflow),
{
    shared.phase_elapsed_steps = 0;
    shared.selected_element = SelectedUIElement::ReflowStart;
    (Outcome::Transition(State::Reflow), StartTimeUpdate::Cleared)
}

fn reflow_phase_preheat(event: &Event, shared: &mut Shared) -> (r: (Outcome, StartTimeUpdate))
    ensures
        handler_agrees(State::ReflowPhasePreheat, *event, *old(shared), *final(shared), r.0, r.1),
{
    match event {
        Event::ReflowStopSelected => stop_reflow_run(shared),
        Event::ReflowPhasePreheatDone => {
            shared.phase_elapsed_steps = 0;
            shared.selected_element = SelectedUIElement::ReflowStop;
            (Outcome::Transition(State::ReflowPhaseSoak), StartTimeUpdate::Unchanged)
        },
        _ => (Outcome::Super, StartTimeUpdate::Unchanged),
    }
}

fn reflow_phase_soak(event: &Event, shared: &mut Shared) -> (r: (Outcome, StartTimeUpdate))
    ensures
        handler_agrees(State::ReflowPhaseSoak, *event, *old(shared), *final(shared), r.0, r.1),
{
    match event {
        Event::ReflowStopSelected => stop_reflow_run(shared),
        Event::ReflowPhaseSoakDone => {
            shared.phase_elapsed_steps = 0;
            shared.selected_element = SelectedUIElement::ReflowStop;
            (Outcome::Transition(State::ReflowPhaseReflow), StartTimeUpdate::Unchanged)
        },
        _ => (Outcome::Super, StartTimeUpdate::Unchanged),
    }
}

fn reflow_phase_reflow(event: &Event, shared: &mut Shared) -> (r: (Outcome, StartTimeUpdate))
    ensures
        handler_agrees(State::ReflowPhaseReflow, *event, *old(shared), *final(shared), r.0, r.1),
{
    match event {
        Event::ReflowStopSelected => stop_reflow_run(shared),
        Event::ReflowPhaseReflowDone => {
            shared.phase_elapsed_steps = 0;
            shared.selected_element = SelectedUIElement::ReflowStop;
            (Outcome::Transition(State::ReflowPhaseCool), StartTimeUpdate::Unchanged)
        },
        _ => (Outcome::Super, StartTimeUpdate::Unchanged),
    }
}

fn reflow_phase_cool(event: &Event, shared: &mut Shared) -> (r: (Outcome, StartTimeUpdate))
    ensures
        handler_agrees(State::ReflowPhaseCool, *event, *old(shared), *final(shared), r.0, r.1),
{
    match event {
        Event::ReflowStopSelected => stop_reflow_run(shared),
        Event::ReflowPhaseCoolDone => {
            shared.phase_elapsed_steps = 0;
            shared.selected_element = SelectedUIElement::ReflowCompleteConfirmation;
            (Outcome::Transition(State::ReflowPhaseCompleted), StartTimeUpdate::Unchanged)
        },
        _ => (Outcome::Super, StartTimeUpdate::Unchanged),
    }
}

fn reflow_phase_completed(event: &Event, shared: &mut Shared) -> (r: (Outcome, StartTimeUpdate))
    ensures
        handler_agrees(State::ReflowPhaseCompleted, *event, *old(shared), *final(shared), r.0, r.1),
{
    match event {
        Event::ReflowCompleteConfirmed => stop_reflow_run(shared),
        _ => (Outcome::Super, StartTimeUpdate::Unchanged),
    }
}

fn measure(event: &Event, shared: &mut Shared) -> (r: (Outcome, StartTimeUpdate))
    ensures
        handler_agrees(State::Measure, *event, *old(shared), *final(shared), r.0, r.1),
{
    match event {
        Event::MenuSelected => {
            shared.selected_element = SelectedUIElement::MenuReflow;
            (Outcome::Transition(State::Menu), StartTimeUpdate::Unchanged)
        },
        _ => (Outcome::Super, StartTimeUpdate::Unchanged),
    }
}

/// The controller's state machine.
pub struct HPRC {
    state: State,
}

impl View for HPRC {
    type V = State;

    closed spec fn view(&self) -> State {
        self.state
    }
}

impl HPRC {
    /// A machine in its initial state, the menu.
    pub fn new() -> (m: HPRC)
        ensures
            m@ == State::Menu,
    {
        HPRC { state: State::Menu }
    }

    /// The current state.
    pub fn state(&self) -> (s: State)
        ensures
            s == self@,
    {
        self.state
    }

    /// Handles one event: the state's own handler first, then the shared
    /// fault handling for what the state leaves to its parent.
    pub fn handle(&mut self, event: &Event, shared: &mut Shared) -> (out: HandleOutcome)
        ensures
            (final(self)@, *final(shared), out) == machine_step(old(self)@, *old(shared), *event),
            old(self)@ == State::UnrecoverableError ==> final(self)@ == State::UnrecoverableError
                && *final(shared) == *old(shared) && !out.transitioned,
    {
        let (own, start_time) = match self.state {
            State::RecoverableError => recoverable_error(event, shared),
            State::UnrecoverableError => unrecoverable_error(event, shared),
            State::Menu => menu(event, shared),
            State::Setpoint => setpoint(event, shared),
            State::SetpointSelecting => setpoint_selecting(event, shared),
            State::SetpointRunning => setpoint_running(event, shared),
            State::ReflowProfileSelection => reflow_profile_selection(event, shared),
            State::Reflow => reflow(event, shared),
            State::ReflowPhasePreheat => reflow_phase_preheat(event, shared),
            State::ReflowPhaseSoak => reflow_phase_soak(event, shared),
            State::ReflowPhaseReflow => reflow_phase_reflow(event, shared),
            State::ReflowPhaseCool => reflow_phase_cool(event, shared),
            State::ReflowPhaseCompleted => reflow_phase_completed(event, shared),
            State::Measure => measure(event, shared),
        };
        let outcome = match own {
            Outcome::Super => issue(event, shared),
            other => other,
        };
        match outcome {
            Outcome::Transition(target) => {
                self.state = target;
                HandleOutcome { transitioned: true, start_time }
            },
            _ => HandleOutcome { transitioned: false, start_time },
        }
    }
}

/// The cursor positions the display offers in each state.
pub open spec fn valid_selection(s: State, sel: SelectedUIElement) -> bool {
    match s {
        State::Menu => sel == U::MenuReflow || sel == U::MenuSetpoint || sel == U::MenuMeasure,
        State::Setpoint | State::SetpointRunning => sel == U::SetpointTemperatureRollerInactive
            || sel == U::SetpointMenu,
        State::SetpointSelecting => sel == U::SetpointTemperatureRollerActive,
        State::ReflowProfileSelection => sel == U::ReflowProfile1 || sel == U::ReflowProfile2
            || sel == U::ReflowProfileMenu,
        State::Reflow => sel == U::ReflowStart || sel == U::ReflowProfileSelectorMenu || sel
            == U::ReflowMenu,
        State::ReflowPhasePreheat
        | State::ReflowPhaseSoak
        | State::ReflowPhaseReflow
        | State::ReflowPhaseCool => sel == U::ReflowStop,
        State::ReflowPhaseCompleted => sel == U::ReflowCompleteConfirmation,
        State::Measure => sel == U::MeasureMenu,
        State::RecoverableError => sel == U::RecoverableErrorConfirmation,
        State::UnrecoverableError => true,
    }
}

/// Whether the screen of state `s` offers the element `sel`.
pub fn selection_is_valid(s: State, sel: SelectedUIElement) -> (b: bool)
    ensures
        b == valid_selection(s, sel),
{
    match s {
        State::Menu => sel == U::MenuReflow || sel == U::MenuSetpoint || sel == U::MenuMeasure,
        State::Setpoint | State::SetpointRunning => sel == U::SetpointTemperatureRollerInactive
            || sel == U::SetpointMenu,
        State::SetpointSelecting => sel == U::SetpointTemperatureRollerActive,
        State::ReflowProfileSelection => sel == U::ReflowProfile1 || sel == U::ReflowProfile2
            || sel == U::ReflowProfileMenu,
        State::Reflow => sel == U::ReflowStart || sel == U::ReflowProfileSelectorMenu || sel
            == U::ReflowMenu,
        State::ReflowPhasePreheat
        | State::ReflowPhaseSoak
        | State::ReflowPhaseReflow
        | State::ReflowPhaseCool => sel == U::ReflowStop,
        State::ReflowPhaseCompleted => sel == U::ReflowCompleteConfirmation,
        State::Measure => sel == U::MeasureMenu,
        State::RecoverableError => sel == U::RecoverableErrorConfirmation,
        State::UnrecoverableError => true,
    }
}

/// Every event keeps the cursor on an element that the new state's screen
/// offers, so the display never meets a selection it cannot draw.
pub proof fn lemma_step_keeps_selection_valid(s: State, sh: Shared, e: Event)
    requires
        valid_selection(s, sh.selected_element),
    ensures
        ({
            let (t, sh2, _) = machine_step(s, sh, e);
            valid_selection(t, sh2.selected_element)
        }),
{
}

/// The initial configuration (menu, cursor on "Reflow") is consistent.
pub proof fn lemma_initial_selection_valid()
    ensures
        valid_selection(State::Menu, SelectedUIElement::MenuReflow),
{
}

/// An unrecoverable fault, in any state but the unrecoverable one, is
/// recorded and stops the controller.
pub proof fn lemma_unrecoverable_fault_stops(s: State, sh: Shared, e: ErrorType)
    requires
        spec_is_unrecoverable(e),
        s != State::UnrecoverableError,
    ensures
        machine_step(s, sh, Event::Error(e)) == (
            State::UnrecoverableError,
            Shared { current_error: e, ..sh },
            HandleOutcome { transitioned: true, start_time: StartTimeUpdate::Unchanged },
        ),
{
}

/// A recoverable fault, in any state but the unrecoverable one, is recorded
/// and asks for acknowledgement.
pub proof fn lemma_recoverable_fault_asks_acknowledgement(s: State, sh: Shared, e: ErrorType)
    requires
        spec_is_recoverable(e),
        s != State::UnrecoverableError,
    ensures
        machine_step(s, sh, Event::Error(e)) == (
            State::RecoverableError,
            Shared {
                current_error: e,
                selected_element: SelectedUIElement::RecoverableErrorConfirmation,
                ..sh
            },
            HandleOutcome { transitioned: true, start_time: StartTimeUpdate::Unchanged },
        ),
{
}

/// Clearing the fault returns to the menu from any state but the
/// unrecoverable one. Only the acknowledgement screen keeps the recorded
/// fault; everywhere else the record is cleared.
pub proof fn lemma_clearing_returns_to_menu(s: State, sh: Shared)
    requires
        s != State::UnrecoverableError,
    ensures
        ({
            let (t, sh2, out) = machine_step(s, sh, Event::Error(ErrorType::NoErrors));
            &&& t == State::Menu
            &&& sh2.selected_element == SelectedUIElement::MenuReflow
            &&& out.transitioned
            &&& sh2.current_error == (if s == State::RecoverableError {
                sh.current_error
            } else {
                ErrorType::NoErrors
            })
            &&& sh2.setpoint_temperature == sh.setpoint_temperature
            &&& sh2.phase_elapsed_steps == sh.phase_elapsed_steps
        }),
{
}

/// The unrecoverable state is never left: every event, fault reports and
/// acknowledgements included, is dropped there.
pub proof fn lemma_unrecoverable_is_final(sh: Shared, e: Event)
    ensures
        machine_step(State::UnrecoverableError, sh, e) == ignored(State::UnrecoverableError, sh),
{
}

/// A reflow run goes through its phases in order (preheat, soak, reflow,
/// cool, completed), each phase starting with a fresh tick count; starting a
/// run takes the ramps of the selected profile and records the plate's
/// temperature.
pub proof fn lemma_reflow_phase_order(sh: Shared)
    ensures
        machine_step(State::Reflow, sh, Event::ReflowStartSelected).0 == State::ReflowPhasePreheat,
        machine_step(State::Reflow, sh, Event::ReflowStartSelected).1.phase_elapsed_steps == 0,
        machine_step(State::Reflow, sh, Event::ReflowStartSelected).1.reflow_parameters
            == spec_params_of(sh.selected_profile),
        machine_step(State::Reflow, sh, Event::ReflowStartSelected).2.start_time
            == StartTimeUpdate::Now,
        machine_step(State::Reflow, sh, Event::ReflowStartSelected).1.reflow_start_temp
            == spec_whole_degrees(sh.temperature),
        machine_step(State::ReflowPhasePreheat, sh, Event::ReflowPhasePreheatDone).0
            == State::ReflowPhaseSoak,
        machine_step(State::ReflowPhaseSoak, sh, Event::ReflowPhaseSoakDone).0
            == State::ReflowPhaseReflow,
        machine_step(State::ReflowPhaseReflow, sh, Event::ReflowPhaseReflowDone).0
            == State::ReflowPhaseCool,
        machine_step(State::ReflowPhaseCool, sh, Event::ReflowPhaseCoolDone).0
            == State::ReflowPhaseCompleted,
        machine_step(State::ReflowPhasePreheat, sh, Event::ReflowPhasePreheatDone).1.phase_elapsed_steps == 0,
        machine_step(State::ReflowPhaseSoak, sh, Event::ReflowPhaseSoakDone).1.phase_elapsed_steps == 0,
        machine_step(State::ReflowPhaseReflow, sh, Event::ReflowPhaseReflowDone).1.phase_elapsed_steps == 0,
        machine_step(State::ReflowPhaseCool, sh, Event::ReflowPhaseCoolDone).1.phase_elapsed_steps == 0,
{
}

/// A state of a running reflow (one of its four phases).
pub open spec fn is_running_phase(s: State) -> bool {
    s == State::ReflowPhasePreheat || s == State::ReflowPhaseSoak || s == State::ReflowPhaseReflow
        || s == State::ReflowPhaseCool
}

/// Stopping a running reflow, in any phase, returns to the reflow screen with
/// the tick count and start time reset.
pub proof fn lemma_stop_aborts_run(s: State, sh: Shared)
    requires
        is_running_phase(s),
    ensures
        machine_step(s, sh, Event::ReflowStopSelected) == stop_run(sh),
{
}

/// A phase is only ever left for the next one, or by a stop, or by a fault
/// report; a phase-done event of another phase is dropped.
pub proof fn lemma_phase_exits(s: State, sh: Shared, e: Event)
    requires
        is_running_phase(s),
        machine_step(s, sh, e).0 != s,
    ensures
        e == Event::ReflowStopSelected || e is Error || (s == State::ReflowPhasePreheat && e
            == Event::ReflowPhasePreheatDone) || (s == State::ReflowPhaseSoak && e
            == Event::ReflowPhaseSoakDone) || (s == State::ReflowPhaseReflow && e
            == Event::ReflowPhaseReflowDone) || (s == State::ReflowPhaseCool && e
            == Event::ReflowPhaseCoolDone),
{
}

/// Only entering the set-point screen from the menu changes the set-point
/// temperature, and it then starts from 20 °C.
pub proof fn lemma_setpoint_changes_only_on_entry(s: State, sh: Shared, e: Event)
    ensures
        machine_step(s, sh, e).1.setpoint_temperature == (if s == State::Menu && e
            == Event::SetpointSelected {
            SETPOINT_START_TEMPERATURE
        } else {
            sh.setpoint_temperature
        }),
{
}

/// The profile choice is never changed by the state machine.
pub proof fn lemma_profile_untouched(s: State, sh: Shared, e: Event)
    ensures
        machine_step(s, sh, e).1.selected_profile == sh.selected_profile,
{
}

/// The plate's start temperature is recorded when a reflow run starts, and
/// only then; the temperature reading itself is never changed by the state
/// machine.
pub proof fn lemma_start_temperature_recorded_at_start(s: State, sh: Shared, e: Event)
    ensures
        machine_step(s, sh, e).1.reflow_start_temp == (if s == State::Reflow && e
            == Event::ReflowStartSelected {
            spec_whole_degrees(sh.temperature)
        } else {
            sh.reflow_start_temp
        }),
        machine_step(s, sh, e).1.temperature == sh.temperature,
{
}

/// The events of the "Menu" entries of the screens.
pub open spec fn is_menu_event(e: Event) -> bool {
    e == Event::MenuSelected || e == Event::SetpointMenuSelected || e == Event::ReflowMenuSelected
}

/// A "Menu" event that a screen handles always leads to the menu, with the
/// cursor on its first entry and nothing else changed; the set-point
/// screens, the profile list, the reflow screen and the measurement screen
/// all handle their own.
pub proof fn lemma_menu_events_lead_to_menu(s: State, sh: Shared, e: Event)
    requires
        is_menu_event(e),
    ensures
        machine_step(s, sh, e).2.transitioned ==> machine_step(s, sh, e) == (
            State::Menu,
            Shared { selected_element: SelectedUIElement::MenuReflow, ..sh },
            HandleOutcome { transitioned: true, start_time: StartTimeUpdate::Unchanged },
        ),
        (s == State::Setpoint || s == State::SetpointRunning) && e == Event::SetpointMenuSelected
            ==> machine_step(s, sh, e).2.transitioned,
        (s == State::ReflowProfileSelection || s == State::Measure) && e == Event::MenuSelected
            ==> machine_step(s, sh, e).2.transitioned,
        s == State::Reflow && e == Event::ReflowMenuSelected ==> machine_step(s, sh, e).2.transitioned,
{
}

} // verus!
