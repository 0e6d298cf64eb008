//! The user interface logic: what a press of the encoder button asks of the
//! state machine on each screen, and how turning the encoder moves the cursor.
use vstd::prelude::*;
use crate::fsm::{Event, SelectedUIElement, Shared, State, machine_step, valid_selection};
use crate::fsm::is_menu_event;
use crate::errors::ErrorType;
use crate::reflow_profiles::ReflowProfiles;
use SelectedUIElement as U;

verus! {

/// The lowest set-point temperature (°C).
pub const MIN_TEMP: u32 = 0;

/// The highest set-point temperature (°C).
pub const MAX_TEMP: u32 = 300;

/// The way the encoder was turned since its last report.
#[derive(Clone, Copy, Debug, PartialEq, Eq, Structural)]
pub enum RotaryEncoderDirection {
    CW,
    CCW,
    Stationary,
}

impl Default for RotaryEncoderDirection {
    fn default() -> (d: Self)
        ensures
            d == RotaryEncoderDirection::Stationary,
    {
        RotaryEncoderDirection::Stationary
    }
}

/// One report of the encoder: the button state and the turn direction.
#[derive(Clone, Copy, Debug, PartialEq, Eq, Structural)]
pub struct EncoderReport {
    pub pressed: bool,
    pub direction: RotaryEncoderDirection,
}

/// What the display does with one encoder report.
#[derive(Clone, Copy, Debug, PartialEq, Eq, Structural)]
pub struct DisplayStep {
    /// The event to send to the state machine.
    pub event: Option<Event>,
    /// The cursor position afterwards.
    pub selected: SelectedUIElement,
    /// A reflow profile chosen by the press.
    pub chosen_profile: Option<ReflowProfiles>,
}

/// The elements the cursor cycles through on a screen, in clockwise order;
/// empty where turning the encoder does not move the cursor.
pub open spec fn cursor_ring(s: State) -> Seq<SelectedUIElement> {
    match s {
        State::Menu => seq![U::MenuReflow, U::MenuSetpoint, U::MenuMeasure],
        State::Reflow => seq![U::ReflowStart, U::ReflowProfileSelectorMenu, U::ReflowMenu],
        State::ReflowProfileSelection => seq![U::ReflowProfile1, U::ReflowProfile2, U::ReflowProfileMenu],
        State::Setpoint | State::SetpointRunning => seq![
            U::SetpointTemperatureRollerInactive,
            U::SetpointMenu,
        ],
        _ => seq![],
    }
}

/// The cursor after a turn: one element on, clockwise or counter-clockwise,
/// wrapping around the screen's ring.
pub open spec fn moved_cursor(s: State, sel: SelectedUIElement, dir: RotaryEncoderDirection) -> SelectedUIElement {
    let ring = cursor_ring(s);
    let n = ring.len() as int;
    let i = ring.index_of(sel);
    if n == 0 {
        sel
    } else {
        match dir {
            RotaryEncoderDirection::CW => ring[(i + 1) % n],
            RotaryEncoderDirection::CCW => ring[(i + n - 1) % n],
            RotaryEncoderDirection::Stationary => sel,
        }
    }
}

/// The event a press of the button sends, and the profile it chooses.
pub open spec fn press_effect(s: State, sel: SelectedUIElement, setpoint: u32) -> (
    Option<Event>,
    Option<ReflowProfiles>,
) {
    match (s, sel) {
        (State::Menu, U::MenuReflow) => (Some(Event::ReflowSelected), None),
        (State::Menu, U::MenuSetpoint) => (Some(Event::SetpointSelected), None),
        (State::Menu, U::MenuMeasure) => (Some(Event::MeasureSelected), None),
        (State::Reflow, U::ReflowStart) => (Some(Event::ReflowStartSelected), None),
        (State::Reflow, U::ReflowProfileSelectorMenu) => (Some(Event::ReflowProfileSelectorSelected), None),
        (State::Reflow, U::ReflowMenu) => (Some(Event::ReflowMenuSelected), None),
        (State::ReflowProfileSelection, U::ReflowProfile1) => (
            Some(Event::ReflowSelected),
            Some(ReflowProfiles::TS391SNL),
        ),
        (State::ReflowProfileSelection, U::ReflowProfile2) => (
            Some(Event::ReflowSelected),
            Some(ReflowProfiles::GC10),
        ),
        (State::ReflowProfileSelection, U::ReflowProfileMenu) => (Some(Event::MenuSelected), None),
        (State::ReflowPhasePreheat, _)
        | (State::ReflowPhaseSoak, _)
        | (State::ReflowPhaseReflow, _)
        | (State::ReflowPhaseCool, _) => (Some(Event::ReflowStopSelected), None),
        (State::ReflowPhaseCompleted, _) => (Some(Event::ReflowCompleteConfirmed), None),
        (State::Setpoint, U::SetpointTemperatureRollerInactive)
        | (State::SetpointRunning, U::SetpointTemperatureRollerInactive) => (
            Some(Event::SetpointTemperatureRollerSelected),
            None,
        ),
        (State::Setpoint, _) | (State::SetpointRunning, _) => (Some(Event::SetpointMenuSelected), None),
        (State::SetpointSelecting, _) => (
            Some(
                if setpoint > MIN_TEMP {
                    Event::SetpointTemperatureSet
                } else {
                    Event::SetpointTemperatureUnset
                },
            ),
            None,
        ),
        (State::Measure, _) => (Some(Event::MenuSelected), None),
        (State::RecoverableError, _) => (Some(Event::Error(ErrorType::NoErrors)), None),
        _ => (None, None),
    }
}

/// What the display does with a report: a press acts on the element under
/// the cursor (leaving the cursor where it is); otherwise a turn moves the
/// cursor.
pub open spec fn display_step(
    s: State,
    sel: SelectedUIElement,
    report: EncoderReport,
    setpoint: u32,
) -> DisplayStep {
    if report.pressed {
        let (event, chosen) = press_effect(s, sel, setpoint);
        DisplayStep { event, selected: sel, chosen_profile: chosen }
    } else {
        DisplayStep { event: None, selected: moved_cursor(s, sel, report.direction), chosen_profile: None }
    }
}

/// No element occurs twice in a screen's ring.
proof fn lemma_ring_distinct(s: State)
    ensures
        forall|j: int, k: int|
            0 <= j < k < cursor_ring(s).len() ==> cursor_ring(s)[j] != cursor_ring(s)[k],
{
    let ring = cursor_ring(s);
    assert forall|j: int, k: int| 0 <= j < k < ring.len() implies ring[j] != ring[k] by {
        if j == 0 {
            if k == 1 {
            } else {
            }
        } else {
        }
    }
}

/// One element on in `ring`, clockwise or counter-clockwise.
fn cycle(
    ring: Ghost<Seq<SelectedUIElement>>,
    sel: SelectedUIElement,
    i: usize,
    cw: SelectedUIElement,
    ccw: SelectedUIElement,
    dir: RotaryEncoderDirection,
) -> (r: SelectedUIElement)
    requires
        0 <= i < ring@.len(),
        ring@[i as int] == sel,
        forall|j: int, k: int| 0 <= j < k < ring@.len() ==> ring@[j] != ring@[k],
        cw == ring@[(i + 1) % (ring@.len() as int)],
        ccw == ring@[(i + ring@.len() - 1) % (ring@.len() as int)],
    ensures
        ({
            let n = ring@.len() as int;
            let idx = ring@.index_of(sel);
            r == match dir {
                RotaryEncoderDirection::CW => ring@[(idx + 1) % n],
                RotaryEncoderDirection::CCW => ring@[(idx + n - 1) % n],
                RotaryEncoderDirection::Stationary => sel,
            }
        }),
{
    proof {
        assert(ring@.contains(sel));
        let idx = ring@.index_of(sel);
        assert(0 <= idx < ring@.len() && ring@[idx] == sel);
        assert(idx == i as int);
    }
    match dir {
        RotaryEncoderDirection::CW => cw,
        RotaryEncoderDirection::CCW => ccw,
        RotaryEncoderDirection::Stationary => sel,
    }
}

/// Handles one encoder report on the screen of state `state` with the cursor
/// on `selected`.
pub fn display_input(
    state: State,
    selected: SelectedUIElement,
    report: EncoderReport,
    setpoint_temperature: u32,
) -> (r: DisplayStep)
    requires
        valid_selection(state, selected),
    ensures
        r == display_step(state, selected, report, setpoint_temperature),
{
    if report.pressed {
        let (event, chosen_profile) = match state {
            State::Menu => match selected {
                U::MenuReflow => (Some(Event::ReflowSelected), None),
                U::MenuSetpoint => (Some(Event::SetpointSelected), None),
                _ => (Some(Event::MeasureSelected), None),
            },
            State::Reflow => match selected {
                U::ReflowStart => (Some(Event::ReflowStartSelected), None),
                U::ReflowProfileSelectorMenu => (Some(Event::ReflowProfileSelectorSelected), None),
                _ => (Some(Event::ReflowMenuSelected), None),
            },
            State::ReflowProfileSelection => match selected {
                U::ReflowProfile1 => (Some(Event::ReflowSelected), Some(ReflowProfiles::TS391SNL)),
                U::ReflowProfile2 => (Some(Event::ReflowSelected), Some(ReflowProfiles::GC10)),
                _ => (Some(Event::MenuSelected), None),
            },
            State::ReflowPhasePreheat
            | State::ReflowPhaseSoak
            | State::ReflowPhaseReflow
            | State::ReflowPhaseCool => (Some(Event::ReflowStopSelected), None),
            State::ReflowPhaseCompleted => (Some(Event::ReflowCompleteConfirmed), None),
            State::Setpoint | State::SetpointRunning => match selected {
                U::SetpointTemperatureRollerInactive => (
                    Some(Event::SetpointTemperatureRollerSelected),
                    None,
                ),
                _ => (Some(Event::SetpointMenuSelected), None),
            },
            State::SetpointSelecting => {
                if setpoint_temperature > MIN_TEMP {
                    (Some(Event::SetpointTemperatureSet), None)
                } else {
                    (Some(Event::SetpointTemperatureUnset), None)
                }
            },
            State::Measure => (Some(Event::MenuSelected), None),
            State::RecoverableError => (Some(Event::Error(ErrorType::NoErrors)), None),
            State::UnrecoverableError => (None, None),
        };
        DisplayStep { event, selected, chosen_profile }
    } else {
        let ghost ring = cursor_ring(state);
        proof {
            lemma_ring_distinct(state);
            assert((0int + 1) % 3 == 1 && (1int + 1) % 3 == 2 && (2int + 1) % 3 == 0);
            assert((0int + 3 - 1) % 3 == 2 && (1int + 3 - 1) % 3 == 0 && (2int + 3 - 1) % 3 == 1);
            assert((0int + 1) % 2 == 1 && (1int + 1) % 2 == 0 && (0int + 2 - 1) % 2 == 1 && (1int
                + 2 - 1) % 2 == 0);
        }
        let dir = report.direction;
        let next = match state {
            State::Menu => match selected {
                U::MenuReflow => cycle(Ghost(ring), selected, 0, U::MenuSetpoint, U::MenuMeasure, dir),
                U::MenuSetpoint => cycle(Ghost(ring), selected, 1, U::MenuMeasure, U::MenuReflow, dir),
                _ => cycle(Ghost(ring), selected, 2, U::MenuReflow, U::MenuSetpoint, dir),
            },
            State::Reflow => match selected {
                U::ReflowStart => cycle(
                    Ghost(ring),
                    selected,
                    0,
                    U::ReflowProfileSelectorMenu,
                    U::ReflowMenu,
                    dir,
                ),
                U::ReflowProfileSelectorMenu => cycle(
                    Ghost(ring),
                    selected,
                    1,
                    U::ReflowMenu,
                    U::ReflowStart,
                    dir,
                ),
                _ => cycle(
                    Ghost(ring),
                    selected,
                    2,
                    U::ReflowStart,
                    U::ReflowProfileSelectorMenu,
                    dir,
                ),
            },
            State::ReflowProfileSelection => match selected {
                U::ReflowProfile1 => cycle(
                    Ghost(ring),
                    selected,
                    0,
                    U::ReflowProfile2,
                    U::ReflowProfileMenu,
                    dir,
                ),
                U::ReflowProfile2 => cycle(
                    Ghost(ring),
                    selected,
                    1,
                    U::ReflowProfileMenu,
                    U::ReflowProfile1,
                    dir,
                ),
                _ => cycle(
                    Ghost(ring),
                    selected,
                    2,
                    U::ReflowProfile1,
                    U::ReflowProfile2,
                    dir,
                ),
            },
            State::Setpoint | State::SetpointRunning => match selected {
                U::SetpointTemperatureRollerInactive => cycle(
                    Ghost(ring),
                    selected,
                    0,
                    U::SetpointMenu,
                    U::SetpointMenu,
                    dir,
                ),
                _ => cycle(
                    Ghost(ring),
                    selected,
                    1,
                    U::SetpointTemperatureRollerInactive,
                    U::SetpointTemperatureRollerInactive,
                    dir,
                ),
            },
            _ => selected,
        };
        DisplayStep { event: None, selected: next, chosen_profile: None }
    }
}

/// Where the cursor stands in its screen's ring.
proof fn lemma_ring_position(s: State, sel: SelectedUIElement)
    requires
        valid_selection(s, sel),
        cursor_ring(s).len() > 0,
    ensures
        cursor_ring(s).contains(sel),
        0 <= cursor_ring(s).index_of(sel) < cursor_ring(s).len(),
        cursor_ring(s)[cursor_ring(s).index_of(sel)] == sel,
        forall|j: int|
            0 <= j < cursor_ring(s).len() && cursor_ring(s)[j] == sel ==> j == cursor_ring(
                s,
            ).index_of(sel),
{
    let ring = cursor_ring(s);
    lemma_ring_distinct(s);
    if ring[0] == sel {
        assert(ring.contains(sel));
    } else if ring[1] == sel {
        assert(ring.contains(sel));
    } else {
        assert(ring[2] == sel);
        assert(ring.contains(sel));
    }
    let idx = ring.index_of(sel);
    assert forall|j: int| 0 <= j < ring.len() && ring[j] == sel implies j == idx by {
        if j != idx {
            if j < idx {
                assert(ring[j] != ring[idx]);
            } else {
                assert(ring[idx] != ring[j]);
            }
        }
    }
}

/// Turning the encoder keeps the cursor on an element of the current screen.
pub proof fn lemma_display_keeps_selection_valid(
    s: State,
    sel: SelectedUIElement,
    report: EncoderReport,
    setpoint: u32,
)
    requires
        valid_selection(s, sel),
    ensures
        valid_selection(s, display_step(s, sel, report, setpoint).selected),
{
    let ring = cursor_ring(s);
    if ring.len() > 0 {
        lemma_ring_position(s, sel);
        let n = ring.len() as int;
        let i = ring.index_of(sel);
        assert(0 <= (i + 1) % n < n);
        assert(0 <= (i + n - 1) % n < n);
    }
}

/// One click clockwise followed by one click counter-clockwise puts the
/// cursor back where it was, on every screen.
pub proof fn lemma_turn_back_restores_cursor(s: State, sel: SelectedUIElement)
    requires
        valid_selection(s, sel),
    ensures
        moved_cursor(s, moved_cursor(s, sel, RotaryEncoderDirection::CW), RotaryEncoderDirection::CCW)
            == sel,
        moved_cursor(s, moved_cursor(s, sel, RotaryEncoderDirection::CCW), RotaryEncoderDirection::CW)
            == sel,
{
    let ring = cursor_ring(s);
    if ring.len() > 0 {
        lemma_ring_position(s, sel);
        let n = ring.len() as int;
        let i = ring.index_of(sel);
        let f = (i + 1) % n;
        let b = (i + n - 1) % n;
        assert(valid_selection(s, ring[f]));
        assert(valid_selection(s, ring[b]));
        lemma_ring_position(s, ring[f]);
        lemma_ring_position(s, ring[b]);
        assert(ring.index_of(ring[f]) == f);
        assert(ring.index_of(ring[b]) == b);
        assert(n == 2 || n == 3);
        assert((f + n - 1) % n == i && (b + 1) % n == i) by {
            if n == 2 {
                if i == 0 {
                } else {
                }
            } else {
                if i == 0 {
                } else if i == 1 {
                } else {
                }
            }
        }
    }
}

/// Every press the display acts on sends an event that the state machine
/// answers with a transition: the interface never offers an element whose
/// press the current state would drop. Only the unrecoverable fault screen
/// offers nothing to press.
pub proof fn lemma_press_always_acts(s: State, sh: Shared, setpoint: u32)
    requires
        valid_selection(s, sh.selected_element),
        s != State::UnrecoverableError,
    ensures
        ({
            let step = display_step(
                s,
                sh.selected_element,
                EncoderReport { pressed: true, direction: RotaryEncoderDirection::Stationary },
                setpoint,
            );
            let sh2 = match step.chosen_profile {
                Some(p) => Shared { selected_profile: p, ..sh },
                None => sh,
            };
            &&& step.event is Some
            &&& machine_step(s, sh2, step.event.unwrap()).2.transitioned
        }),
{
}

/// The "Menu" entries of the screens.
pub open spec fn is_menu_element(sel: SelectedUIElement) -> bool {
    sel == U::ReflowMenu || sel == U::ReflowProfileMenu || sel == U::SetpointMenu || sel
        == U::MeasureMenu
}

/// What the state machine does with the event of a press, after the
/// profile the press chose is taken.
pub open spec fn after_press(s: State, sh: Shared, setpoint: u32) -> State {
    let step = display_step(
        s,
        sh.selected_element,
        EncoderReport { pressed: true, direction: RotaryEncoderDirection::Stationary },
        setpoint,
    );
    let sh2 = match step.chosen_profile {
        Some(p) => Shared { selected_profile: p, ..sh },
        None => sh,
    };
    match step.event {
        Some(e) => machine_step(s, sh2, e).0,
        None => s,
    }
}

/// Pressing a "Menu" entry sends a "Menu" event and returns to the menu;
/// a reflow run is only ever started by pressing "Start" on the reflow
/// screen, and "Start" sends nothing else.
pub proof fn lemma_press_meaning(s: State, sh: Shared, setpoint: u32)
    requires
        valid_selection(s, sh.selected_element),
        s != State::UnrecoverableError,
    ensures
        is_menu_element(sh.selected_element) ==> is_menu_event(
            press_effect(s, sh.selected_element, setpoint).0.unwrap(),
        ) && after_press(s, sh, setpoint) == State::Menu,
        press_effect(s, sh.selected_element, setpoint).0 == Some(Event::ReflowStartSelected) ==> (s
            == State::Reflow && sh.selected_element == U::ReflowStart),
        after_press(s, sh, setpoint) == State::ReflowPhasePreheat ==> (s == State::Reflow
            && sh.selected_element == U::ReflowStart),
        (s == State::Reflow && sh.selected_element == U::ReflowStart) ==> after_press(s, sh, setpoint)
            == State::ReflowPhasePreheat,
{
}

} // verus!
