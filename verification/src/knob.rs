//! What the encoder task does with the decoder's steps and the button: it
//! tracks a position in degrees, adjusts the set-point temperature while the
//! set-point roller is active, and reports to the display.
use vstd::prelude::*;
use crate::fsm::{Event, State};
use crate::rotary_encoder::Direction;
use crate::ui::{EncoderReport, MAX_TEMP, MIN_TEMP, RotaryEncoderDirection};

verus! {

/// The result of one decoder update in the encoder task.
#[derive(Clone, Copy, Debug, PartialEq, Eq, Structural)]
pub struct TurnOutcome {
    /// The knob position in degrees.
    pub position: u32,
    /// The set-point temperature in °C.
    pub setpoint_temperature: u32,
    /// The report to publish to the display, if any.
    pub report: Option<EncoderReport>,
}

/// A report of a turn (button not pressed).
pub open spec fn turn_report(d: RotaryEncoderDirection) -> Option<EncoderReport> {
    Some(EncoderReport { pressed: false, direction: d })
}

/// The encoder task's reaction to a decoder update: a step moves the
/// position one degree (modulo 360) and, while the set-point roller is
/// active, the set-point one degree Celsius within `MIN_TEMP..=MAX_TEMP`; a
/// step against a limit is swallowed without a report.
pub open spec fn turn_step(step: Option<Direction>, position: u32, s: State, setpoint: u32) -> TurnOutcome {
    match step {
        None => TurnOutcome {
            position,
            setpoint_temperature: setpoint,
            report: turn_report(RotaryEncoderDirection::Stationary),
        },
        Some(Direction::Clockwise) => {
            let p = ((position + 1) % 360) as u32;
            if s == State::SetpointSelecting && setpoint >= MAX_TEMP {
                TurnOutcome { position: p, setpoint_temperature: setpoint, report: None }
            } else if s == State::SetpointSelecting {
                TurnOutcome {
                    position: p,
                    setpoint_temperature: (setpoint + 1) as u32,
                    report: turn_report(RotaryEncoderDirection::CW),
                }
            } else {
                TurnOutcome {
                    position: p,
                    setpoint_temperature: setpoint,
                    report: turn_report(RotaryEncoderDirection::CW),
                }
            }
        },
        Some(Direction::CounterClockwise) => {
            let p = ((position + 359) % 360) as u32;
            if s == State::SetpointSelecting && setpoint <= MIN_TEMP {
                TurnOutcome { position: p, setpoint_temperature: setpoint, report: None }
            } else if s == State::SetpointSelecting {
                TurnOutcome {
                    position: p,
                    setpoint_temperature: (setpoint - 1) as u32,
                    report: turn_report(RotaryEncoderDirection::CCW),
                }
            } else {
                TurnOutcome {
                    position: p,
                    setpoint_temperature: setpoint,
                    report: turn_report(RotaryEncoderDirection::CCW),
                }
            }
        },
    }
}

/// Handles one decoder update in state `state`.
pub fn on_turn(step: Option<Direction>, position: u32, state: State, setpoint_temperature: u32) -> (r: TurnOutcome)
    requires
        step == Some(Direction::Clockwise) ==> position < u32::MAX,
        step == Some(Direction::CounterClockwise) ==> position <= u32::MAX - 359,
    ensures
        r == turn_step(step, position, state, setpoint_temperature),
        MIN_TEMP <= setpoint_temperature <= MAX_TEMP ==> MIN_TEMP <= r.setpoint_temperature
            <= MAX_TEMP,
        state != State::SetpointSelecting ==> r.setpoint_temperature == setpoint_temperature,
{
    match step {
        Some(Direction::Clockwise) => {
            let p = (position + 1) % 360;
            match state {
                State::SetpointSelecting => {
                    if setpoint_temperature >= MAX_TEMP {
                        return TurnOutcome { position: p, setpoint_temperature, report: None };
                    }
                    TurnOutcome {
                        position: p,
                        setpoint_temperature: setpoint_temperature + 1,
                        report: Some(EncoderReport { pressed: false, direction: RotaryEncoderDirection::CW }),
                    }
                },
                _ => TurnOutcome {
                    position: p,
                    setpoint_temperature,
                    report: Some(EncoderReport { pressed: false, direction: RotaryEncoderDirection::CW }),
                },
            }
        },
        Some(Direction::CounterClockwise) => {
            let p = (position + 359) % 360;
            match state {
                State::SetpointSelecting => {
                    if setpoint_temperature <= MIN_TEMP {
                        return TurnOutcome { position: p, setpoint_temperature, report: None };
                    }
                    TurnOutcome {
                        position: p,
                        setpoint_temperature: setpoint_temperature - 1,
                        report: Some(EncoderReport { pressed: false, direction: RotaryEncoderDirection::CCW }),
                    }
                },
                _ => TurnOutcome {
                    position: p,
                    setpoint_temperature,
                    report: Some(EncoderReport { pressed: false, direction: RotaryEncoderDirection::CCW }),
                },
            }
        },
        None => TurnOutcome {
            position,
            setpoint_temperature,
            report: Some(EncoderReport { pressed: false, direction: RotaryEncoderDirection::Stationary }),
        },
    }
}

/// The report and event for an edge on the button line: the button is
/// pressed while its (pulled-up) line is low.
pub fn on_button(line_high: bool) -> (r: (EncoderReport, Event))
    ensures
        r == (EncoderReport { pressed: !line_high, direction: RotaryEncoderDirection::Stationary }, Event::EncoderPressed),
{
    let pressed = if line_high {
        false
    } else {
        true
    };
    (EncoderReport { pressed, direction: RotaryEncoderDirection::Stationary }, Event::EncoderPressed)
}

/// The set-point temperature never leaves `MIN_TEMP..=MAX_TEMP` once inside,
/// and only changes while the set-point roller is active.
pub proof fn lemma_setpoint_stays_in_range(step: Option<Direction>, position: u32, s: State, setpoint: u32)
    requires
        MIN_TEMP <= setpoint <= MAX_TEMP,
    ensures
        MIN_TEMP <= turn_step(step, position, s, setpoint).setpoint_temperature <= MAX_TEMP,
        s != State::SetpointSelecting ==> turn_step(step, position, s, setpoint).setpoint_temperature
            == setpoint,
{
}

/// The position stays below 360 degrees, and a step back undoes a step.
pub proof fn lemma_position_wraps(position: u32, s: State, setpoint: u32)
    requires
        position < 360,
    ensures
        turn_step(Some(Direction::Clockwise), position, s, setpoint).position < 360,
        turn_step(Some(Direction::CounterClockwise), position, s, setpoint).position < 360,
        turn_step(
            Some(Direction::CounterClockwise),
            turn_step(Some(Direction::Clockwise), position, s, setpoint).position,
            s,
            setpoint,
        ).position == position,
{
}

/// While the roller is active, a step up followed by a step down restores
/// the set-point, away from the upper limit.
pub proof fn lemma_setpoint_step_back(position: u32, setpoint: u32)
    requires
        position < 360,
        setpoint < MAX_TEMP,
    ensures
        ({
            let up = turn_step(Some(Direction::Clockwise), position, State::SetpointSelecting, setpoint);
            turn_step(
                Some(Direction::CounterClockwise),
                up.position,
                State::SetpointSelecting,
                up.setpoint_temperature,
            ).setpoint_temperature == setpoint
        }),
{
}

/// The direction a report carries for a decoder step.
pub open spec fn step_direction(d: Direction) -> RotaryEncoderDirection {
    match d {
        Direction::Clockwise => RotaryEncoderDirection::CW,
        Direction::CounterClockwise => RotaryEncoderDirection::CCW,
    }
}

/// Every decoder step is reported to the display with its own direction
/// (button not pressed), except a step that would push the active set-point
/// roller past its limit, which is swallowed; an update without a step
/// reports no turn.
pub proof fn lemma_steps_are_reported(step: Option<Direction>, position: u32, s: State, setpoint: u32)
    ensures
        match step {
            Some(d) => {
                let at_limit = s == State::SetpointSelecting && match d {
                    Direction::Clockwise => setpoint >= MAX_TEMP,
                    Direction::CounterClockwise => setpoint <= MIN_TEMP,
                };
                turn_step(step, position, s, setpoint).report == if at_limit {
                    None
                } else {
                    Some(EncoderReport { pressed: false, direction: step_direction(d) })
                }
            },
            None => turn_step(step, position, s, setpoint).report == Some(
                EncoderReport { pressed: false, direction: RotaryEncoderDirection::Stationary },
            ),
        },
{
}

} // verus!
