//! Control logic of a hot plate reflow controller: reflow profiles, the
//! rotary encoder decoder, thermocouple frame decoding, the controller's
//! state machine, the menu navigation of the display and the per-tick
//! decisions of the heater control loop.

pub mod reflow_profiles;
pub mod rotary_encoder;
pub mod errors;
pub mod thermocouple;
pub mod fsm;
pub mod ui;
pub mod knob;
pub mod control;
pub mod labels;
pub mod power_monitor;
