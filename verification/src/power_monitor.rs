//! The configuration of the two INA219 power monitors (heater transformer
//! and fan) and the timing of their measurements.
use vstd::prelude::*;
use crate::errors::ErrorType;
use ina219::configuration::Configuration;

verus! {

/// The two power monitors on the board.
#[derive(Clone, Copy, Debug, PartialEq, Eq, Structural)]
pub enum PowerMonitor {
    Transformer,
    Fan,
}

/// The configuration register word written to a monitor. Both get: reset
/// (bit 15), 16 V bus range (bit 13 clear), 128-sample averaging of the bus
/// and of the shunt voltage (bits 10..7 and 6..3 all set), and continuous
/// conversion of both voltages (bits 2..0 all set). The shunt range (bits
/// 12..11) is ±80 mV for the transformer and ±40 mV for the fan.
pub open spec fn spec_config_register(m: PowerMonitor) -> u16 {
    match m {
        PowerMonitor::Transformer => 0x8FFF,
        PowerMonitor::Fan => 0x87FF,
    }
}

/// The conversion time (µs) the INA219 driver gives for a 4-bit resolution
/// code of the configuration register: single samples of 9 to 12 bits (codes
/// 0 to 8, where 4 to 7 repeat 0 to 3 and 8 is 12 bits), then 2 to 128
/// averaged samples (codes 9 to 15).
pub open spec fn resolution_code_time_us(code: int) -> u32 {
    if code == 0 || code == 4 {
        84
    } else if code == 1 || code == 5 {
        148
    } else if code == 2 || code == 6 {
        276
    } else if code == 3 || code == 7 || code == 8 {
        532
    } else if code == 9 {
        1_060
    } else if code == 10 {
        2_130
    } else if code == 11 {
        4_260
    } else if code == 12 {
        8_510
    } else if code == 13 {
        17_020
    } else if code == 14 {
        34_050
    } else {
        68_100
    }
}

/// The conversion time (µs) of one measurement cycle that the INA219 driver
/// gives for a configuration register word: none when the mode (bits 2..0)
/// is power-down (0) or ADC off (4); otherwise the time of the shunt
/// resolution (bits 6..3), of the bus resolution (bits 10..7), or of both
/// added, as the low two mode bits select the shunt voltage (1), the bus
/// voltage (2) or both (3).
pub open spec fn register_conversion_time_us(register: u16) -> Option<u32> {
    let mode = register as int % 8;
    let shunt = resolution_code_time_us(register as int / 8 % 16);
    let bus = resolution_code_time_us(register as int / 128 % 16);
    if mode == 0 || mode == 4 {
        None
    } else if mode % 4 == 1 {
        Some(shunt)
    } else if mode % 4 == 2 {
        Some(bus)
    } else {
        Some((shunt + bus) as u32)
    }
}

/// Calls `ina219::configuration::Configuration::conversion_time_us` on the
/// configuration that `Configuration::from_bits` reads from `register`. The
/// contract states what the driver's source computes: its table of
/// conversion times per resolution, selected and added by the mode bits.
#[verifier::external_body]
fn driver_conversion_time_us(register: u16) -> (t: Option<u32>)
    ensures
        t == register_conversion_time_us(register),
{
    Configuration::from_bits(register).conversion_time_us()
}

impl PowerMonitor {
    /// The configuration register word written to this monitor.
    pub fn config_register(self) -> (r: u16)
        ensures
            r == spec_config_register(self),
    {
        match self {
            PowerMonitor::Transformer => 0x8FFF,
            PowerMonitor::Fan => 0x87FF,
        }
    }

    /// The bus address of this monitor.
    pub fn address(self) -> (a: u8)
        ensures
            a == (match self {
                PowerMonitor::Transformer => 0x42u8,
                PowerMonitor::Fan => 0x40u8,
            }),
    {
        match self {
            PowerMonitor::Transformer => 0x42,
            PowerMonitor::Fan => 0x40,
        }
    }

    /// The fault reported when this monitor cannot be configured or read.
    pub fn fault(self) -> (e: ErrorType)
        ensures
            e == (match self {
                PowerMonitor::Transformer => ErrorType::NoInaTransformer,
                PowerMonitor::Fan => ErrorType::NoInaFan,
            }),
    {
        match self {
            PowerMonitor::Transformer => ErrorType::NoInaTransformer,
            PowerMonitor::Fan => ErrorType::NoInaFan,
        }
    }

    /// The pause (µs) between two reads of this monitor: the driver's
    /// conversion time of its configuration, two conversions of 128
    /// averaged samples.
    pub fn read_interval_us(self) -> (t: u32)
        ensures
            Some(t) == register_conversion_time_us(spec_config_register(self)),
            t == 136_200,
    {
        match driver_conversion_time_us(self.config_register()) {
            Some(t) => t,
            None => 0,
        }
    }
}

} // verus!
