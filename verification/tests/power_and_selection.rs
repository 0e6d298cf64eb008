use hot_plate_reflow::errors::ErrorType;
use hot_plate_reflow::fsm::{selection_is_valid, SelectedUIElement, State};
use hot_plate_reflow::power_monitor::PowerMonitor;
use ina219::configuration::{
    BusVoltageRange, Configuration, MeasuredSignals, OperatingMode, Reset, Resolution, ShuntVoltageRange,
};

#[test]
fn monitor_configurations() {
    let t = Configuration::from_bits(PowerMonitor::Transformer.config_register());
    assert_eq!(
        t,
        Configuration {
            reset: Reset::Reset,
            bus_voltage_range: BusVoltageRange::Fsr16v,
            shunt_voltage_range: ShuntVoltageRange::Fsr80mv,
            bus_resolution: Resolution::Avg128,
            shunt_resolution: Resolution::Avg128,
            operating_mode: OperatingMode::Continous(MeasuredSignals::ShutAndBusVoltage),
        }
    );
    let f = Configuration::from_bits(PowerMonitor::Fan.config_register());
    assert_eq!(f, Configuration { shunt_voltage_range: ShuntVoltageRange::Fsr40mv, ..t });
    assert_eq!(PowerMonitor::Transformer.config_register(), 0x8FFF);
    assert_eq!(PowerMonitor::Fan.config_register(), 0x87FF);
    assert_eq!(PowerMonitor::Transformer.address(), 0x42);
    assert_eq!(PowerMonitor::Fan.address(), 0x40);
    assert_eq!(PowerMonitor::Transformer.fault(), ErrorType::NoInaTransformer);
    assert_eq!(PowerMonitor::Fan.fault(), ErrorType::NoInaFan);
}

#[test]
fn conversion_times() {
    // two conversions of 128 averaged samples, 68.1 ms each
    assert_eq!(PowerMonitor::Transformer.read_interval_us(), 136_200);
    assert_eq!(PowerMonitor::Fan.read_interval_us(), 136_200);
}

#[test]
fn selections_offered_per_screen() {
    assert!(selection_is_valid(State::Menu, SelectedUIElement::MenuMeasure));
    assert!(!selection_is_valid(State::Menu, SelectedUIElement::NoneSelected));
    assert!(!selection_is_valid(State::Menu, SelectedUIElement::ReflowStart));
    assert!(selection_is_valid(State::ReflowPhaseCool, SelectedUIElement::ReflowStop));
    assert!(!selection_is_valid(State::ReflowPhaseCool, SelectedUIElement::ReflowStart));
    assert!(selection_is_valid(State::UnrecoverableError, SelectedUIElement::NoneSelected));
    assert!(!selection_is_valid(State::ReflowProfileSelection, SelectedUIElement::ReflowProfile3));
    assert!(selection_is_valid(State::SetpointRunning, SelectedUIElement::SetpointMenu));
}
