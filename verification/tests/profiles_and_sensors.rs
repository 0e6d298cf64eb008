use hot_plate_reflow::errors::ErrorType;
use hot_plate_reflow::labels::{degrees_label, error_code_label, percent_label, seconds_label};
use hot_plate_reflow::reflow_profiles::{Ramp, ReflowParams, ReflowProfiles};
use hot_plate_reflow::rotary_encoder::{Direction, GrayDecoder};
use hot_plate_reflow::thermocouple::{decode_thermocouple_frame, whole_degrees};

#[test]
fn ts391snl_profile_values() {
    let p = ReflowProfiles::TS391SNL.profile();
    assert_eq!(p.name, "TS391SNL");
    assert_eq!(p.max_temp, 249);
    assert_eq!(p.total_duration, 300);
    assert_eq!(p.melt_temp, 219);
    assert_eq!(p.preheat_temp, 150);
    assert_eq!(p.soak_temp, 175);
    assert_eq!(p.reflow_temp, 249);
    assert_eq!(p.cool_temp, 219);
    assert_eq!(p.preheat_time, 90);
    assert_eq!(p.soak_time, 90);
    assert_eq!(p.reflow_time, 60);
    assert_eq!(p.cool_time, 30);
}

#[test]
fn gc10_profile_values() {
    let p = ReflowProfiles::GC10.profile();
    assert_eq!(p.name, "GC10");
    assert_eq!(
        (p.max_temp, p.total_duration, p.melt_temp, p.preheat_temp, p.soak_temp, p.reflow_temp, p.cool_temp),
        (254, 355, 217, 150, 200, 254, 217)
    );
    assert_eq!((p.preheat_time, p.soak_time, p.reflow_time, p.cool_time), (45, 195, 105, 10));
}

#[test]
fn no_profile_is_all_zero() {
    let p = ReflowProfiles::NoProfile.profile();
    assert_eq!(p.name, "NoProfile");
    assert_eq!(p.max_temp + p.total_duration + p.melt_temp + p.preheat_temp, 0);
    assert_eq!(p.soak_temp + p.reflow_temp + p.cool_temp + p.preheat_time, 0);
    assert_eq!(p.soak_time + p.reflow_time + p.cool_time, 0);
}

#[test]
fn ramps_follow_profile_phases() {
    let r = ReflowParams::from_profile(ReflowProfiles::GC10);
    assert_eq!(r.preheat_ramp, Ramp { rise: 150, duration: 45 });
    assert_eq!(r.soak_ramp, Ramp { rise: 200, duration: 195 });
    assert_eq!(r.reflow_ramp, Ramp { rise: 254, duration: 105 });
    assert_eq!(r.cool_ramp, Ramp { rise: 217, duration: 10 });
    let z = ReflowParams::zero();
    assert_eq!(z, ReflowParams::from_profile(ReflowProfiles::NoProfile));
}

#[test]
fn decoder_reports_one_clockwise_detent() {
    let mut d = GrayDecoder::new();
    assert_eq!(d.update(true, false), None);
    assert_eq!(d.update(false, false), None);
    assert_eq!(d.update(false, true), None);
    assert_eq!(d.update(true, true), Some(Direction::Clockwise));
    // and again from rest after a report, never sooner than four readings on
    assert_eq!(d.update(true, false), None);
    assert_eq!(d.update(false, false), None);
    assert_eq!(d.update(false, true), None);
    assert_eq!(d.update(true, true), Some(Direction::Clockwise));
}

#[test]
fn decoder_reports_one_counter_clockwise_detent() {
    let mut d = GrayDecoder::new();
    assert_eq!(d.update(false, true), None);
    assert_eq!(d.update(false, false), None);
    assert_eq!(d.update(true, false), None);
    assert_eq!(d.update(true, true), Some(Direction::CounterClockwise));
}

#[test]
fn decoder_ignores_bounce_and_half_steps() {
    let mut d = GrayDecoder::new();
    assert_eq!(d.update(true, true), None);
    assert_eq!(d.update(true, false), None);
    assert_eq!(d.update(true, true), None);
    assert_eq!(d.update(true, false), None);
    assert_eq!(d.update(false, false), None);
    assert_eq!(d.update(true, false), None);
    assert_eq!(d.update(true, true), None);
}

#[test]
fn error_codes_and_classes() {
    assert_eq!(ErrorType::NoErrors.code(), 0x00);
    assert_eq!(ErrorType::NoThermocouple.code(), 0x04);
    assert_eq!(ErrorType::Overtemp.code(), 0x06);
    assert_eq!(ErrorType::NoHeat.code(), 0xF0);
    assert_eq!(ErrorType::Overcurrent.code(), 0xF8);
    assert!(ErrorType::ThermocoupleShortGnd.is_recoverable());
    assert!(!ErrorType::ThermocoupleShortGnd.is_unrecoverable());
    assert!(ErrorType::NoDisplay.is_unrecoverable());
    assert!(!ErrorType::NoDisplay.is_recoverable());
    assert!(!ErrorType::NoErrors.is_recoverable());
    assert!(!ErrorType::NoErrors.is_unrecoverable());
}

#[test]
fn thermocouple_temperature_frame() {
    // 25.00 °C = 100 quarter degrees in bits 18..31
    assert_eq!(decode_thermocouple_frame([0x01, 0x90, 0x00, 0x00]), Ok(100));
    // 25.25 °C, with cold-junction bits set below
    assert_eq!(decode_thermocouple_frame([0x01, 0x94, 0x12, 0x30]), Ok(101));
    // the field is a 14-bit two's-complement value: all bits set is -0.25 °C
    assert_eq!(decode_thermocouple_frame([0xFF, 0xFC, 0x00, 0x00]), Ok(-1));
    // largest positive reading, 2047.75 °C
    assert_eq!(decode_thermocouple_frame([0x7F, 0xFC, 0x00, 0x00]), Ok(0x1FFF));
    // most negative reading, -2048 °C
    assert_eq!(decode_thermocouple_frame([0x80, 0x00, 0x00, 0x00]), Ok(-0x2000));
    // -10.25 °C = -41 quarter degrees
    assert_eq!(decode_thermocouple_frame([0xFF, 0x5C, 0x00, 0x00]), Ok(-41));
    assert_eq!(decode_thermocouple_frame([0x00, 0x00, 0x00, 0x00]), Ok(0));
    assert_eq!(whole_degrees(101), 25);
    assert_eq!(whole_degrees(0x1FFF), 2047);
    assert_eq!(whole_degrees(-1), 0);
    assert_eq!(whole_degrees(-41), 0);
}

#[test]
fn thermocouple_fault_frames() {
    assert_eq!(decode_thermocouple_frame([0x01, 0x91, 0x00, 0x01]), Err(ErrorType::NoThermocouple));
    assert_eq!(decode_thermocouple_frame([0x00, 0x01, 0x00, 0x02]), Err(ErrorType::ThermocoupleShortGnd));
    assert_eq!(decode_thermocouple_frame([0x00, 0x01, 0x00, 0x04]), Err(ErrorType::ThermocoupleShortVcc));
    assert_eq!(decode_thermocouple_frame([0x00, 0x01, 0x00, 0x00]), Err(ErrorType::ThermocoupleIssue));
    assert_eq!(decode_thermocouple_frame([0x00, 0x00, 0x00, 0x03]), Err(ErrorType::ThermocoupleIssue));
    assert_eq!(decode_thermocouple_frame([0x00, 0x00, 0x00, 0x01]), Err(ErrorType::NoThermocouple));
}

#[test]
fn labels_show_numbers_with_units() {
    assert_eq!(degrees_label(245).as_str(), "245\u{b0}C");
    assert_eq!(degrees_label(0).as_str(), "0\u{b0}C");
    assert_eq!(degrees_label(9_999_999).as_str(), "9999999\u{b0}C");
    assert_eq!(seconds_label(355).as_str(), "355 Sec.");
    assert_eq!(seconds_label(80).as_str(), "80 Sec.");
    assert_eq!(percent_label(42).as_str(), "42%");
    assert_eq!(percent_label(0).as_str(), "0%");
    assert_eq!(percent_label(255).as_str(), "255%");
}

#[test]
fn error_code_labels_are_hex() {
    assert_eq!(error_code_label(ErrorType::NoThermocouple).as_str(), "0x04");
    assert_eq!(error_code_label(ErrorType::NoInaTransformer).as_str(), "0xF3");
    assert_eq!(error_code_label(ErrorType::NoErrors).as_str(), "0x00");
    assert_eq!(error_code_label(ErrorType::Overcurrent).as_str(), "0xF8");
}
