//! The fault conditions the controller reports, with their numeric codes.
use vstd::prelude::*;

verus! {

/// A fault condition. Codes below `0xF0` are recoverable, codes from `0xF0`
/// on are not; `NoErrors` (code 0) clears a fault.
#[derive(Clone, Copy, PartialEq, Eq, Structural, Debug)]
pub enum ErrorType {
    NoErrors,
    ThermocoupleShortGnd,
    ThermocoupleShortVcc,
    ThermocoupleIssue,
    NoThermocouple,
    NoZCD,
    Overtemp,
    NoHeat,
    NoDisplay,
    NoTransformer,
    NoInaTransformer,
    NoFan,
    NoInaFan,
    NoMax,
    NoEncoder,
    Overcurrent,
}

/// The numeric code of each fault.
pub open spec fn error_code(e: ErrorType) -> u8 {
    match e {
        ErrorType::NoErrors => 0x00,
        ErrorType::ThermocoupleShortGnd => 0x01,
        ErrorType::ThermocoupleShortVcc => 0x02,
        ErrorType::ThermocoupleIssue => 0x03,
        ErrorType::NoThermocouple => 0x04,
        ErrorType::NoZCD => 0x05,
        ErrorType::Overtemp => 0x06,
        ErrorType::NoHeat => 0xF0,
        ErrorType::NoDisplay => 0xF1,
        ErrorType::NoTransformer => 0xF2,
        ErrorType::NoInaTransformer => 0xF3,
        ErrorType::NoFan => 0xF4,
        ErrorType::NoInaFan => 0xF5,
        ErrorType::NoMax => 0xF6,
        ErrorType::NoEncoder => 0xF7,
        ErrorType::Overcurrent => 0xF8,
    }
}

/// A fault the controller cannot leave by itself.
pub open spec fn spec_is_unrecoverable(e: ErrorType) -> bool {
    error_code(e) >= 0xF0
}

/// A fault the user can acknowledge.
pub open spec fn spec_is_recoverable(e: ErrorType) -> bool {
    0 < error_code(e) < 0xF0
}

impl ErrorType {
    /// The numeric code of the fault.
    pub fn code(self) -> (c: u8)
        ensures
            c == error_code(self),
    {
        match self {
            ErrorType::NoErrors => 0x00,
            ErrorType::ThermocoupleShortGnd => 0x01,
            ErrorType::ThermocoupleShortVcc => 0x02,
            ErrorType::ThermocoupleIssue => 0x03,
            ErrorType::NoThermocouple => 0x04,
            ErrorType::NoZCD => 0x05,
            ErrorType::Overtemp => 0x06,
            ErrorType::NoHeat => 0xF0,
            ErrorType::NoDisplay => 0xF1,
            ErrorType::NoTransformer => 0xF2,
            ErrorType::NoInaTransformer => 0xF3,
            ErrorType::NoFan => 0xF4,
            ErrorType::NoInaFan => 0xF5,
            ErrorType::NoMax => 0xF6,
            ErrorType::NoEncoder => 0xF7,
            ErrorType::Overcurrent => 0xF8,
        }
    }

    /// Whether the fault cannot be left (code `0xF0` or above).
    pub fn is_unrecoverable(self) -> (b: bool)
        ensures
            b == spec_is_unrecoverable(self),
    {
        self.code() >= 0xF0
    }

    /// Whether the fault can be acknowledged (a code between 1 and `0xEF`).
    pub fn is_recoverable(self) -> (b: bool)
        ensures
            b == spec_is_recoverable(self),
    {
        let c = self.code();
        c > 0 && c < 0xF0
    }
}

/// Every error is exactly one of: no error, recoverable, unrecoverable; and
/// distinct errors have distinct codes.
pub proof fn lemma_error_classes(e: ErrorType, f: ErrorType)
    ensures
        (e == ErrorType::NoErrors) || spec_is_recoverable(e) || spec_is_unrecoverable(e),
        !(spec_is_recoverable(e) && spec_is_unrecoverable(e)),
        e == ErrorType::NoErrors <==> error_code(e) == 0,
        error_code(e) == error_code(f) ==> e == f,
{
}

/// The faults of missing or failing hardware (heater, display, transformer,
/// the monitors, fan, converter, encoder, over-current) are exactly the
/// unrecoverable ones, with the codes 0xF0 to 0xF8; the thermocouple,
/// zero-crossing and over-temperature faults are exactly the recoverable
/// ones, with the codes 0x01 to 0x06.
pub proof fn lemma_fault_classes_by_kind(e: ErrorType)
    ensures
        spec_is_unrecoverable(e) <==> (e == ErrorType::NoHeat || e == ErrorType::NoDisplay || e
            == ErrorType::NoTransformer || e == ErrorType::NoInaTransformer || e
            == ErrorType::NoFan || e == ErrorType::NoInaFan || e == ErrorType::NoMax || e
            == ErrorType::NoEncoder || e == ErrorType::Overcurrent),
        spec_is_recoverable(e) <==> (e == ErrorType::ThermocoupleShortGnd || e
            == ErrorType::ThermocoupleShortVcc || e == ErrorType::ThermocoupleIssue || e
            == ErrorType::NoThermocouple || e == ErrorType::NoZCD || e == ErrorType::Overtemp),
        spec_is_unrecoverable(e) ==> 0xF0 <= error_code(e) <= 0xF8,
        spec_is_recoverable(e) ==> 0x01 <= error_code(e) <= 0x06,
{
}

} // verus!
