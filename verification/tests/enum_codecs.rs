use canopeners::enums::{AbortCode, EmergencyErrorCode, EmergencyErrorRegister};

fn all_emergency_error_codes() -> Vec<EmergencyErrorCode> {
    vec![
        EmergencyErrorCode::ErrorResetOrNoError,
        EmergencyErrorCode::GenericError,
        EmergencyErrorCode::Current,
        EmergencyErrorCode::CurrentInputSide,
        EmergencyErrorCode::CurrentInsideDevice,
        EmergencyErrorCode::CurrentOutputSide,
        EmergencyErrorCode::Voltage,
        EmergencyErrorCode::MainsVoltage,
        EmergencyErrorCode::VoltageInsideDevice,
        EmergencyErrorCode::OutputVoltage,
        EmergencyErrorCode::Temperature,
        EmergencyErrorCode::AmbientTemperature,
        EmergencyErrorCode::DeviceTemperature,
        EmergencyErrorCode::DeviceHardware,
        EmergencyErrorCode::DeviceSoftware,
        EmergencyErrorCode::InternalSoftware,
        EmergencyErrorCode::UserSoftware,
        EmergencyErrorCode::DataSet,
        EmergencyErrorCode::AdditionalModules,
        EmergencyErrorCode::Monitoring,
        EmergencyErrorCode::Communication,
        EmergencyErrorCode::CommunicationCanOverrun,
        EmergencyErrorCode::CommunicationErrorPassiveMode,
        EmergencyErrorCode::CommunicationLifeGuardError,
        EmergencyErrorCode::CommunicationRecoveredBusOff,
        EmergencyErrorCode::CommunicationCanIdCollision,
        EmergencyErrorCode::ProtocolError,
        EmergencyErrorCode::ProtocolErrorPdoLength,
        EmergencyErrorCode::ProtocolErrorPdoLengthExceeded,
        EmergencyErrorCode::ProtocolErrorDamMpdo,
        EmergencyErrorCode::ProtocolErrorUnexpectedSyncLength,
        EmergencyErrorCode::ProtocolErrorRpdoTimeout,
        EmergencyErrorCode::ExternalError,
        EmergencyErrorCode::AdditionalFunctions,
        EmergencyErrorCode::DeviceSpecific,
    ]
}

fn all_abort_codes() -> Vec<AbortCode> {
    vec![
        AbortCode::ToggleBitNotAlternated,
        AbortCode::SdoProtocolTimedOut,
        AbortCode::InvalidClientServerCommandSpecifier,
        AbortCode::InvalidBlockSize,
        AbortCode::InvalidSequenceNumber,
        AbortCode::CrcError,
        AbortCode::OutOfMemory,
        AbortCode::UnsupportedAccessToObject,
        AbortCode::AttemptToReadWriteOnlyObject,
        AbortCode::AttemptToWriteReadOnlyObject,
        AbortCode::ObjectNotInDictionary,
        AbortCode::ObjectCannotBeMappedToPdo,
        AbortCode::ExceedPdoLength,
        AbortCode::GeneralParameterIncompatibility,
        AbortCode::GeneralInternalIncompatibility,
        AbortCode::HardwareError,
        AbortCode::DataTypeMismatchLengthMismatch,
        AbortCode::DataTypeMismatchLengthTooHigh,
        AbortCode::DataTypeMismatchLengthTooLow,
        AbortCode::SubIndexDoesNotExist,
        AbortCode::InvalidValueForParameter,
        AbortCode::ValueTooHigh,
        AbortCode::ValueTooLow,
        AbortCode::MaxLessThanMin,
        AbortCode::ResourceNotAvailable,
        AbortCode::GeneralError,
        AbortCode::DataTransferOrStorageFailed,
        AbortCode::LocalControlPreventsDataTransfer,
        AbortCode::DeviceStatePreventsDataTransfer,
        AbortCode::ObjectDictionaryGenerationFailed,
        AbortCode::NoDataAvailable,
    ]
}

fn all_register_flags() -> Vec<EmergencyErrorRegister> {
    vec![
        EmergencyErrorRegister::GenericError,
        EmergencyErrorRegister::Current,
        EmergencyErrorRegister::Voltage,
        EmergencyErrorRegister::Temperature,
        EmergencyErrorRegister::CommunicationError,
        EmergencyErrorRegister::DeviceProfileSpecific,
        EmergencyErrorRegister::Reserved,
        EmergencyErrorRegister::ManufacturerSpecific,
    ]
}

#[test]
fn emergency_error_code_round_trips_on_every_canonical_value() {
    for code in all_emergency_error_codes() {
        let raw = code.encode();
        assert_eq!(EmergencyErrorCode::decode(raw), Ok(code), "code 0x{raw:04X}");
    }
}

#[test]
fn emergency_error_code_prefers_exact_matches_over_ranges() {
    assert_eq!(
        EmergencyErrorCode::decode(0x8110),
        Ok(EmergencyErrorCode::CommunicationCanOverrun)
    );
    assert_eq!(EmergencyErrorCode::decode(0x8111), Ok(EmergencyErrorCode::Communication));
    assert_eq!(EmergencyErrorCode::decode(0x8210), Ok(EmergencyErrorCode::ProtocolErrorPdoLength));
    assert_eq!(EmergencyErrorCode::decode(0x8211), Ok(EmergencyErrorCode::ProtocolError));
}

#[test]
fn emergency_error_code_rejects_values_outside_the_table() {
    assert!(EmergencyErrorCode::decode(0x0100).is_err());
    assert!(EmergencyErrorCode::decode(0x1F00).is_err());
    assert!(EmergencyErrorCode::decode(0xEEEE).is_err());
}

#[test]
fn abort_code_round_trips_on_every_value() {
    for code in all_abort_codes() {
        let raw = code.encode();
        assert_eq!(AbortCode::decode(raw), Some(code), "code 0x{raw:08X}");
    }
}

#[test]
fn abort_code_rejects_unknown_values() {
    assert_eq!(AbortCode::decode(0xDEAD_BEEF), None);
    assert_eq!(AbortCode::decode(0x0503_0001), None);
}

#[test]
fn register_byte_round_trips_for_every_byte() {
    for byte in 0..=255u8 {
        let flags = EmergencyErrorRegister::decode(byte);
        assert_eq!(EmergencyErrorRegister::encode(&flags), byte);
    }
}

#[test]
fn register_flag_subsets_round_trip() {
    let flags = all_register_flags();
    // Every subset of the eight flags, taken in register bit order, comes
    // back unchanged from a decode of its encoding.
    for mask in 0..=255u8 {
        let subset: Vec<EmergencyErrorRegister> = flags
            .iter()
            .enumerate()
            .filter(|(i, _)| mask & (1 << i) != 0)
            .map(|(_, f)| *f)
            .collect();
        let decoded = EmergencyErrorRegister::decode(EmergencyErrorRegister::encode(&subset));
        assert_eq!(decoded, subset, "mask {mask:#04X}");
    }
}

#[test]
fn register_encode_ignores_duplicates() {
    let twice = vec![EmergencyErrorRegister::Voltage, EmergencyErrorRegister::Voltage];
    assert_eq!(EmergencyErrorRegister::encode(&twice), 0x04);
}

#[test]
fn register_decode_of_zero_is_empty() {
    assert!(EmergencyErrorRegister::decode(0).is_empty());
}
