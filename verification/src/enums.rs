//! Symbolic forms of the CANopen enumeration fields: EMCY error codes, the
//! EMCY error-register bitfield and SDO abort codes, each with its wire
//! conversion and the round-trip laws that hold of it.

use vstd::prelude::*;

use crate::error::CanOpenError;

verus! {

/// EMCY error code (first two payload bytes of an emergency message).
///
/// The wire value is a 16-bit code: a handful of exact codes plus ranges
/// bucketed by the high byte. Decoding prefers exact matches over range
/// buckets; encoding returns the canonical base of the bucket.
#[derive(Clone, Copy, Debug, PartialEq, Eq, Structural)]
pub enum EmergencyErrorCode {
    ErrorResetOrNoError,
    GenericError,
    Current,
    CurrentInputSide,
    CurrentInsideDevice,
    CurrentOutputSide,
    Voltage,
    MainsVoltage,
    VoltageInsideDevice,
    OutputVoltage,
    Temperature,
    AmbientTemperature,
    DeviceTemperature,
    DeviceHardware,
    DeviceSoftware,
    InternalSoftware,
    UserSoftware,
    DataSet,
    AdditionalModules,
    Monitoring,
    Communication,
    CommunicationCanOverrun,
    CommunicationErrorPassiveMode,
    CommunicationLifeGuardError,
    CommunicationRecoveredBusOff,
    CommunicationCanIdCollision,
    ProtocolError,
    ProtocolErrorPdoLength,
    ProtocolErrorPdoLengthExceeded,
    ProtocolErrorDamMpdo,
    ProtocolErrorUnexpectedSyncLength,
    ProtocolErrorRpdoTimeout,
    ExternalError,
    AdditionalFunctions,
    DeviceSpecific,
}

/// The canonical 16-bit value of an EMCY error code: for a range bucket,
/// the base of the bucket.
pub open spec fn emergency_error_code_value(c: EmergencyErrorCode) -> u16 {
    match c {
        EmergencyErrorCode::ErrorResetOrNoError => 0x0000,
        EmergencyErrorCode::GenericError => 0x1000,
        EmergencyErrorCode::Current => 0x2000,
        EmergencyErrorCode::CurrentInputSide => 0x2100,
        EmergencyErrorCode::CurrentInsideDevice => 0x2200,
        EmergencyErrorCode::CurrentOutputSide => 0x2300,
        EmergencyErrorCode::Voltage => 0x3000,
        EmergencyErrorCode::MainsVoltage => 0x3100,
        EmergencyErrorCode::VoltageInsideDevice => 0x3200,
        EmergencyErrorCode::OutputVoltage => 0x3300,
        EmergencyErrorCode::Temperature => 0x4000,
        EmergencyErrorCode::AmbientTemperature => 0x4100,
        EmergencyErrorCode::DeviceTemperature => 0x4200,
        EmergencyErrorCode::DeviceHardware => 0x5000,
        EmergencyErrorCode::DeviceSoftware => 0x6000,
        EmergencyErrorCode::InternalSoftware => 0x6100,
        EmergencyErrorCode::UserSoftware => 0x6200,
        EmergencyErrorCode::DataSet => 0x6300,
        EmergencyErrorCode::AdditionalModules => 0x7000,
        EmergencyErrorCode::Monitoring => 0x8000,
        EmergencyErrorCode::Communication => 0x8100,
        EmergencyErrorCode::CommunicationCanOverrun => 0x8110,
        EmergencyErrorCode::CommunicationErrorPassiveMode => 0x8120,
        EmergencyErrorCode::CommunicationLifeGuardError => 0x8130,
        EmergencyErrorCode::CommunicationRecoveredBusOff => 0x8140,
        EmergencyErrorCode::CommunicationCanIdCollision => 0x8150,
        EmergencyErrorCode::ProtocolError => 0x8200,
        EmergencyErrorCode::ProtocolErrorPdoLength => 0x8210,
        EmergencyErrorCode::ProtocolErrorPdoLengthExceeded => 0x8220,
        EmergencyErrorCode::ProtocolErrorDamMpdo => 0x8230,
        EmergencyErrorCode::ProtocolErrorUnexpectedSyncLength => 0x8240,
        EmergencyErrorCode::ProtocolErrorRpdoTimeout => 0x8250,
        EmergencyErrorCode::ExternalError => 0x9000,
        EmergencyErrorCode::AdditionalFunctions => 0xF000,
        EmergencyErrorCode::DeviceSpecific => 0xFF00,
    }
}

/// What decoding a 16-bit EMCY error code yields: exact codes first, then
/// range buckets grouped by the high byte; `None` outside the table.
pub open spec fn spec_emergency_error_code_decode(code: u16) -> Option<EmergencyErrorCode> {
    if code == 0x8110 {
        Some(EmergencyErrorCode::CommunicationCanOverrun)
    } else if code == 0x8120 {
        Some(EmergencyErrorCode::CommunicationErrorPassiveMode)
    } else if code == 0x8130 {
        Some(EmergencyErrorCode::CommunicationLifeGuardError)
    } else if code == 0x8140 {
        Some(EmergencyErrorCode::CommunicationRecoveredBusOff)
    } else if code == 0x8150 {
        Some(EmergencyErrorCode::CommunicationCanIdCollision)
    } else if code == 0x8210 {
        Some(EmergencyErrorCode::ProtocolErrorPdoLength)
    } else if code == 0x8220 {
        Some(EmergencyErrorCode::ProtocolErrorPdoLengthExceeded)
    } else if code == 0x8230 {
        Some(EmergencyErrorCode::ProtocolErrorDamMpdo)
    } else if code == 0x8240 {
        Some(EmergencyErrorCode::ProtocolErrorUnexpectedSyncLength)
    } else if code == 0x8250 {
        Some(EmergencyErrorCode::ProtocolErrorRpdoTimeout)
    } else if 0x0000 <= code && code <= 0x00FF {
        Some(EmergencyErrorCode::ErrorResetOrNoError)
    } else if 0x1000 <= code && code <= 0x10FF {
        Some(EmergencyErrorCode::GenericError)
    } else if 0x2000 <= code && code <= 0x20FF {
        Some(EmergencyErrorCode::Current)
    } else if 0x2100 <= code && code <= 0x21FF {
        Some(EmergencyErrorCode::CurrentInputSide)
    } else if 0x2200 <= code && code <= 0x22FF {
        Some(EmergencyErrorCode::CurrentInsideDevice)
    } else if 0x2300 <= code && code <= 0x23FF {
        Some(EmergencyErrorCode::CurrentOutputSide)
    } else if 0x3000 <= code && code <= 0x30FF {
        Some(EmergencyErrorCode::Voltage)
    } else if 0x3100 <= code && code <= 0x31FF {
        Some(EmergencyErrorCode::MainsVoltage)
    } else if 0x3200 <= code && code <= 0x32FF {
        Some(EmergencyErrorCode::VoltageInsideDevice)
    } else if 0x3300 <= code && code <= 0x33FF {
        Some(EmergencyErrorCode::OutputVoltage)
    } else if 0x4000 <= code && code <= 0x40FF {
        Some(EmergencyErrorCode::Temperature)
    } else if 0x4100 <= code && code <= 0x41FF {
        Some(EmergencyErrorCode::AmbientTemperature)
    } else if 0x4200 <= code && code <= 0x42FF {
        Some(EmergencyErrorCode::DeviceTemperature)
    } else if 0x5000 <= code && code <= 0x50FF {
        Some(EmergencyErrorCode::DeviceHardware)
    } else if 0x6000 <= code && code <= 0x60FF {
        Some(EmergencyErrorCode::DeviceSoftware)
    } else if 0x6100 <= code && code <= 0x61FF {
        Some(EmergencyErrorCode::InternalSoftware)
    } else if 0x6200 <= code && code <= 0x62FF {
        Some(EmergencyErrorCode::UserSoftware)
    } else if 0x6300 <= code && code <= 0x63FF {
        Some(EmergencyErrorCode::DataSet)
    } else if 0x7000 <= code && code <= 0x70FF {
        Some(EmergencyErrorCode::AdditionalModules)
    } else if 0x8000 <= code && code <= 0x80FF {
        Some(EmergencyErrorCode::Monitoring)
    } else if 0x8100 <= code && code <= 0x81FF {
        Some(EmergencyErrorCode::Communication)
    } else if 0x8200 <= code && code <= 0x82FF {
        Some(EmergencyErrorCode::ProtocolError)
    } else if 0x9000 <= code && code <= 0x90FF {
        Some(EmergencyErrorCode::ExternalError)
    } else if 0xF000 <= code && code <= 0xF0FF {
        Some(EmergencyErrorCode::AdditionalFunctions)
    } else if 0xFF00 <= code {
        Some(EmergencyErrorCode::DeviceSpecific)
    } else {
        None
    }
}

impl EmergencyErrorCode {
    /// Decodes a 16-bit EMCY error code, preferring exact matches over range
    /// buckets; values outside the table are a parse error.
    pub fn decode(code: u16) -> (r: Result<Self, CanOpenError>)
        ensures
            r == match spec_emergency_error_code_decode(code) {
                Some(c) => Ok::<Self, CanOpenError>(c),
                None => Err::<Self, CanOpenError>(CanOpenError::ParseError),
            },
    {
        let v: Option<Self> = if code == 0x8110 {
            Some(Self::CommunicationCanOverrun)
        } else if code == 0x8120 {
            Some(Self::CommunicationErrorPassiveMode)
        } else if code == 0x8130 {
            Some(Self::CommunicationLifeGuardError)
        } else if code == 0x8140 {
            Some(Self::CommunicationRecoveredBusOff)
        } else if code == 0x8150 {
            Some(Self::CommunicationCanIdCollision)
        } else if code == 0x8210 {
            Some(Self::ProtocolErrorPdoLength)
        } else if code == 0x8220 {
            Some(Self::ProtocolErrorPdoLengthExceeded)
        } else if code == 0x8230 {
            Some(Self::ProtocolErrorDamMpdo)
        } else if code == 0x8240 {
            Some(Self::ProtocolErrorUnexpectedSyncLength)
        } else if code == 0x8250 {
            Some(Self::ProtocolErrorRpdoTimeout)
        } else if code <= 0x00FF {
            Some(Self::ErrorResetOrNoError)
        } else if 0x1000 <= code && code <= 0x10FF {
            Some(Self::GenericError)
        } else if 0x2000 <= code && code <= 0x20FF {
            Some(Self::Current)
        } else if 0x2100 <= code && code <= 0x21FF {
            Some(Self::CurrentInputSide)
        } else if 0x2200 <= code && code <= 0x22FF {
            Some(Self::CurrentInsideDevice)
        } else if 0x2300 <= code && code <= 0x23FF {
            Some(Self::CurrentOutputSide)
        } else if 0x3000 <= code && code <= 0x30FF {
            Some(Self::Voltage)
        } else if 0x3100 <= code && code <= 0x31FF {
            Some(Self::MainsVoltage)
        } else if 0x3200 <= code && code <= 0x32FF {
            Some(Self::VoltageInsideDevice)
        } else if 0x3300 <= code && code <= 0x33FF {
            Some(Self::OutputVoltage)
        } else if 0x4000 <= code && code <= 0x40FF {
            Some(Self::Temperature)
        } else if 0x4100 <= code && code <= 0x41FF {
            Some(Self::AmbientTemperature)
        } else if 0x4200 <= code && code <= 0x42FF {
            Some(Self::DeviceTemperature)
        } else if 0x5000 <= code && code <= 0x50FF {
            Some(Self::DeviceHardware)
        } else if 0x6000 <= code && code <= 0x60FF {
            Some(Self::DeviceSoftware)
        } else if 0x6100 <= code && code <= 0x61FF {
            Some(Self::InternalSoftware)
        } else if 0x6200 <= code && code <= 0x62FF {
            Some(Self::UserSoftware)
        } else if 0x6300 <= code && code <= 0x63FF {
            Some(Self::DataSet)
        } else if 0x7000 <= code && code <= 0x70FF {
            Some(Self::AdditionalModules)
        } else if 0x8000 <= code && code <= 0x80FF {
            Some(Self::Monitoring)
        } else if 0x8100 <= code && code <= 0x81FF {
            Some(Self::Communication)
        } else if 0x8200 <= code && code <= 0x82FF {
            Some(Self::ProtocolError)
        } else if 0x9000 <= code && code <= 0x90FF {
            Some(Self::ExternalError)
        } else if 0xF000 <= code && code <= 0xF0FF {
            Some(Self::AdditionalFunctions)
        } else if 0xFF00 <= code {
            Some(Self::DeviceSpecific)
        } else {
            None
        };
        match v {
            Some(c) => Ok(c),
            None => Err(CanOpenError::ParseError),
        }
    }

    /// Encodes to the canonical 16-bit value (the base of the bucket for
    /// range-bucket codes).
    pub fn encode(&self) -> (r: u16)
        ensures
            r == emergency_error_code_value(*self),
    {
        match self {
            Self::ErrorResetOrNoError => 0x0000,
            Self::GenericError => 0x1000,
            Self::Current => 0x2000,
            Self::CurrentInputSide => 0x2100,
            Self::CurrentInsideDevice => 0x2200,
            Self::CurrentOutputSide => 0x2300,
            Self::Voltage => 0x3000,
            Self::MainsVoltage => 0x3100,
            Self::VoltageInsideDevice => 0x3200,
            Self::OutputVoltage => 0x3300,
            Self::Temperature => 0x4000,
            Self::AmbientTemperature => 0x4100,
            Self::DeviceTemperature => 0x4200,
            Self::DeviceHardware => 0x5000,
            Self::DeviceSoftware => 0x6000,
            Self::InternalSoftware => 0x6100,
            Self::UserSoftware => 0x6200,
            Self::DataSet => 0x6300,
            Self::AdditionalModules => 0x7000,
            Self::Monitoring => 0x8000,
            Self::Communication => 0x8100,
            Self::CommunicationCanOverrun => 0x8110,
            Self::CommunicationErrorPassiveMode => 0x8120,
            Self::CommunicationLifeGuardError => 0x8130,
            Self::CommunicationRecoveredBusOff => 0x8140,
            Self::CommunicationCanIdCollision => 0x8150,
            Self::ProtocolError => 0x8200,
            Self::ProtocolErrorPdoLength => 0x8210,
            Self::ProtocolErrorPdoLengthExceeded => 0x8220,
            Self::ProtocolErrorDamMpdo => 0x8230,
            Self::ProtocolErrorUnexpectedSyncLength => 0x8240,
            Self::ProtocolErrorRpdoTimeout => 0x8250,
            Self::ExternalError => 0x9000,
            Self::AdditionalFunctions => 0xF000,
            Self::DeviceSpecific => 0xFF00,
        }
    }
}

/// Decoding the canonical value of any EMCY error code gives that code back:
/// the encoding is lossy only inside a range bucket, never on the canonical
/// representative.
pub proof fn lemma_emergency_error_code_round_trip(c: EmergencyErrorCode)
    ensures
        spec_emergency_error_code_decode(emergency_error_code_value(c)) == Some(c),
{
}

/// One flag of the 8-bit EMCY error register.
#[derive(Clone, Copy, Debug, PartialEq, Eq, Structural)]
pub enum EmergencyErrorRegister {
    GenericError,
    Current,
    Voltage,
    Temperature,
    CommunicationError,
    DeviceProfileSpecific,
    Reserved,
    ManufacturerSpecific,
}

/// The bit that a register flag occupies.
pub open spec fn register_flag_bit(f: EmergencyErrorRegister) -> u8 {
    match f {
        EmergencyErrorRegister::GenericError => 0x01,
        EmergencyErrorRegister::Current => 0x02,
        EmergencyErrorRegister::Voltage => 0x04,
        EmergencyErrorRegister::Temperature => 0x08,
        EmergencyErrorRegister::CommunicationError => 0x10,
        EmergencyErrorRegister::DeviceProfileSpecific => 0x20,
        EmergencyErrorRegister::Reserved => 0x40,
        EmergencyErrorRegister::ManufacturerSpecific => 0x80,
    }
}

/// The OR of the bits of all flags in the sequence.
pub open spec fn spec_register_encode(s: Seq<EmergencyErrorRegister>) -> u8
    decreases s.len(),
{
    if s.len() == 0 {
        0u8
    } else {
        spec_register_encode(s.drop_last()) | register_flag_bit(s.last())
    }
}

/// The flags whose bit is set in the byte, in register bit order.
pub open spec fn spec_register_decode(code: u8) -> Seq<EmergencyErrorRegister> {
    register_cond(code, 0x01, EmergencyErrorRegister::GenericError)
        + register_cond(code, 0x02, EmergencyErrorRegister::Current)
        + register_cond(code, 0x04, EmergencyErrorRegister::Voltage)
        + register_cond(code, 0x08, EmergencyErrorRegister::Temperature)
        + register_cond(code, 0x10, EmergencyErrorRegister::CommunicationError)
        + register_cond(code, 0x20, EmergencyErrorRegister::DeviceProfileSpecific)
        + register_cond(code, 0x40, EmergencyErrorRegister::Reserved)
        + register_cond(code, 0x80, EmergencyErrorRegister::ManufacturerSpecific)
}

/// A singleton of the flag when its bit is set in the byte, else empty.
pub open spec fn register_cond(code: u8, bit: u8, f: EmergencyErrorRegister) -> Seq<
    EmergencyErrorRegister,
> {
    if code & bit != 0 {
        seq![f]
    } else {
        Seq::empty()
    }
}

impl EmergencyErrorRegister {
    /// Splits a register byte into the set flags, in register bit order.
    pub fn decode(code: u8) -> (r: Vec<Self>)
        ensures
            r@ == spec_register_decode(code),
    {
        let ghost mut expect: Seq<Self> = Seq::empty();
        let mut errors: Vec<Self> = Vec::new();
        if code & 0x01 != 0 {
            errors.push(Self::GenericError);
        }
        proof {
            expect = expect + register_cond(code, 0x01, Self::GenericError);
            assert(errors@ =~= expect);
        }
        if code & 0x02 != 0 {
            errors.push(Self::Current);
        }
        proof {
            expect = expect + register_cond(code, 0x02, Self::Current);
            assert(errors@ =~= expect);
        }
        if code & 0x04 != 0 {
            errors.push(Self::Voltage);
        }
        proof {
            expect = expect + register_cond(code, 0x04, Self::Voltage);
            assert(errors@ =~= expect);
        }
        if code & 0x08 != 0 {
            errors.push(Self::Temperature);
        }
        proof {
            expect = expect + register_cond(code, 0x08, Self::Temperature);
            assert(errors@ =~= expect);
        }
        if code & 0x10 != 0 {
            errors.push(Self::CommunicationError);
        }
        proof {
            expect = expect + register_cond(code, 0x10, Self::CommunicationError);
            assert(errors@ =~= expect);
        }
        if code & 0x20 != 0 {
            errors.push(Self::DeviceProfileSpecific);
        }
        proof {
            expect = expect + register_cond(code, 0x20, Self::DeviceProfileSpecific);
            assert(errors@ =~= expect);
        }
        if code & 0x40 != 0 {
            errors.push(Self::Reserved);
        }
        proof {
            expect = expect + register_cond(code, 0x40, Self::Reserved);
            assert(errors@ =~= expect);
        }
        if code & 0x80 != 0 {
            errors.push(Self::ManufacturerSpecific);
        }
        proof {
            expect = expect + register_cond(code, 0x80, Self::ManufacturerSpecific);
            assert(errors@ =~= expect);
            assert(Seq::<Self>::empty() + register_cond(code, 0x01, Self::GenericError)
                =~= register_cond(code, 0x01, Self::GenericError));
            assert(expect == spec_register_decode(code));
        }
        errors
    }

    /// ORs the bits of the given flags into a register byte.
    pub fn encode(errors: &[EmergencyErrorRegister]) -> (r: u8)
        ensures
            r == spec_register_encode(errors@),
    {
        let mut code: u8 = 0;
        let mut i: usize = 0;
        while i < errors.len()
            invariant
                i <= errors@.len(),
                code == spec_register_encode(errors@.take(i as int)),
            decreases errors@.len() - i,
        {
            let bit: u8 = match errors[i] {
                Self::GenericError => 0x01,
                Self::Current => 0x02,
                Self::Voltage => 0x04,
                Self::Temperature => 0x08,
                Self::CommunicationError => 0x10,
                Self::DeviceProfileSpecific => 0x20,
                Self::Reserved => 0x40,
                Self::ManufacturerSpecific => 0x80,
            };
            code = code | bit;
            proof {
                assert(errors@.take(i + 1).drop_last() =~= errors@.take(i as int));
                assert(errors@.take(i + 1).last() == errors@[i as int]);
            }
            i = i + 1;
        }
        proof {
            assert(errors@.take(errors@.len() as int) =~= errors@);
        }
        code
    }
}

/// Appending one flag ORs its bit into the encoding.
proof fn lemma_register_encode_append_one(s: Seq<EmergencyErrorRegister>, f: EmergencyErrorRegister)
    ensures
        spec_register_encode(s + seq![f]) == spec_register_encode(s) | register_flag_bit(f),
{
    assert((s + seq![f]).drop_last() =~= s);
    assert((s + seq![f]).last() == f);
}

/// Appending an empty segment changes nothing.
proof fn lemma_register_encode_append_cond(s: Seq<EmergencyErrorRegister>, code: u8, bit: u8, f: EmergencyErrorRegister)
    requires
        register_flag_bit(f) == bit,
    ensures
        spec_register_encode(s + register_cond(code, bit, f)) == spec_register_encode(s) | (code
            & bit),
{
    if code & bit != 0 {
        lemma_register_encode_append_one(s, f);
        assert(code & bit == bit) by (bit_vector)
            requires
                code & bit != 0,
                bit == 0x01 || bit == 0x02 || bit == 0x04 || bit == 0x08 || bit == 0x10 || bit
                    == 0x20 || bit == 0x40 || bit == 0x80,
        ;
    } else {
        assert(s + register_cond(code, bit, f) =~= s);
        let e = spec_register_encode(s);
        assert(e | (code & bit) == e) by (bit_vector)
            requires
                code & bit == 0,
        ;
    }
}

/// Re-encoding the decoded flag set gives the register byte back:
/// `encode(decode(b)) == b` for every byte.
pub proof fn lemma_register_encode_decode(code: u8)
    ensures
        spec_register_encode(spec_register_decode(code)) == code,
{
    let c1 = register_cond(code, 0x01, EmergencyErrorRegister::GenericError);
    let c2 = register_cond(code, 0x02, EmergencyErrorRegister::Current);
    let c3 = register_cond(code, 0x04, EmergencyErrorRegister::Voltage);
    let c4 = register_cond(code, 0x08, EmergencyErrorRegister::Temperature);
    let c5 = register_cond(code, 0x10, EmergencyErrorRegister::CommunicationError);
    let c6 = register_cond(code, 0x20, EmergencyErrorRegister::DeviceProfileSpecific);
    let c7 = register_cond(code, 0x40, EmergencyErrorRegister::Reserved);
    let c8 = register_cond(code, 0x80, EmergencyErrorRegister::ManufacturerSpecific);
    assert(Seq::<EmergencyErrorRegister>::empty() + c1 =~= c1);
    lemma_register_encode_append_cond(
        Seq::empty(),
        code,
        0x01,
        EmergencyErrorRegister::GenericError,
    );
    lemma_register_encode_append_cond(c1, code, 0x02, EmergencyErrorRegister::Current);
    lemma_register_encode_append_cond(c1 + c2, code, 0x04, EmergencyErrorRegister::Voltage);
    lemma_register_encode_append_cond(c1 + c2 + c3, code, 0x08, EmergencyErrorRegister::Temperature);
    lemma_register_encode_append_cond(
        c1 + c2 + c3 + c4,
        code,
        0x10,
        EmergencyErrorRegister::CommunicationError,
    );
    lemma_register_encode_append_cond(
        c1 + c2 + c3 + c4 + c5,
        code,
        0x20,
        EmergencyErrorRegister::DeviceProfileSpecific,
    );
    lemma_register_encode_append_cond(
        c1 + c2 + c3 + c4 + c5 + c6,
        code,
        0x40,
        EmergencyErrorRegister::Reserved,
    );
    lemma_register_encode_append_cond(
        c1 + c2 + c3 + c4 + c5 + c6 + c7,
        code,
        0x80,
        EmergencyErrorRegister::ManufacturerSpecific,
    );
    assert(spec_register_decode(code) == c1 + c2 + c3 + c4 + c5 + c6 + c7 + c8);
    assert(spec_register_encode(Seq::<EmergencyErrorRegister>::empty()) == 0);
    assert((((((((0 | (code & 0x01)) | (code & 0x02)) | (code & 0x04)) | (code & 0x08)) | (code
        & 0x10)) | (code & 0x20)) | (code & 0x40)) | (code & 0x80) == code) by (bit_vector);
}

/// A flag is in the decoding of a byte exactly when its bit is set.
pub proof fn lemma_register_decode_contains(code: u8, f: EmergencyErrorRegister)
    ensures
        spec_register_decode(code).contains(f) <==> code & register_flag_bit(f) != 0,
{
    let d = spec_register_decode(code);
    assert forall|bit: u8, g: EmergencyErrorRegister|
        register_cond(code, bit, g).contains(f) <==> (code & bit != 0 && g == f) by {
        if code & bit != 0 {
            assert(register_cond(code, bit, g) == seq![g]);
            if g == f {
                assert(seq![g][0] == f);
                assert(seq![g].contains(f));
            } else {
                assert(forall|i: int| 0 <= i < 1 ==> seq![g][i] == g);
            }
        }
    }
    lemma_contains_concat_all(code, f);
}

/// Membership in the eight-segment concatenation reduces to membership in one
/// of the segments.
proof fn lemma_contains_concat_all(code: u8, f: EmergencyErrorRegister)
    ensures
        spec_register_decode(code).contains(f) <==> (register_cond(
            code,
            0x01,
            EmergencyErrorRegister::GenericError,
        ).contains(f) || register_cond(code, 0x02, EmergencyErrorRegister::Current).contains(f)
            || register_cond(code, 0x04, EmergencyErrorRegister::Voltage).contains(f)
            || register_cond(code, 0x08, EmergencyErrorRegister::Temperature).contains(f)
            || register_cond(code, 0x10, EmergencyErrorRegister::CommunicationError).contains(f)
            || register_cond(code, 0x20, EmergencyErrorRegister::DeviceProfileSpecific).contains(f)
            || register_cond(code, 0x40, EmergencyErrorRegister::Reserved).contains(f)
            || register_cond(code, 0x80, EmergencyErrorRegister::ManufacturerSpecific).contains(f)),
{
    let c1 = register_cond(code, 0x01, EmergencyErrorRegister::GenericError);
    let c2 = register_cond(code, 0x02, EmergencyErrorRegister::Current);
    let c3 = register_cond(code, 0x04, EmergencyErrorRegister::Voltage);
    let c4 = register_cond(code, 0x08, EmergencyErrorRegister::Temperature);
    let c5 = register_cond(code, 0x10, EmergencyErrorRegister::CommunicationError);
    let c6 = register_cond(code, 0x20, EmergencyErrorRegister::DeviceProfileSpecific);
    let c7 = register_cond(code, 0x40, EmergencyErrorRegister::Reserved);
    let c8 = register_cond(code, 0x80, EmergencyErrorRegister::ManufacturerSpecific);
    lemma_contains_concat(c1, c2, f);
    lemma_contains_concat(c1 + c2, c3, f);
    lemma_contains_concat(c1 + c2 + c3, c4, f);
    lemma_contains_concat(c1 + c2 + c3 + c4, c5, f);
    lemma_contains_concat(c1 + c2 + c3 + c4 + c5, c6, f);
    lemma_contains_concat(c1 + c2 + c3 + c4 + c5 + c6, c7, f);
    lemma_contains_concat(c1 + c2 + c3 + c4 + c5 + c6 + c7, c8, f);
}

/// Membership in a concatenation is membership in either part.
proof fn lemma_contains_concat(
    a: Seq<EmergencyErrorRegister>,
    b: Seq<EmergencyErrorRegister>,
    f: EmergencyErrorRegister,
)
    ensures
        (a + b).contains(f) <==> (a.contains(f) || b.contains(f)),
{
    if a.contains(f) {
        let i = choose|i: int| 0 <= i < a.len() && a[i] == f;
        assert((a + b)[i] == f);
    }
    if b.contains(f) {
        let i = choose|i: int| 0 <= i < b.len() && b[i] == f;
        assert((a + b)[a.len() + i] == f);
    }
    if (a + b).contains(f) {
        let i = choose|i: int| 0 <= i < (a + b).len() && (a + b)[i] == f;
        if i < a.len() {
            assert(a[i] == f);
        } else {
            assert(b[i - a.len()] == f);
        }
    }
}

/// The encoding of a flag sequence has a flag's bit set exactly when the
/// sequence contains the flag.
pub proof fn lemma_register_encode_bit(s: Seq<EmergencyErrorRegister>, f: EmergencyErrorRegister)
    ensures
        spec_register_encode(s) & register_flag_bit(f) != 0 <==> s.contains(f),
    decreases s.len(),
{
    let bf = register_flag_bit(f);
    if s.len() == 0 {
        assert(0u8 & bf == 0) by (bit_vector);
    } else {
        let s0 = s.drop_last();
        let g = s.last();
        let bg = register_flag_bit(g);
        lemma_register_encode_bit(s0, f);
        let e0 = spec_register_encode(s0);
        assert((e0 | bg) & bf != 0 <==> (e0 & bf != 0 || bg == bf)) by (bit_vector)
            requires
                (bf == 0x01 || bf == 0x02 || bf == 0x04 || bf == 0x08 || bf == 0x10 || bf == 0x20
                    || bf == 0x40 || bf == 0x80),
                (bg == 0x01 || bg == 0x02 || bg == 0x04 || bg == 0x08 || bg == 0x10 || bg == 0x20
                    || bg == 0x40 || bg == 0x80),
        ;
        assert(bg == bf <==> g == f);
        assert(s.contains(f) <==> (s0.contains(f) || g == f)) by {
            if s0.contains(f) {
                let i = choose|i: int| 0 <= i < s0.len() && s0[i] == f;
                assert(s[i] == f);
            }
            if s.contains(f) {
                let i = choose|i: int| 0 <= i < s.len() && s[i] == f;
                if i < s.len() - 1 {
                    assert(s0[i] == f);
                }
            }
        }
    }
}

/// Decoding the encoding of any flag sequence keeps exactly the same set of
/// flags: the register byte is a faithful image of the subset.
pub proof fn lemma_register_decode_encode_set(
    s: Seq<EmergencyErrorRegister>,
    f: EmergencyErrorRegister,
)
    ensures
        spec_register_decode(spec_register_encode(s)).contains(f) <==> s.contains(f),
{
    lemma_register_decode_contains(spec_register_encode(s), f);
    lemma_register_encode_bit(s, f);
}

/// A flag sequence already in register bit order round-trips exactly:
/// decoding its encoding gives the sequence itself back.
pub proof fn lemma_register_round_trip_canonical(s: Seq<EmergencyErrorRegister>)
    requires
        exists|b: u8| s == spec_register_decode(b),
    ensures
        spec_register_decode(spec_register_encode(s)) == s,
{
    let b = choose|b: u8| s == spec_register_decode(b);
    lemma_register_encode_decode(b);
}

/// SDO abort code: the 32-bit reason an SDO server gives for terminating a
/// transfer.
#[derive(Clone, Copy, Debug, PartialEq, Eq, Structural)]
pub enum AbortCode {
    ToggleBitNotAlternated,
    SdoProtocolTimedOut,
    InvalidClientServerCommandSpecifier,
    InvalidBlockSize,
    InvalidSequenceNumber,
    CrcError,
    OutOfMemory,
    UnsupportedAccessToObject,
    AttemptToReadWriteOnlyObject,
    AttemptToWriteReadOnlyObject,
    ObjectNotInDictionary,
    ObjectCannotBeMappedToPdo,
    ExceedPdoLength,
    GeneralParameterIncompatibility,
    GeneralInternalIncompatibility,
    HardwareError,
    DataTypeMismatchLengthMismatch,
    DataTypeMismatchLengthTooHigh,
    DataTypeMismatchLengthTooLow,
    SubIndexDoesNotExist,
    InvalidValueForParameter,
    ValueTooHigh,
    ValueTooLow,
    MaxLessThanMin,
    ResourceNotAvailable,
    GeneralError,
    DataTransferOrStorageFailed,
    LocalControlPreventsDataTransfer,
    DeviceStatePreventsDataTransfer,
    ObjectDictionaryGenerationFailed,
    NoDataAvailable,
}

/// The 32-bit wire value of an abort code.
pub open spec fn abort_code_value(c: AbortCode) -> u32 {
    match c {
        AbortCode::ToggleBitNotAlternated => 0x0503_0000,
        AbortCode::SdoProtocolTimedOut => 0x0504_0000,
        AbortCode::InvalidClientServerCommandSpecifier => 0x0504_0001,
        AbortCode::InvalidBlockSize => 0x0504_0002,
        AbortCode::InvalidSequenceNumber => 0x0504_0003,
        AbortCode::CrcError => 0x0504_0004,
        AbortCode::OutOfMemory => 0x0504_0005,
        AbortCode::UnsupportedAccessToObject => 0x0601_0000,
        AbortCode::AttemptToReadWriteOnlyObject => 0x0601_0001,
        AbortCode::AttemptToWriteReadOnlyObject => 0x0601_0002,
        AbortCode::ObjectNotInDictionary => 0x0602_0000,
        AbortCode::ObjectCannotBeMappedToPdo => 0x0604_0041,
        AbortCode::ExceedPdoLength => 0x0604_0042,
        AbortCode::GeneralParameterIncompatibility => 0x0604_0043,
        AbortCode::GeneralInternalIncompatibility => 0x0604_0047,
        AbortCode::HardwareError => 0x0606_0000,
        AbortCode::DataTypeMismatchLengthMismatch => 0x0607_0010,
        AbortCode::DataTypeMismatchLengthTooHigh => 0x0607_0012,
        AbortCode::DataTypeMismatchLengthTooLow => 0x0607_0013,
        AbortCode::SubIndexDoesNotExist => 0x0609_0011,
        AbortCode::InvalidValueForParameter => 0x0609_0030,
        AbortCode::ValueTooHigh => 0x0609_0031,
        AbortCode::ValueTooLow => 0x0609_0032,
        AbortCode::MaxLessThanMin => 0x0609_0036,
        AbortCode::ResourceNotAvailable => 0x060A_0023,
        AbortCode::GeneralError => 0x0800_0000,
        AbortCode::DataTransferOrStorageFailed => 0x0800_0020,
        AbortCode::LocalControlPreventsDataTransfer => 0x0800_0021,
        AbortCode::DeviceStatePreventsDataTransfer => 0x0800_0022,
        AbortCode::ObjectDictionaryGenerationFailed => 0x0800_0023,
        AbortCode::NoDataAvailable => 0x0800_0024,
    }
}

/// What decoding a 32-bit abort code yields: the table is one-to-one and
/// unknown values yield nothing.
pub open spec fn spec_abort_code_decode(code: u32) -> Option<AbortCode> {
    if code == 0x0503_0000 {
        Some(AbortCode::ToggleBitNotAlternated)
    } else if code == 0x0504_0000 {
        Some(AbortCode::SdoProtocolTimedOut)
    } else if code == 0x0504_0001 {
        Some(AbortCode::InvalidClientServerCommandSpecifier)
    } else if code == 0x0504_0002 {
        Some(AbortCode::InvalidBlockSize)
    } else if code == 0x0504_0003 {
        Some(AbortCode::InvalidSequenceNumber)
    } else if code == 0x0504_0004 {
        Some(AbortCode::CrcError)
    } else if code == 0x0504_0005 {
        Some(AbortCode::OutOfMemory)
    } else if code == 0x0601_0000 {
        Some(AbortCode::UnsupportedAccessToObject)
    } else if code == 0x0601_0001 {
        Some(AbortCode::AttemptToReadWriteOnlyObject)
    } else if code == 0x0601_0002 {
        Some(AbortCode::AttemptToWriteReadOnlyObject)
    } else if code == 0x0602_0000 {
        Some(AbortCode::ObjectNotInDictionary)
    } else if code == 0x0604_0041 {
        Some(AbortCode::ObjectCannotBeMappedToPdo)
    } else if code == 0x0604_0042 {
        Some(AbortCode::ExceedPdoLength)
    } else if code == 0x0604_0043 {
        Some(AbortCode::GeneralParameterIncompatibility)
    } else if code == 0x0604_0047 {
        Some(AbortCode::GeneralInternalIncompatibility)
    } else if code == 0x0606_0000 {
        Some(AbortCode::HardwareError)
    } else if code == 0x0607_0010 {
        Some(AbortCode::DataTypeMismatchLengthMismatch)
    } else if code == 0x0607_0012 {
        Some(AbortCode::DataTypeMismatchLengthTooHigh)
    } else if code == 0x0607_0013 {
        Some(AbortCode::DataTypeMismatchLengthTooLow)
    } else if code == 0x0609_0011 {
        Some(AbortCode::SubIndexDoesNotExist)
    } else if code == 0x0609_0030 {
        Some(AbortCode::InvalidValueForParameter)
    } else if code == 0x0609_0031 {
        Some(AbortCode::ValueTooHigh)
    } else if code == 0x0609_0032 {
        Some(AbortCode::ValueTooLow)
    } else if code == 0x0609_0036 {
        Some(AbortCode::MaxLessThanMin)
    } else if code == 0x060A_0023 {
        Some(AbortCode::ResourceNotAvailable)
    } else if code == 0x0800_0000 {
        Some(AbortCode::GeneralError)
    } else if code == 0x0800_0020 {
        Some(AbortCode::DataTransferOrStorageFailed)
    } else if code == 0x0800_0021 {
        Some(AbortCode::LocalControlPreventsDataTransfer)
    } else if code == 0x0800_0022 {
        Some(AbortCode::DeviceStatePreventsDataTransfer)
    } else if code == 0x0800_0023 {
        Some(AbortCode::ObjectDictionaryGenerationFailed)
    } else if code == 0x0800_0024 {
        Some(AbortCode::NoDataAvailable)
    } else {
        None
    }
}

impl AbortCode {
    /// Looks a 32-bit abort code up in the table; unknown values yield
    /// `None`.
    pub fn decode(code: u32) -> (r: Option<Self>)
        ensures
            r == spec_abort_code_decode(code),
    {
        if code == 0x0503_0000 {
            Some(Self::ToggleBitNotAlternated)
        } else if code == 0x0504_0000 {
            Some(Self::SdoProtocolTimedOut)
        } else if code == 0x0504_0001 {
            Some(Self::InvalidClientServerCommandSpecifier)
        } else if code == 0x0504_0002 {
            Some(Self::InvalidBlockSize)
        } else if code == 0x0504_0003 {
            Some(Self::InvalidSequenceNumber)
        } else if code == 0x0504_0004 {
            Some(Self::CrcError)
        } else if code == 0x0504_0005 {
            Some(Self::OutOfMemory)
        } else if code == 0x0601_0000 {
            Some(Self::UnsupportedAccessToObject)
        } else if code == 0x0601_0001 {
            Some(Self::AttemptToReadWriteOnlyObject)
        } else if code == 0x0601_0002 {
            Some(Self::AttemptToWriteReadOnlyObject)
        } else if code == 0x0602_0000 {
            Some(Self::ObjectNotInDictionary)
        } else if code == 0x0604_0041 {
            Some(Self::ObjectCannotBeMappedToPdo)
        } else if code == 0x0604_0042 {
            Some(Self::ExceedPdoLength)
        } else if code == 0x0604_0043 {
            Some(Self::GeneralParameterIncompatibility)
        } else if code == 0x0604_0047 {
            Some(Self::GeneralInternalIncompatibility)
        } else if code == 0x0606_0000 {
            Some(Self::HardwareError)
        } else if code == 0x0607_0010 {
            Some(Self::DataTypeMismatchLengthMismatch)
        } else if code == 0x0607_0012 {
            Some(Self::DataTypeMismatchLengthTooHigh)
        } else if code == 0x0607_0013 {
            Some(Self::DataTypeMismatchLengthTooLow)
        } else if code == 0x0609_0011 {
            Some(Self::SubIndexDoesNotExist)
        } else if code == 0x0609_0030 {
            Some(Self::InvalidValueForParameter)
        } else if code == 0x0609_0031 {
            Some(Self::ValueTooHigh)
        } else if code == 0x0609_0032 {
            Some(Self::ValueTooLow)
        } else if code == 0x0609_0036 {
            Some(Self::MaxLessThanMin)
        } else if code == 0x060A_0023 {
            Some(Self::ResourceNotAvailable)
        } else if code == 0x0800_0000 {
            Some(Self::GeneralError)
        } else if code == 0x0800_0020 {
            Some(Self::DataTransferOrStorageFailed)
        } else if code == 0x0800_0021 {
            Some(Self::LocalControlPreventsDataTransfer)
        } else if code == 0x0800_0022 {
            Some(Self::DeviceStatePreventsDataTransfer)
        } else if code == 0x0800_0023 {
            Some(Self::ObjectDictionaryGenerationFailed)
        } else if code == 0x0800_0024 {
            Some(Self::NoDataAvailable)
        } else {
            None
        }
    }

    /// Encodes to the 32-bit wire value.
    pub fn encode(&self) -> (r: u32)
        ensures
            r == abort_code_value(*self),
    {
        match self {
            Self::ToggleBitNotAlternated => 0x0503_0000,
            Self::SdoProtocolTimedOut => 0x0504_0000,
            Self::InvalidClientServerCommandSpecifier => 0x0504_0001,
            Self::InvalidBlockSize => 0x0504_0002,
            Self::InvalidSequenceNumber => 0x0504_0003,
            Self::CrcError => 0x0504_0004,
            Self::OutOfMemory => 0x0504_0005,
            Self::UnsupportedAccessToObject => 0x0601_0000,
            Self::AttemptToReadWriteOnlyObject => 0x0601_0001,
            Self::AttemptToWriteReadOnlyObject => 0x0601_0002,
            Self::ObjectNotInDictionary => 0x0602_0000,
            Self::ObjectCannotBeMappedToPdo => 0x0604_0041,
            Self::ExceedPdoLength => 0x0604_0042,
            Self::GeneralParameterIncompatibility => 0x0604_0043,
            Self::GeneralInternalIncompatibility => 0x0604_0047,
            Self::HardwareError => 0x0606_0000,
            Self::DataTypeMismatchLengthMismatch => 0x0607_0010,
            Self::DataTypeMismatchLengthTooHigh => 0x0607_0012,
            Self::DataTypeMismatchLengthTooLow => 0x0607_0013,
            Self::SubIndexDoesNotExist => 0x0609_0011,
            Self::InvalidValueForParameter => 0x0609_0030,
            Self::ValueTooHigh => 0x0609_0031,
            Self::ValueTooLow => 0x0609_0032,
            Self::MaxLessThanMin => 0x0609_0036,
            Self::ResourceNotAvailable => 0x060A_0023,
            Self::GeneralError => 0x0800_0000,
            Self::DataTransferOrStorageFailed => 0x0800_0020,
            Self::LocalControlPreventsDataTransfer => 0x0800_0021,
            Self::DeviceStatePreventsDataTransfer => 0x0800_0022,
            Self::ObjectDictionaryGenerationFailed => 0x0800_0023,
            Self::NoDataAvailable => 0x0800_0024,
        }
    }
}

/// Decoding the encoding of any abort code gives that code back: the table
/// is one-to-one.
pub proof fn lemma_abort_code_round_trip(c: AbortCode)
    ensures
        spec_abort_code_decode(abort_code_value(c)) == Some(c),
{
}

} // verus!
