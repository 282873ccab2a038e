//! Frame codecs for the single-frame CANopen message types: NMT, SYNC,
//! EMCY, node guarding and PDO, together with their round-trip laws.

use vstd::prelude::*;

use crate::enums::{
    spec_emergency_error_code_decode, spec_register_decode, spec_register_encode,
    emergency_error_code_value, lemma_emergency_error_code_round_trip,
    lemma_register_encode_decode, EmergencyErrorCode, EmergencyErrorRegister,
};
use crate::error::CanOpenError;
use crate::frame::{
    lemma_u16_le_round_trip, u16_from_le, u16_hi, u16_lo, CanFrame, CanId, SpecFrame,
};

verus! {

/// Maps the payload of a decode result through the view, leaving errors as
/// they are.
pub open spec fn view_result<T: View>(r: Result<T, CanOpenError>) -> Result<
    T::V,
    CanOpenError,
> {
    match r {
        Ok(v) => Ok(v@),
        Err(e) => Err(e),
    }
}

/// The state an NMT command asks a node to enter.
#[derive(Clone, Copy, Debug, PartialEq, Eq, Structural)]
pub enum NmtFunction {
    EnterOperational,
    EnterStop,
    EnterPreOperational,
    ResetNode,
    ResetCommunication,
}

/// The wire byte of an NMT function.
pub open spec fn nmt_function_value(f: NmtFunction) -> u8 {
    match f {
        NmtFunction::EnterOperational => 0x01,
        NmtFunction::EnterStop => 0x02,
        NmtFunction::EnterPreOperational => 0x80,
        NmtFunction::ResetNode => 0x81,
        NmtFunction::ResetCommunication => 0x82,
    }
}

/// The NMT function a wire byte denotes, if any.
pub open spec fn spec_nmt_function_decode(b: u8) -> Option<NmtFunction> {
    if b == 0x01 {
        Some(NmtFunction::EnterOperational)
    } else if b == 0x02 {
        Some(NmtFunction::EnterStop)
    } else if b == 0x80 {
        Some(NmtFunction::EnterPreOperational)
    } else if b == 0x81 {
        Some(NmtFunction::ResetNode)
    } else if b == 0x82 {
        Some(NmtFunction::ResetCommunication)
    } else {
        None
    }
}

/// Network management: commands a node (addressed in the payload, not the
/// COB-ID) into an NMT state.
#[derive(Clone, Copy, Debug, PartialEq, Eq, Structural)]
pub struct Nmt {
    pub function: NmtFunction,
    pub target_node: u8,
}

/// The two payload bytes of an NMT message.
pub open spec fn spec_nmt_bytes(m: Nmt) -> Seq<u8> {
    seq![nmt_function_value(m.function), m.target_node]
}

/// What decoding a frame as NMT yields. The identifier plays no part: the
/// dispatcher has already routed COB-ID 0x000 here.
pub open spec fn spec_nmt_decode(f: SpecFrame) -> Result<Nmt, CanOpenError> {
    if f.data.len() < 2 {
        Err(CanOpenError::ParseError)
    } else {
        match spec_nmt_function_decode(f.data[0]) {
            Some(function) => Ok(Nmt { function, target_node: f.data[1] }),
            None => Err(CanOpenError::ParseError),
        }
    }
}

impl Nmt {
    pub fn new(function: NmtFunction, target_node: u8) -> (r: Self)
        ensures
            r == (Nmt { function, target_node }),
    {
        Nmt { function, target_node }
    }

    /// Writes COB-ID 0x000 and the two payload bytes.
    pub fn encode(&self, frame: &mut CanFrame)
        ensures
            final(frame).id == CanId::Standard(0x000),
            final(frame).data@ == spec_nmt_bytes(*self),
            final(frame).wf(),
    {
        frame.id = CanId::Standard(0x000);
        let mut data: Vec<u8> = Vec::new();
        let fb: u8 = match self.function {
            NmtFunction::EnterOperational => 0x01,
            NmtFunction::EnterStop => 0x02,
            NmtFunction::EnterPreOperational => 0x80,
            NmtFunction::ResetNode => 0x81,
            NmtFunction::ResetCommunication => 0x82,
        };
        data.push(fb);
        data.push(self.target_node);
        frame.data = data;
        proof {
            assert(frame.data@ =~= spec_nmt_bytes(*self));
        }
    }

    /// Reads the two payload bytes; a short payload or an unknown function
    /// byte is a parse error. Extra bytes are ignored.
    pub fn decode(frame: &CanFrame) -> (r: Result<Nmt, CanOpenError>)
        ensures
            r == spec_nmt_decode(frame@),
    {
        if frame.data.len() < 2 {
            return Err(CanOpenError::ParseError);
        }
        let fb: u8 = frame.data[0];
        let function: NmtFunction = if fb == 0x01 {
            NmtFunction::EnterOperational
        } else if fb == 0x02 {
            NmtFunction::EnterStop
        } else if fb == 0x80 {
            NmtFunction::EnterPreOperational
        } else if fb == 0x81 {
            NmtFunction::ResetNode
        } else if fb == 0x82 {
            NmtFunction::ResetCommunication
        } else {
            return Err(CanOpenError::ParseError);
        };
        Ok(Nmt { function, target_node: frame.data[1] })
    }
}

/// Decoding an encoded NMT message gives the message back.
pub proof fn lemma_nmt_round_trip(m: Nmt)
    ensures
        spec_nmt_decode(SpecFrame { id: CanId::Standard(0x000), data: spec_nmt_bytes(m) }) == Ok::<
            Nmt,
            CanOpenError,
        >(m),
{
}

/// Synchronization: an empty broadcast at COB-ID 0x080.
#[derive(Clone, Copy, Debug, PartialEq, Eq, Structural)]
pub struct Sync;

/// What decoding a frame as SYNC yields: COB-ID 0x080 and an empty payload,
/// anything else is rejected.
pub open spec fn spec_sync_decode(f: SpecFrame) -> Result<Sync, CanOpenError> {
    match f.std_id() {
        None => Err(CanOpenError::CanVersion),
        Some(id) => if id != 0x80 {
            Err(CanOpenError::BadMessage)
        } else if f.data.len() != 0 {
            Err(CanOpenError::BadMessage)
        } else {
            Ok(Sync)
        },
    }
}

impl Sync {
    /// Writes COB-ID 0x080 and an empty payload.
    pub fn encode(&self, frame: &mut CanFrame)
        ensures
            final(frame).id == CanId::Standard(0x080),
            final(frame).data@ == Seq::<u8>::empty(),
            final(frame).wf(),
    {
        frame.id = CanId::Standard(0x080);
        frame.data = Vec::new();
        proof {
            assert(frame.data@ =~= Seq::<u8>::empty());
        }
    }

    /// Accepts only COB-ID 0x080 with an empty payload.
    pub fn decode(frame: &CanFrame) -> (r: Result<Sync, CanOpenError>)
        ensures
            r == spec_sync_decode(frame@),
    {
        let id = match frame.id {
            CanId::Standard(id) => id,
            CanId::Extended(_) => {
                return Err(CanOpenError::CanVersion);
            },
        };
        if id != 0x80 {
            Err(CanOpenError::BadMessage)
        } else if frame.data.len() != 0 {
            Err(CanOpenError::BadMessage)
        } else {
            Ok(Sync)
        }
    }
}

/// Decoding an encoded SYNC message gives the message back.
pub proof fn lemma_sync_round_trip()
    ensures
        spec_sync_decode(SpecFrame { id: CanId::Standard(0x080), data: Seq::empty() }) == Ok::<
            Sync,
            CanOpenError,
        >(Sync),
{
}

/// Emergency: a node's announcement of an error condition, with the error
/// code, the error-register flags and five vendor bytes.
#[derive(Clone, Debug, PartialEq)]
pub struct Emergency {
    pub node_id: u8,
    pub error_code: EmergencyErrorCode,
    pub error_register: Vec<EmergencyErrorRegister>,
    pub vendor_specific: Vec<u8>,
}

/// The mathematical image of an emergency message.
#[verifier::ext_equal]
pub struct SpecEmergency {
    pub node_id: u8,
    pub error_code: EmergencyErrorCode,
    pub error_register: Seq<EmergencyErrorRegister>,
    pub vendor_specific: Seq<u8>,
}

impl View for Emergency {
    type V = SpecEmergency;

    open spec fn view(&self) -> SpecEmergency {
        SpecEmergency {
            node_id: self.node_id,
            error_code: self.error_code,
            error_register: self.error_register@,
            vendor_specific: self.vendor_specific@,
        }
    }
}

impl SpecEmergency {
    /// The vendor field carries exactly five bytes.
    pub open spec fn wf(self) -> bool {
        self.vendor_specific.len() == 5
    }
}

/// A byte sequence padded with zeros to five bytes.
pub open spec fn pad_to_5(s: Seq<u8>) -> Seq<u8> {
    s + Seq::new((5 - s.len()) as nat, |i: int| 0u8)
}

/// The eight payload bytes of an emergency message: error code
/// little-endian, register byte, five vendor bytes.
pub open spec fn spec_emergency_bytes(e: SpecEmergency) -> Seq<u8> {
    seq![
        u16_lo(emergency_error_code_value(e.error_code)),
        u16_hi(emergency_error_code_value(e.error_code)),
        spec_register_encode(e.error_register),
    ] + e.vendor_specific
}

/// What decoding a frame as EMCY yields: at least eight payload bytes, a
/// standard identifier in the EMCY range, and a known error code.
pub open spec fn spec_emergency_decode(f: SpecFrame) -> Result<SpecEmergency, CanOpenError> {
    if f.data.len() < 8 {
        Err(CanOpenError::ParseError)
    } else {
        match f.std_id() {
            None => Err(CanOpenError::CanVersion),
            Some(id) => if !(0x081 <= id && id <= 0x0FF) {
                Err(CanOpenError::BadMessage)
            } else {
                match spec_emergency_error_code_decode(u16_from_le(f.data[0], f.data[1])) {
                    None => Err(CanOpenError::ParseError),
                    Some(code) => Ok(
                        SpecEmergency {
                            node_id: (id - 0x080) as u8,
                            error_code: code,
                            error_register: spec_register_decode(f.data[2]),
                            vendor_specific: f.data.subrange(3, 8),
                        },
                    ),
                }
            },
        }
    }
}

impl Emergency {
    /// The vendor field carries exactly five bytes.
    pub open spec fn wf(&self) -> bool {
        self@.wf()
    }

    pub fn new(
        node_id: u8,
        error_code: EmergencyErrorCode,
        error_register: Vec<EmergencyErrorRegister>,
        vendor_specific: &[u8],
    ) -> (r: Self)
        requires
            vendor_specific@.len() <= 5,
        ensures
            r@ == (SpecEmergency {
                node_id,
                error_code,
                error_register: error_register@,
                vendor_specific: pad_to_5(vendor_specific@),
            }),
            r.wf(),
    {
        let r = Emergency {
            node_id,
            error_code,
            error_register,
            vendor_specific: Self::to_vendor_specific(vendor_specific),
        };
        proof {
            assert(r@ =~= (SpecEmergency {
                node_id,
                error_code,
                error_register: r.error_register@,
                vendor_specific: pad_to_5(vendor_specific@),
            }));
        }
        r
    }

    /// Copies the given bytes and zero-pads to five.
    fn to_vendor_specific(data: &[u8]) -> (r: Vec<u8>)
        requires
            data@.len() <= 5,
        ensures
            r@ == pad_to_5(data@),
    {
        let mut arr: Vec<u8> = vstd::slice::slice_to_vec(data);
        while arr.len() < 5
            invariant
                data@.len() <= 5,
                arr@.len() <= 5,
                arr@ == data@ + Seq::new((arr@.len() - data@.len()) as nat, |i: int| 0u8),
            decreases 5 - arr@.len(),
        {
            arr.push(0);
            proof {
                assert(arr@ =~= data@ + Seq::new((arr@.len() - data@.len()) as nat, |i: int| 0u8));
            }
        }
        proof {
            assert(arr@ =~= pad_to_5(data@));
        }
        arr
    }

    /// Writes COB-ID 0x080 + node and the eight payload bytes.
    pub fn encode(&self, frame: &mut CanFrame)
        requires
            self.wf(),
        ensures
            final(frame).id == CanId::Standard((0x080 + self.node_id as u16) as u16),
            final(frame).data@ == spec_emergency_bytes(self@),
            final(frame).wf(),
    {
        frame.id = CanId::Standard(0x080 + self.node_id as u16);
        let code: u16 = self.error_code.encode();
        let ghost sb: Seq<u8> = spec_emergency_bytes(self@);
        let mut data: Vec<u8> = Vec::new();
        data.push((code & 0xFF) as u8);
        data.push((code >> 8) as u8);
        data.push(EmergencyErrorRegister::encode(self.error_register.as_slice()));
        proof {
            assert(sb.len() == 8);
            assert(data@ =~= sb.subrange(0, 3));
        }
        let mut i: usize = 0;
        while i < 5
            invariant
                self.wf(),
                i <= 5,
                sb == spec_emergency_bytes(self@),
                data@ =~= sb.subrange(0, 3 + i as int),
            decreases 5 - i,
        {
            data.push(self.vendor_specific[i]);
            i = i + 1;
            proof {
                assert(data@ =~= sb.subrange(0, 3 + i as int));
            }
        }
        frame.data = data;
        proof {
            assert(sb.subrange(0, 8) =~= sb);
        }
    }

    /// Needs at least eight payload bytes and a standard identifier in the
    /// EMCY range; the node is taken from the COB-ID.
    pub fn decode(frame: &CanFrame) -> (r: Result<Emergency, CanOpenError>)
        ensures
            view_result(r) == spec_emergency_decode(frame@),
    {
        if frame.data.len() < 8 {
            return Err(CanOpenError::ParseError);
        }
        let id = match frame.id {
            CanId::Standard(id) => id,
            CanId::Extended(_) => {
                return Err(CanOpenError::CanVersion);
            },
        };
        if !(0x081 <= id && id <= 0x0FF) {
            return Err(CanOpenError::BadMessage);
        }
        let code_raw: u16 = (frame.data[0] as u16) | ((frame.data[1] as u16) << 8);
        let error_code = match EmergencyErrorCode::decode(code_raw) {
            Ok(c) => c,
            Err(e) => {
                return Err(e);
            },
        };
        let error_register = EmergencyErrorRegister::decode(frame.data[2]);
        let mut vendor_specific: Vec<u8> = Vec::new();
        let mut i: usize = 3;
        while i < 8
            invariant
                frame.data@.len() >= 8,
                3 <= i <= 8,
                vendor_specific@ =~= frame.data@.subrange(3, i as int),
            decreases 8 - i,
        {
            vendor_specific.push(frame.data[i]);
            i = i + 1;
            proof {
                assert(vendor_specific@ =~= frame.data@.subrange(3, i as int));
            }
        }
        let r = Emergency { node_id: (id - 0x080) as u8, error_code, error_register, vendor_specific };
        proof {
            assert(view_result(Ok::<Emergency, CanOpenError>(r)) =~= spec_emergency_decode(
                frame@,
            ));
        }
        Ok(r)
    }
}

/// Decoding an encoded emergency message gives the message back, provided
/// the node is addressable (1..=127) and the register flags are in canonical
/// register bit order. The error code always survives: encoding maps each
/// code to the canonical base of its bucket, which decodes to the same code.
pub proof fn lemma_emergency_round_trip(e: SpecEmergency)
    requires
        e.wf(),
        1 <= e.node_id <= 127,
        exists|b: u8| e.error_register == spec_register_decode(b),
    ensures
        spec_emergency_decode(
            SpecFrame {
                id: CanId::Standard((0x080 + e.node_id) as u16),
                data: spec_emergency_bytes(e),
            },
        ) == Ok::<SpecEmergency, CanOpenError>(e),
{
    let f = SpecFrame {
        id: CanId::Standard((0x080 + e.node_id) as u16),
        data: spec_emergency_bytes(e),
    };
    lemma_u16_le_round_trip(emergency_error_code_value(e.error_code));
    lemma_emergency_error_code_round_trip(e.error_code);
    let b = choose|b: u8| e.error_register == spec_register_decode(b);
    lemma_register_encode_decode(b);
    assert(f.data.subrange(3, 8) =~= e.vendor_specific);
    assert(spec_emergency_decode(f) matches Ok(d) && d =~= e);
}

/// The NMT state a node reports in its guard message.
#[derive(Clone, Copy, Debug, PartialEq, Eq, Structural)]
pub enum GuardStatus {
    Boot,
    Stopped,
    Operational,
    PreOperational,
}

/// The wire value of a guard status (low seven bits of the payload byte).
pub open spec fn guard_status_value(s: GuardStatus) -> u8 {
    match s {
        GuardStatus::Boot => 0x00,
        GuardStatus::Stopped => 0x04,
        GuardStatus::Operational => 0x05,
        GuardStatus::PreOperational => 0x7F,
    }
}

/// The guard status a wire value denotes, if any.
pub open spec fn spec_guard_status_decode(b: u8) -> Option<GuardStatus> {
    if b == 0x00 {
        Some(GuardStatus::Boot)
    } else if b == 0x04 {
        Some(GuardStatus::Stopped)
    } else if b == 0x05 {
        Some(GuardStatus::Operational)
    } else if b == 0x7F {
        Some(GuardStatus::PreOperational)
    } else {
        None
    }
}

impl GuardStatus {
    /// The guard status a byte denotes; other values are a parse error.
    pub fn try_from_byte(value: u8) -> (r: Result<GuardStatus, CanOpenError>)
        ensures
            r == match spec_guard_status_decode(value) {
                Some(s) => Ok::<GuardStatus, CanOpenError>(s),
                None => Err::<GuardStatus, CanOpenError>(CanOpenError::ParseError),
            },
    {
        if value == 0x00 {
            Ok(GuardStatus::Boot)
        } else if value == 0x04 {
            Ok(GuardStatus::Stopped)
        } else if value == 0x05 {
            Ok(GuardStatus::Operational)
        } else if value == 0x7F {
            Ok(GuardStatus::PreOperational)
        } else {
            Err(CanOpenError::ParseError)
        }
    }
}

/// Node guarding: a node's periodic liveness report, carrying a toggle bit
/// and its NMT state.
#[derive(Clone, Copy, Debug, PartialEq, Eq, Structural)]
pub struct Guard {
    pub node_id: u8,
    pub toggle: bool,
    pub status: GuardStatus,
}

/// The single payload byte of a guard message.
pub open spec fn guard_byte(g: Guard) -> u8 {
    (if g.toggle {
        0x80u8
    } else {
        0u8
    }) | guard_status_value(g.status)
}

/// What decoding a frame as a guard message yields: a non-empty payload, a
/// standard identifier in the guard range, and a known status; the node is
/// taken from the COB-ID.
pub open spec fn spec_guard_decode(f: SpecFrame) -> Result<Guard, CanOpenError> {
    if f.data.len() == 0 {
        Err(CanOpenError::ParseError)
    } else {
        match f.std_id() {
            None => Err(CanOpenError::CanVersion),
            Some(id) => if !(0x700 <= id && id <= 0x77F) {
                Err(CanOpenError::BadMessage)
            } else {
                match spec_guard_status_decode(f.data[0] & 0x7F) {
                    None => Err(CanOpenError::ParseError),
                    Some(status) => Ok(
                        Guard {
                            node_id: (id - 0x700) as u8,
                            toggle: f.data[0] & 0x80 != 0,
                            status,
                        },
                    ),
                }
            },
        }
    }
}

impl Guard {
    pub fn new(node_id: u8, toggle: bool, status: GuardStatus) -> (r: Self)
        ensures
            r == (Guard { node_id, toggle, status }),
    {
        Guard { node_id, toggle, status }
    }

    /// Writes COB-ID 0x700 + node and the single payload byte.
    pub fn encode(&self, frame: &mut CanFrame)
        ensures
            final(frame).id == CanId::Standard((0x700 + self.node_id as u16) as u16),
            final(frame).data@ == seq![guard_byte(*self)],
            final(frame).wf(),
    {
        frame.id = CanId::Standard(0x700 + self.node_id as u16);
        let sv: u8 = match self.status {
            GuardStatus::Boot => 0x00,
            GuardStatus::Stopped => 0x04,
            GuardStatus::Operational => 0x05,
            GuardStatus::PreOperational => 0x7F,
        };
        let b: u8 = (if self.toggle {
            0x80u8
        } else {
            0u8
        }) | sv;
        let mut data: Vec<u8> = Vec::new();
        data.push(b);
        frame.data = data;
        proof {
            assert(frame.data@ =~= seq![guard_byte(*self)]);
        }
    }

    /// Needs a non-empty payload and a standard identifier in the guard
    /// range; the node is taken from the COB-ID.
    pub fn decode(frame: &CanFrame) -> (r: Result<Guard, CanOpenError>)
        ensures
            r == spec_guard_decode(frame@),
    {
        if frame.data.len() == 0 {
            return Err(CanOpenError::ParseError);
        }
        let id = match frame.id {
            CanId::Standard(id) => id,
            CanId::Extended(_) => {
                return Err(CanOpenError::CanVersion);
            },
        };
        if !(0x700 <= id && id <= 0x77F) {
            return Err(CanOpenError::BadMessage);
        }
        let b: u8 = frame.data[0];
        let status = match GuardStatus::try_from_byte(b & 0x7F) {
            Ok(s) => s,
            Err(e) => {
                return Err(e);
            },
        };
        Ok(Guard { node_id: (id - 0x700) as u8, toggle: b & 0x80 != 0, status })
    }
}

/// Decoding an encoded guard message gives the message back, provided the
/// node fits the guard identifier range (node id at most 0x7F).
pub proof fn lemma_guard_round_trip(g: Guard)
    requires
        g.node_id <= 0x7F,
    ensures
        spec_guard_decode(
            SpecFrame {
                id: CanId::Standard((0x700 + g.node_id) as u16),
                data: seq![guard_byte(g)],
            },
        ) == Ok::<Guard, CanOpenError>(g),
{
    let tb: u8 = if g.toggle {
        0x80u8
    } else {
        0u8
    };
    let sv: u8 = guard_status_value(g.status);
    assert((tb | sv) & 0x7F == sv && ((tb | sv) & 0x80 != 0 <==> tb == 0x80)) by (bit_vector)
        requires
            tb == 0x00 || tb == 0x80,
            sv == 0x00 || sv == 0x04 || sv == 0x05 || sv == 0x7F,
    ;
}

/// Whether a frame travels to the node (request) or from it (response),
/// seen from the remote device: a request is received by the device.
#[derive(Debug, Clone, Copy, PartialEq, Eq, Structural)]
pub enum ReqRes {
    Req,
    Res,
}

/// The SDO COB-ID base of a direction.
pub open spec fn reqres_sdo_base(d: ReqRes) -> u16 {
    match d {
        ReqRes::Req => 0x600,
        ReqRes::Res => 0x580,
    }
}

/// The direction an SDO COB-ID encodes: the response window is
/// 0x580..=0x5FF, everything else is treated as a request.
pub open spec fn spec_reqres_from_sdo_id(id: u16) -> ReqRes {
    if id & 0x780 == 0x580 {
        ReqRes::Res
    } else {
        ReqRes::Req
    }
}

impl ReqRes {
    /// The SDO COB-ID base of this direction (0x600 requests, 0x580
    /// responses).
    pub fn to_u16_sdo(&self) -> (r: u16)
        ensures
            r == reqres_sdo_base(*self),
    {
        match self {
            ReqRes::Req => 0x600,
            ReqRes::Res => 0x580,
        }
    }

    /// The direction of an SDO COB-ID.
    pub fn from_u16_sdo(id: u16) -> (r: Self)
        ensures
            r == spec_reqres_from_sdo_id(id),
    {
        if id & 0x780 == 0x580 {
            ReqRes::Res
        } else {
            ReqRes::Req
        }
    }
}

/// Process data object: an unacknowledged broadcast of one to eight raw
/// bytes on one of four PDO channels.
#[derive(Clone, Debug, PartialEq)]
pub struct Pdo {
    pub node_id: u8,
    pub pdo_index: u8,
    pub reqres: ReqRes,
    pub data: Vec<u8>,
}

/// The mathematical image of a PDO.
#[verifier::ext_equal]
pub struct SpecPdo {
    pub node_id: u8,
    pub pdo_index: u8,
    pub reqres: ReqRes,
    pub data: Seq<u8>,
}

impl View for Pdo {
    type V = SpecPdo;

    open spec fn view(&self) -> SpecPdo {
        SpecPdo {
            node_id: self.node_id,
            pdo_index: self.pdo_index,
            reqres: self.reqres,
            data: self.data@,
        }
    }
}

impl SpecPdo {
    /// A PDO carries one to eight bytes.
    pub open spec fn wf(self) -> bool {
        1 <= self.data.len() <= 8
    }
}

/// The COB-ID of a PDO: request channels sit one function code above the
/// matching response channel.
pub open spec fn spec_pdo_id(p: SpecPdo) -> u16 {
    (p.node_id + ((p.pdo_index + (if p.reqres == ReqRes::Req {
        1u8
    } else {
        0u8
    })) as u16) * 0x100) as u16
}

/// What decoding a frame as a PDO yields: the direction from bit 0x80, the
/// channel from the function code, the node from the low bits, the payload
/// as it stands. Identifiers below the PDO window that would claim a request
/// channel zero are rejected.
pub open spec fn spec_pdo_decode(f: SpecFrame) -> Result<SpecPdo, CanOpenError> {
    match f.std_id() {
        None => Err(CanOpenError::CanVersion),
        Some(id) => {
            let reqres = if id & 0x80 == 0 {
                ReqRes::Res
            } else {
                ReqRes::Req
            };
            if reqres == ReqRes::Req && id & 0x700 == 0 {
                Err(CanOpenError::BadMessage)
            } else {
                Ok(
                    SpecPdo {
                        node_id: (id & 0x7F) as u8,
                        pdo_index: (((id & 0x700) >> 8) - (if reqres == ReqRes::Req {
                            1u16
                        } else {
                            0u16
                        })) as u8,
                        reqres,
                        data: f.data,
                    },
                )
            }
        },
    }
}

impl Pdo {
    /// A PDO carries one to eight bytes.
    pub open spec fn wf(&self) -> bool {
        self@.wf()
    }

    /// Builds a request-direction PDO; data outside 1..=8 bytes is rejected.
    pub fn new(node_id: u8, pdo_index: u8, data: &[u8]) -> (r: Result<Self, CanOpenError>)
        ensures
            (1 <= data@.len() <= 8) <==> r is Ok,
            r matches Ok(p) ==> p@ == (SpecPdo {
                node_id,
                pdo_index,
                reqres: ReqRes::Req,
                data: data@,
            }) && p.wf(),
            !(1 <= data@.len() <= 8) ==> r == Err::<Self, CanOpenError>(CanOpenError::BadMessage),
    {
        if data.len() < 1 || data.len() > 8 {
            return Err(CanOpenError::BadMessage);
        }
        Ok(
            Pdo {
                node_id,
                pdo_index,
                reqres: ReqRes::Req,
                data: vstd::slice::slice_to_vec(data),
            },
        )
    }

    /// Writes the PDO COB-ID and the raw payload.
    pub fn encode(&self, frame: &mut CanFrame)
        requires
            self.wf(),
            1 <= self.pdo_index <= 4,
        ensures
            final(frame).id == CanId::Standard(spec_pdo_id(self@)),
            final(frame).data@ == self.data@,
            final(frame).wf(),
    {
        let chan: u16 = (self.pdo_index as u16) + (if matches!(self.reqres, ReqRes::Req) {
            1
        } else {
            0
        });
        frame.id = CanId::Standard((self.node_id as u16) + chan * 0x100);
        frame.data = self.data.clone();
    }

    /// Splits a frame in the PDO window into direction, channel, node and
    /// payload.
    pub fn decode(frame: &CanFrame) -> (r: Result<Pdo, CanOpenError>)
        ensures
            view_result(r) == spec_pdo_decode(frame@),
    {
        let id = match frame.id {
            CanId::Standard(id) => id,
            CanId::Extended(_) => {
                return Err(CanOpenError::CanVersion);
            },
        };
        let reqres = if id & 0x80 == 0 {
            ReqRes::Res
        } else {
            ReqRes::Req
        };
        let is_req = matches!(reqres, ReqRes::Req);
        if is_req && id & 0x700 == 0 {
            return Err(CanOpenError::BadMessage);
        }
        let chan: u16 = (id & 0x700) >> 8;
        proof {
            assert(chan <= 7 && (id & 0x7F) <= 0x7F && (id & 0x700 != 0 ==> chan >= 1))
                by (bit_vector)
                requires
                    chan == (id & 0x700) >> 8,
            ;
        }
        let pdo_index: u8 = (chan - (if is_req {
            1
        } else {
            0
        })) as u8;
        let node_id: u8 = (id & 0x7F) as u8;
        let r = Pdo { node_id, pdo_index, reqres, data: frame.data.clone() };
        proof {
            assert(view_result(Ok::<Pdo, CanOpenError>(r)) =~= spec_pdo_decode(frame@));
        }
        Ok(r)
    }
}

/// Decoding an encoded PDO gives the PDO back for response-direction
/// messages on channels up to 4 with an addressable node. (The encoding of
/// request-direction PDOs shifts the channel up by one, and decoding reads
/// bit 0x80 — always clear in an encoded PDO — as the response direction, so
/// request PDOs do not round-trip.)
pub proof fn lemma_pdo_round_trip(p: SpecPdo)
    requires
        p.reqres == ReqRes::Res,
        p.pdo_index <= 4,
        p.node_id <= 0x7F,
    ensures
        spec_pdo_decode(SpecFrame { id: CanId::Standard(spec_pdo_id(p)), data: p.data }) == Ok::<
            SpecPdo,
            CanOpenError,
        >(p),
{
    let id = spec_pdo_id(p);
    let n = p.node_id;
    let k = p.pdo_index;
    assert(id == n + k * 0x100);
    assert((id & 0x80 == 0) && ((id & 0x700) >> 8 == k) && (id & 0x7F == n) && (k >= 1 ==> id
        & 0x700 != 0)) by (bit_vector)
        requires
            id == n + k * 0x100,
            n <= 0x7F,
            k <= 4,
    ;
    if k == 0 {
        assert(spec_pdo_decode(SpecFrame { id: CanId::Standard(id), data: p.data }) matches Ok(d)
            && d =~= p);
    } else {
        assert(spec_pdo_decode(SpecFrame { id: CanId::Standard(id), data: p.data }) matches Ok(d)
            && d =~= p);
    }
}

} // verus!
