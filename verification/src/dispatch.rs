//! The message dispatcher: classifies an inbound frame by its COB-ID range
//! and routes an outbound typed message to the matching encoder.

use vstd::prelude::*;

use crate::error::CanOpenError;
use crate::frame::{CanFrame, CanId, SpecFrame};
use crate::message::{
    guard_byte, spec_emergency_bytes, spec_emergency_decode, spec_guard_decode, spec_nmt_bytes,
    spec_nmt_decode, spec_pdo_decode, spec_pdo_id, spec_sync_decode, view_result, Emergency,
    Guard, Nmt, Pdo, SpecEmergency, SpecPdo, Sync,
};
use crate::sdo::{spec_sdo_cmd_bytes, spec_sdo_decode, spec_sdo_id, Sdo, SpecSdo};

verus! {

/// A typed CANopen message of any kind.
#[derive(Clone, Debug, PartialEq)]
pub enum Message {
    Nmt(Nmt),
    Sync(Sync),
    Emergency(Emergency),
    Pdo(Pdo),
    Sdo(Sdo),
    Guard(Guard),
}

/// The mathematical image of a message.
#[verifier::ext_equal]
pub enum SpecMessage {
    Nmt(Nmt),
    Sync(Sync),
    Emergency(SpecEmergency),
    Pdo(SpecPdo),
    Sdo(SpecSdo),
    Guard(Guard),
}

impl View for Message {
    type V = SpecMessage;

    open spec fn view(&self) -> SpecMessage {
        match self {
            Message::Nmt(m) => SpecMessage::Nmt(*m),
            Message::Sync(m) => SpecMessage::Sync(*m),
            Message::Emergency(m) => SpecMessage::Emergency(m@),
            Message::Pdo(m) => SpecMessage::Pdo(m@),
            Message::Sdo(m) => SpecMessage::Sdo(m@),
            Message::Guard(m) => SpecMessage::Guard(*m),
        }
    }
}

/// What classifying and decoding a frame yields. The function code (the
/// identifier above its node bits) picks the codec; identifiers outside
/// every window are unknown frame types.
pub open spec fn spec_message_decode(f: SpecFrame) -> Result<SpecMessage, CanOpenError> {
    match f.std_id() {
        None => Err(CanOpenError::CanVersion),
        Some(id) => {
            let protocol_id = id & 0xFF80;
            let node_id = id & 0x007F;
            if protocol_id == 0x000 {
                match spec_nmt_decode(f) {
                    Ok(m) => Ok(SpecMessage::Nmt(m)),
                    Err(e) => Err(e),
                }
            } else if protocol_id == 0x080 && node_id == 0 {
                match spec_sync_decode(f) {
                    Ok(m) => Ok(SpecMessage::Sync(m)),
                    Err(e) => Err(e),
                }
            } else if protocol_id == 0x080 {
                match spec_emergency_decode(f) {
                    Ok(m) => Ok(SpecMessage::Emergency(m)),
                    Err(e) => Err(e),
                }
            } else if 0x180 <= protocol_id && protocol_id <= 0x500 {
                match spec_pdo_decode(f) {
                    Ok(m) => Ok(SpecMessage::Pdo(m)),
                    Err(e) => Err(e),
                }
            } else if 0x580 <= protocol_id && protocol_id <= 0x600 {
                match spec_sdo_decode(f) {
                    Ok(m) => Ok(SpecMessage::Sdo(m)),
                    Err(e) => Err(e),
                }
            } else if protocol_id == 0x700 {
                match spec_guard_decode(f) {
                    Ok(m) => Ok(SpecMessage::Guard(m)),
                    Err(e) => Err(e),
                }
            } else {
                Err(CanOpenError::UnknownFrameRWType(id as u32))
            }
        },
    }
}

/// The frame an encodable message produces.
pub open spec fn spec_message_frame(m: SpecMessage) -> SpecFrame {
    match m {
        SpecMessage::Nmt(inner) => SpecFrame {
            id: CanId::Standard(0x000),
            data: spec_nmt_bytes(inner),
        },
        SpecMessage::Sync(_) => SpecFrame { id: CanId::Standard(0x080), data: Seq::empty() },
        SpecMessage::Emergency(inner) => SpecFrame {
            id: CanId::Standard((0x080 + inner.node_id) as u16),
            data: spec_emergency_bytes(inner),
        },
        SpecMessage::Pdo(inner) => SpecFrame {
            id: CanId::Standard(spec_pdo_id(inner)),
            data: inner.data,
        },
        SpecMessage::Sdo(inner) => SpecFrame {
            id: CanId::Standard(spec_sdo_id(inner)),
            data: spec_sdo_cmd_bytes(inner.command),
        },
        SpecMessage::Guard(inner) => SpecFrame {
            id: CanId::Standard((0x700 + inner.node_id) as u16),
            data: seq![guard_byte(inner)],
        },
    }
}

impl Message {
    /// Every part of the message fits its wire slot, so the message can be
    /// encoded.
    pub open spec fn wf(&self) -> bool {
        match self {
            Message::Nmt(_) => true,
            Message::Sync(_) => true,
            Message::Emergency(m) => m.wf(),
            Message::Pdo(m) => m.wf() && 1 <= m.pdo_index <= 4,
            Message::Sdo(m) => m.wf(),
            Message::Guard(_) => true,
        }
    }

    /// Classifies a frame by COB-ID range and decodes it with the matching
    /// codec.
    pub fn decode(frame: &CanFrame) -> (r: Result<Message, CanOpenError>)
        ensures
            view_result(r) == spec_message_decode(frame@),
    {
        let id = match frame.id {
            CanId::Standard(id) => id,
            CanId::Extended(_) => {
                return Err(CanOpenError::CanVersion);
            },
        };
        let protocol_id: u16 = id & 0xFF80;
        let node_id: u16 = id & 0x007F;
        if protocol_id == 0x000 {
            match Nmt::decode(frame) {
                Ok(m) => Ok(Message::Nmt(m)),
                Err(e) => Err(e),
            }
        } else if protocol_id == 0x080 && node_id == 0 {
            match Sync::decode(frame) {
                Ok(m) => Ok(Message::Sync(m)),
                Err(e) => Err(e),
            }
        } else if protocol_id == 0x080 {
            match Emergency::decode(frame) {
                Ok(m) => Ok(Message::Emergency(m)),
                Err(e) => Err(e),
            }
        } else if 0x180 <= protocol_id && protocol_id <= 0x500 {
            match Pdo::decode(frame) {
                Ok(m) => Ok(Message::Pdo(m)),
                Err(e) => Err(e),
            }
        } else if 0x580 <= protocol_id && protocol_id <= 0x600 {
            match Sdo::decode(frame) {
                Ok(m) => Ok(Message::Sdo(m)),
                Err(e) => Err(e),
            }
        } else if protocol_id == 0x700 {
            match Guard::decode(frame) {
                Ok(m) => Ok(Message::Guard(m)),
                Err(e) => Err(e),
            }
        } else {
            Err(CanOpenError::UnknownFrameRWType(id as u32))
        }
    }

    /// Routes the message to its encoder, which sets the COB-ID and the
    /// payload.
    pub fn encode(&self, frame: &mut CanFrame)
        requires
            self.wf(),
        ensures
            final(frame)@ == spec_message_frame(self@),
            final(frame).wf(),
    {
        match self {
            Message::Sdo(m) => m.encode(frame),
            Message::Pdo(m) => m.encode(frame),
            Message::Sync(m) => m.encode(frame),
            Message::Nmt(m) => m.encode(frame),
            Message::Emergency(m) => m.encode(frame),
            Message::Guard(m) => m.encode(frame),
        }
        proof {
            assert(frame@ =~= spec_message_frame(self@));
        }
    }
}


/// Feeding an encoded message back through the dispatcher gives the message
/// back, whenever the encoding lands in the COB-ID window the dispatcher
/// routes to the same codec. That asks for an addressable node (at most
/// 0x7F, and nonzero for EMCY, whose identifier window starts above the
/// SYNC slot), canonical register flags for EMCY, a response-direction PDO
/// on channels 2..=4 (channel 1 responses sit below the PDO window, and
/// request PDOs decode as the response of the next channel), and an SDO
/// command that is well formed, not a block placeholder and sent in its own
/// direction.
pub proof fn lemma_message_round_trip(m: SpecMessage)
    requires
        match m {
            SpecMessage::Nmt(_) => true,
            SpecMessage::Sync(_) => true,
            SpecMessage::Emergency(e) => e.wf() && 1 <= e.node_id <= 127 && exists|b: u8|
                e.error_register == crate::enums::spec_register_decode(b),
            SpecMessage::Pdo(p) => p.reqres == crate::message::ReqRes::Res && 2 <= p.pdo_index
                <= 4 && p.node_id <= 0x7F,
            SpecMessage::Sdo(s) => s.wf() && s.command.direction_matches(s.reqres) && s.node_id
                <= 0x7F,
            SpecMessage::Guard(g) => g.node_id <= 0x7F,
        },
    ensures
        spec_message_decode(spec_message_frame(m)) == Ok::<SpecMessage, CanOpenError>(m),
{
    match m {
        SpecMessage::Nmt(inner) => {
            assert(0x000u16 & 0xFF80 == 0x000) by (bit_vector);
            crate::message::lemma_nmt_round_trip(inner);
        },
        SpecMessage::Sync(_) => {
            assert(0x080u16 & 0xFF80 == 0x080 && 0x080u16 & 0x007F == 0) by (bit_vector);
            crate::message::lemma_sync_round_trip();
        },
        SpecMessage::Emergency(inner) => {
            let id: u16 = (0x080 + inner.node_id) as u16;
            let n = inner.node_id;
            assert(id & 0xFF80 == 0x080 && id & 0x007F == n) by (bit_vector)
                requires
                    id == 0x080 + n,
                    1 <= n <= 127,
            ;
            crate::message::lemma_emergency_round_trip(inner);
        },
        SpecMessage::Pdo(inner) => {
            let id: u16 = spec_pdo_id(inner);
            let n = inner.node_id;
            let k = inner.pdo_index;
            assert(id == n + k * 0x100);
            assert(0x180 <= (id & 0xFF80) && (id & 0xFF80) <= 0x500) by (bit_vector)
                requires
                    id == n + k * 0x100,
                    n <= 0x7F,
                    2 <= k <= 4,
            ;
            crate::message::lemma_pdo_round_trip(inner);
        },
        SpecMessage::Sdo(inner) => {
            let id: u16 = spec_sdo_id(inner);
            let n = inner.node_id;
            match inner.reqres {
                crate::message::ReqRes::Req => {
                    assert(id & 0xFF80 == 0x600) by (bit_vector)
                        requires
                            id == 0x600 + n,
                            n <= 0x7F,
                    ;
                },
                crate::message::ReqRes::Res => {
                    assert(id & 0xFF80 == 0x580) by (bit_vector)
                        requires
                            id == 0x580 + n,
                            n <= 0x7F,
                    ;
                },
            }
            crate::sdo::lemma_sdo_round_trip(inner);
        },
        SpecMessage::Guard(inner) => {
            let id: u16 = (0x700 + inner.node_id) as u16;
            let n = inner.node_id;
            assert(id & 0xFF80 == 0x700) by (bit_vector)
                requires
                    id == 0x700 + n,
                    n <= 0x7F,
            ;
            crate::message::lemma_guard_round_trip(inner);
        },
    }
}

} // verus!
