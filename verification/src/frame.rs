//! The CAN frame as this library models it: an identifier and up to eight
//! data bytes. CANopen uses only standard 11-bit identifiers; extended
//! identifiers can arrive from the bus and are rejected during decoding.

use vstd::prelude::*;

use crate::error::CanOpenError;

verus! {

/// A CAN identifier: standard (11-bit) or extended (29-bit).
#[derive(Clone, Copy, Debug, PartialEq, Eq, Structural)]
pub enum CanId {
    Standard(u16),
    Extended(u32),
}

/// A CAN frame: identifier plus 0 to 8 payload bytes.
#[derive(Clone, Debug, PartialEq)]
pub struct CanFrame {
    pub id: CanId,
    pub data: Vec<u8>,
}

/// The mathematical image of a frame: the identifier and the payload as a
/// byte sequence.
#[verifier::ext_equal]
pub struct SpecFrame {
    pub id: CanId,
    pub data: Seq<u8>,
}

impl View for CanFrame {
    type V = SpecFrame;

    open spec fn view(&self) -> SpecFrame {
        SpecFrame { id: self.id, data: self.data@ }
    }
}

impl SpecFrame {
    /// A frame the link layer could carry: at most 8 data bytes, and a
    /// standard identifier fits in 11 bits.
    pub open spec fn wf(self) -> bool {
        &&& self.data.len() <= 8
        &&& match self.id {
            CanId::Standard(id) => id < 0x800,
            CanId::Extended(id) => id < 0x2000_0000,
        }
    }

    /// The standard identifier, if the frame has one.
    pub open spec fn std_id(self) -> Option<u16> {
        match self.id {
            CanId::Standard(id) => Some(id),
            CanId::Extended(_) => None,
        }
    }
}

impl CanFrame {
    /// A frame the link layer could carry.
    pub open spec fn wf(&self) -> bool {
        self@.wf()
    }

    /// Builds a frame from a standard identifier and payload bytes.
    pub fn new(id: u16, data: Vec<u8>) -> (r: CanFrame)
        requires
            id < 0x800,
            data@.len() <= 8,
        ensures
            r@ == (SpecFrame { id: CanId::Standard(id), data: data@ }),
            r.wf(),
    {
        CanFrame { id: CanId::Standard(id), data }
    }
}

/// The standard 11-bit identifier of a frame; an extended identifier is a
/// CAN version mismatch.
pub fn id_as_raw_std(frame: &CanFrame) -> (r: Result<u16, CanOpenError>)
    ensures
        r == match frame@.std_id() {
            Some(id) => Ok::<u16, CanOpenError>(id),
            None => Err::<u16, CanOpenError>(CanOpenError::CanVersion),
        },
{
    match frame.id {
        CanId::Standard(id) => Ok(id),
        CanId::Extended(_) => Err(CanOpenError::CanVersion),
    }
}

/// The low byte of a 16-bit value.
pub open spec fn u16_lo(x: u16) -> u8 {
    (x & 0xFF) as u8
}

/// The high byte of a 16-bit value.
pub open spec fn u16_hi(x: u16) -> u8 {
    (x >> 8) as u8
}

/// A 16-bit value from its little-endian bytes.
pub open spec fn u16_from_le(lo: u8, hi: u8) -> u16 {
    (lo as u16) | ((hi as u16) << 8)
}

/// Byte `i` (0 = least significant) of the little-endian form of a 32-bit
/// value.
pub open spec fn u32_le_byte(x: u32, i: int) -> u8 {
    if i == 0 {
        (x & 0xFF) as u8
    } else if i == 1 {
        ((x >> 8) & 0xFF) as u8
    } else if i == 2 {
        ((x >> 16) & 0xFF) as u8
    } else {
        (x >> 24) as u8
    }
}

/// A 32-bit value from its little-endian bytes.
pub open spec fn u32_from_le(b0: u8, b1: u8, b2: u8, b3: u8) -> u32 {
    (b0 as u32) | ((b1 as u32) << 8) | ((b2 as u32) << 16) | ((b3 as u32) << 24)
}

/// Splitting a 16-bit value into little-endian bytes and reassembling it is
/// the identity.
pub proof fn lemma_u16_le_round_trip(x: u16)
    ensures
        u16_from_le(u16_lo(x), u16_hi(x)) == x,
{
    assert((((x & 0xFF) as u8) as u16) | ((((x >> 8) as u8) as u16) << 8) == x) by (bit_vector);
}

/// Splitting a 32-bit value into little-endian bytes and reassembling it is
/// the identity.
pub proof fn lemma_u32_le_round_trip(x: u32)
    ensures
        u32_from_le(u32_le_byte(x, 0), u32_le_byte(x, 1), u32_le_byte(x, 2), u32_le_byte(x, 3))
            == x,
{
    assert(((((x & 0xFF) as u8) as u32) | ((((x >> 8) & 0xFF) as u8) as u32) << 8 | ((((x >> 16)
        & 0xFF) as u8) as u32) << 16 | (((x >> 24) as u8) as u32) << 24) == x) by (bit_vector);
}

} // verus!
