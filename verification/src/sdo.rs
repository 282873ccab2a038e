//! The SDO frame codec: every command variant of the service-data-object
//! protocol, encoded into and decoded out of the fixed eight-byte SDO
//! payload. The three-bit command specifier in byte 0 means different
//! commands for requests and responses, so decoding is parameterized by the
//! direction taken from the COB-ID.

use vstd::prelude::*;

use crate::enums::{abort_code_value, spec_abort_code_decode, AbortCode};
use crate::error::CanOpenError;
use crate::frame::{
    lemma_u16_le_round_trip, u16_from_le, u16_hi, u16_lo, u32_from_le, u32_le_byte, CanFrame,
    CanId, SpecFrame,
};
use crate::message::{reqres_sdo_base, spec_reqres_from_sdo_id, view_result, ReqRes};

verus! {

/// A sequence of `n` zero bytes.
pub open spec fn zero_bytes(n: nat) -> Seq<u8> {
    Seq::new(n, |i: int| 0u8)
}

/// The payload an initiate frame carries: up to four expedited data bytes,
/// or the optional total size of a segmented transfer.
#[derive(Clone, Debug, PartialEq)]
pub enum SdoCmdInitiatePayload {
    Expedited(Vec<u8>),
    Segmented(Option<u32>),
}

/// The mathematical image of an initiate payload.
#[verifier::ext_equal]
pub enum SpecSdoCmdInitiatePayload {
    Expedited(Seq<u8>),
    Segmented(Option<u32>),
}

impl View for SdoCmdInitiatePayload {
    type V = SpecSdoCmdInitiatePayload;

    open spec fn view(&self) -> SpecSdoCmdInitiatePayload {
        match self {
            SdoCmdInitiatePayload::Expedited(d) => SpecSdoCmdInitiatePayload::Expedited(d@),
            SdoCmdInitiatePayload::Segmented(s) => SpecSdoCmdInitiatePayload::Segmented(*s),
        }
    }
}

impl SpecSdoCmdInitiatePayload {
    /// Expedited data fits the four payload bytes.
    pub open spec fn wf(self) -> bool {
        match self {
            SpecSdoCmdInitiatePayload::Expedited(d) => 1 <= d.len() <= 4,
            SpecSdoCmdInitiatePayload::Segmented(_) => true,
        }
    }
}

/// The bits a payload ORs into byte 0 of an initiate frame: the unused-byte
/// count `n` in bits 2..3 plus the expedited and size-indicated flags.
pub open spec fn init_payload_or_bits(p: SpecSdoCmdInitiatePayload) -> u8 {
    match p {
        SpecSdoCmdInitiatePayload::Expedited(d) => ((((4 - d.len()) as u8) << 2) | 0b11) as u8,
        SpecSdoCmdInitiatePayload::Segmented(s) => match s {
            Some(_) => 0b01,
            None => 0b00,
        },
    }
}

/// Bytes 4..8 of an initiate frame: the expedited data zero-filled, the
/// little-endian total size, or zeros.
pub open spec fn init_payload_tail(p: SpecSdoCmdInitiatePayload) -> Seq<u8> {
    match p {
        SpecSdoCmdInitiatePayload::Expedited(d) => d + zero_bytes((4 - d.len()) as nat),
        SpecSdoCmdInitiatePayload::Segmented(s) => match s {
            Some(size) => seq![
                u32_le_byte(size, 0),
                u32_le_byte(size, 1),
                u32_le_byte(size, 2),
                u32_le_byte(size, 3),
            ],
            None => zero_bytes(4),
        },
    }
}

/// An initiate payload applied to an eight-byte frame: the flag bits are
/// ORed into byte 0, bytes 1..4 stay, bytes 4..8 become the payload tail.
pub open spec fn spec_payload_apply(p: SpecSdoCmdInitiatePayload, data: Seq<u8>) -> Seq<u8> {
    seq![(data[0] | init_payload_or_bits(p)) as u8] + data.subrange(1, 4) + init_payload_tail(p)
}

/// What decoding the payload bits and tail of an initiate frame yields.
/// The four data-length codes cover every value of the two `n` bits, so
/// payload decoding is total.
pub open spec fn spec_init_payload_decode(data: Seq<u8>) -> SpecSdoCmdInitiatePayload {
    let size_indicated = data[0] & 0b1 != 0;
    let expedited = data[0] & 0b10 != 0;
    if expedited {
        let l: int = if size_indicated {
            let n = (data[0] & 0b1100) >> 2;
            if n == 0b11 {
                1
            } else if n == 0b10 {
                2
            } else if n == 0b01 {
                3
            } else {
                4
            }
        } else {
            4
        };
        SpecSdoCmdInitiatePayload::Expedited(data.subrange(4, 4 + l))
    } else {
        SpecSdoCmdInitiatePayload::Segmented(
            if size_indicated {
                Some(u32_from_le(data[4], data[5], data[6], data[7]))
            } else {
                None
            },
        )
    }
}

impl SdoCmdInitiatePayload {
    /// Expedited data fits the four payload bytes.
    pub open spec fn wf(&self) -> bool {
        self@.wf()
    }

    /// ORs the payload flags into byte 0 of the already-written frame header
    /// and fills bytes 4..8.
    pub fn encode(&self, frame: &mut CanFrame)
        requires
            self.wf(),
            old(frame).data@.len() == 8,
        ensures
            final(frame).id == old(frame).id,
            final(frame).data@ == spec_payload_apply(self@, old(frame).data@),
            final(frame).data@.len() == 8,
    {
        let mut d: Vec<u8> = Vec::new();
        match self {
            SdoCmdInitiatePayload::Expedited(exp) => {
                let l: u8 = match exp.len() {
                    1 => 0b11,
                    2 => 0b10,
                    3 => 0b01,
                    _ => 0b00,
                };
                d.push(frame.data[0] | ((l << 2) | 0b11));
                d.push(frame.data[1]);
                d.push(frame.data[2]);
                d.push(frame.data[3]);
                let ghost d4: Seq<u8> = d@;
                let mut k: usize = 0;
                while k < 4
                    invariant
                        1 <= exp@.len() <= 4,
                        k <= 4,
                        d4.len() == 4,
                        d@.len() == 4 + k,
                        forall|j: int| 0 <= j < 4 ==> #[trigger] d@[j] == d4[j],
                        forall|j: int|
                            4 <= j < d@.len() ==> #[trigger] d@[j] == (if j - 4 < exp@.len() {
                                exp@[j - 4]
                            } else {
                                0u8
                            }),
                    decreases 4 - k,
                {
                    let ghost dprev: Seq<u8> = d@;
                    if k < exp.len() {
                        d.push(exp[k]);
                    } else {
                        d.push(0);
                    }
                    k = k + 1;
                    proof {
                        assert forall|j: int| 0 <= j < d@.len() - 1 implies #[trigger] d@[j]
                            == dprev[j] by {
                        }
                    }
                }
            },
            SdoCmdInitiatePayload::Segmented(maybe_size) => {
                let bits: u8 = match maybe_size {
                    Some(_) => 0b01,
                    None => 0b00,
                };
                d.push(frame.data[0] | bits);
                d.push(frame.data[1]);
                d.push(frame.data[2]);
                d.push(frame.data[3]);
                match maybe_size {
                    Some(size) => {
                        let s: u32 = *size;
                        d.push((s & 0xFF) as u8);
                        d.push(((s >> 8) & 0xFF) as u8);
                        d.push(((s >> 16) & 0xFF) as u8);
                        d.push((s >> 24) as u8);
                    },
                    None => {
                        d.push(0);
                        d.push(0);
                        d.push(0);
                        d.push(0);
                    },
                }
            },
        }
        frame.data = d;
        proof {
            assert(frame.data@ =~= spec_payload_apply(self@, old(frame).data@));
        }
    }

    /// Reads the payload flags of byte 0 and the matching form of bytes
    /// 4..8.
    pub fn decode(frame: &CanFrame) -> (r: Self)
        requires
            frame.data@.len() >= 8,
        ensures
            r@ == spec_init_payload_decode(frame.data@),
    {
        let b0: u8 = frame.data[0];
        let size_indicated = b0 & 0b1 != 0;
        let expedited = b0 & 0b10 != 0;
        if expedited {
            let l: usize = if size_indicated {
                let n: u8 = (b0 & 0b1100) >> 2;
                if n == 0b11 {
                    1
                } else if n == 0b10 {
                    2
                } else if n == 0b01 {
                    3
                } else {
                    4
                }
            } else {
                4
            };
            let mut data: Vec<u8> = Vec::new();
            let mut i: usize = 0;
            while i < l
                invariant
                    l <= 4,
                    frame.data@.len() >= 8,
                    i <= l,
                    data@ =~= frame.data@.subrange(4, 4 + i as int),
                decreases l - i,
            {
                data.push(frame.data[4 + i]);
                i = i + 1;
                proof {
                    assert(data@ =~= frame.data@.subrange(4, 4 + i as int));
                }
            }
            SdoCmdInitiatePayload::Expedited(data)
        } else {
            let size: Option<u32> = if size_indicated {
                Some(
                    (frame.data[4] as u32) | ((frame.data[5] as u32) << 8) | ((frame.data[6]
                        as u32) << 16) | ((frame.data[7] as u32) << 24),
                )
            } else {
                None
            };
            SdoCmdInitiatePayload::Segmented(size)
        }
    }
}

/// The eight bytes of an initiate frame: the base command byte with the
/// payload bits, the index little-endian, the sub-index, and the payload
/// tail.
pub open spec fn init_frame_bytes(
    base: u8,
    index: u16,
    sub_index: u8,
    p: SpecSdoCmdInitiatePayload,
) -> Seq<u8> {
    spec_payload_apply(p, seq![base, u16_lo(index), u16_hi(index), sub_index, 0, 0, 0, 0])
}

/// Writes the eight-byte header of an initiate frame (base command byte,
/// index, sub-index, zero tail) into the frame.
fn write_init_header(base: u8, index: u16, sub_index: u8, frame: &mut CanFrame)
    ensures
        final(frame).id == old(frame).id,
        final(frame).data@ == seq![base, u16_lo(index), u16_hi(index), sub_index, 0u8, 0u8, 0u8, 0u8],
{
    let mut d: Vec<u8> = Vec::new();
    d.push(base);
    d.push((index & 0xFF) as u8);
    d.push((index >> 8) as u8);
    d.push(sub_index);
    d.push(0);
    d.push(0);
    d.push(0);
    d.push(0);
    frame.data = d;
    proof {
        assert(frame.data@ =~= seq![
            base,
            u16_lo(index),
            u16_hi(index),
            sub_index,
            0u8,
            0u8,
            0u8,
            0u8,
        ]);
    }
}

/// Client write request (and, by layout, server read response): carries
/// index, sub-index and an initiate payload.
#[derive(Clone, Debug, PartialEq)]
pub struct SdoCmdInitiateDownloadRx {
    pub index: u16,
    pub sub_index: u8,
    pub payload: SdoCmdInitiatePayload,
}

/// The mathematical image of an initiate-download request.
#[verifier::ext_equal]
pub struct SpecSdoCmdInitiateDownloadRx {
    pub index: u16,
    pub sub_index: u8,
    pub payload: SpecSdoCmdInitiatePayload,
}

impl View for SdoCmdInitiateDownloadRx {
    type V = SpecSdoCmdInitiateDownloadRx;

    open spec fn view(&self) -> SpecSdoCmdInitiateDownloadRx {
        SpecSdoCmdInitiateDownloadRx {
            index: self.index,
            sub_index: self.sub_index,
            payload: self.payload@,
        }
    }
}

/// The wire bytes of an initiate-download request (`scs` 1).
pub open spec fn spec_init_download_rx_bytes(c: SpecSdoCmdInitiateDownloadRx) -> Seq<u8> {
    init_frame_bytes(0b0010_0000, c.index, c.sub_index, c.payload)
}

/// What decoding an initiate-download request yields.
pub open spec fn spec_init_download_rx_decode(data: Seq<u8>) -> SpecSdoCmdInitiateDownloadRx {
    SpecSdoCmdInitiateDownloadRx {
        index: u16_from_le(data[1], data[2]),
        sub_index: data[3],
        payload: spec_init_payload_decode(data),
    }
}

impl SdoCmdInitiateDownloadRx {
    pub fn encode(&self, frame: &mut CanFrame)
        requires
            self.payload.wf(),
        ensures
            final(frame).id == old(frame).id,
            final(frame).data@ == spec_init_download_rx_bytes(self@),
    {
        write_init_header(0b0010_0000, self.index, self.sub_index, frame);
        self.payload.encode(frame);
    }

    pub fn decode(frame: &CanFrame) -> (r: Self)
        requires
            frame.data@.len() >= 8,
        ensures
            r@ == spec_init_download_rx_decode(frame.data@),
    {
        let index: u16 = (frame.data[1] as u16) | ((frame.data[2] as u16) << 8);
        let sub_index: u8 = frame.data[3];
        let payload = SdoCmdInitiatePayload::decode(frame);
        SdoCmdInitiateDownloadRx { index, sub_index, payload }
    }
}

/// Server acknowledgement of an initiate-download request (`scs` 3 in the
/// response direction): echoes index and sub-index.
#[derive(Clone, Copy, Debug, PartialEq, Eq, Structural)]
pub struct SdoCmdInitiateDownloadTx {
    pub index: u16,
    pub sub_index: u8,
}

/// The wire bytes of an initiate-download response.
pub open spec fn spec_init_download_tx_bytes(c: SdoCmdInitiateDownloadTx) -> Seq<u8> {
    seq![0b0110_0000u8, u16_lo(c.index), u16_hi(c.index), c.sub_index, 0, 0, 0, 0]
}

/// What decoding an initiate-download response yields.
pub open spec fn spec_init_download_tx_decode(data: Seq<u8>) -> SdoCmdInitiateDownloadTx {
    SdoCmdInitiateDownloadTx { index: u16_from_le(data[1], data[2]), sub_index: data[3] }
}

impl SdoCmdInitiateDownloadTx {
    pub fn encode(&self, frame: &mut CanFrame)
        ensures
            final(frame).id == old(frame).id,
            final(frame).data@ == spec_init_download_tx_bytes(*self),
    {
        write_init_header(0b0110_0000, self.index, self.sub_index, frame);
    }

    pub fn decode(frame: &CanFrame) -> (r: Self)
        requires
            frame.data@.len() >= 8,
        ensures
            r == spec_init_download_tx_decode(frame.data@),
    {
        let index: u16 = (frame.data[1] as u16) | ((frame.data[2] as u16) << 8);
        SdoCmdInitiateDownloadTx { index, sub_index: frame.data[3] }
    }
}

/// Byte 0 of a data segment: toggle in bit 4, `7 − len` in bits 1..3, the
/// last-segment flag in bit 0.
pub open spec fn seg_byte0(toggle: bool, len: nat, last: bool) -> u8 {
    ((if toggle {
        0x10u8
    } else {
        0u8
    }) | ((((7 - len) as u8) << 1) | (if last {
        1u8
    } else {
        0u8
    }))) as u8
}

/// The wire bytes of a data segment: the command byte then up to seven data
/// bytes, zero-filled.
pub open spec fn spec_seg_data_bytes(toggle: bool, data: Seq<u8>, last: bool) -> Seq<u8> {
    seq![seg_byte0(toggle, data.len(), last)] + data + zero_bytes((7 - data.len()) as nat)
}

/// Client data segment of a segmented write (`scs` 0 in the request
/// direction).
#[derive(Clone, Debug, PartialEq)]
pub struct SdoCmdDownloadSegmentRx {
    pub toggle: bool,
    pub data: Vec<u8>,
    pub last: bool,
}

/// The mathematical image of a download segment.
#[verifier::ext_equal]
pub struct SpecSdoCmdDownloadSegmentRx {
    pub toggle: bool,
    pub data: Seq<u8>,
    pub last: bool,
}

impl View for SdoCmdDownloadSegmentRx {
    type V = SpecSdoCmdDownloadSegmentRx;

    open spec fn view(&self) -> SpecSdoCmdDownloadSegmentRx {
        SpecSdoCmdDownloadSegmentRx { toggle: self.toggle, data: self.data@, last: self.last }
    }
}

/// What decoding a download segment yields.
pub open spec fn spec_download_segment_rx_decode(data: Seq<u8>) -> SpecSdoCmdDownloadSegmentRx {
    SpecSdoCmdDownloadSegmentRx {
        toggle: data[0] & 0b10000 != 0,
        data: data.subrange(1, 1 + (7 - ((data[0] >> 1) & 0b111))),
        last: data[0] & 0b1 != 0,
    }
}

/// Writes the segment command byte and the up-to-seven data bytes into an
/// eight-byte frame payload.
fn encode_segment(toggle: bool, seg_data: &Vec<u8>, last: bool, frame: &mut CanFrame)
    requires
        seg_data@.len() <= 7,
    ensures
        final(frame).id == old(frame).id,
        final(frame).data@ == spec_seg_data_bytes(toggle, seg_data@, last),
{
    let tb: u8 = if toggle {
        0x10
    } else {
        0
    };
    let lb: u8 = if last {
        1
    } else {
        0
    };
    let n: u8 = (7 - seg_data.len()) as u8;
    let mut d: Vec<u8> = Vec::new();
    d.push(tb | ((n << 1) | lb));
    let mut k: usize = 0;
    while k < 7
        invariant
            seg_data@.len() <= 7,
            k <= 7,
            d@.len() == 1 + k,
            d@[0] == seg_byte0(toggle, seg_data@.len() as nat, last),
            forall|j: int|
                1 <= j < d@.len() ==> #[trigger] d@[j] == (if j - 1 < seg_data@.len() {
                    seg_data@[j - 1]
                } else {
                    0u8
                }),
        decreases 7 - k,
    {
        let ghost dprev: Seq<u8> = d@;
        if k < seg_data.len() {
            d.push(seg_data[k]);
        } else {
            d.push(0);
        }
        k = k + 1;
        proof {
            assert forall|j: int| 0 <= j < d@.len() - 1 implies #[trigger] d@[j] == dprev[j] by {
            }
        }
    }
    frame.data = d;
    proof {
        assert(frame.data@ =~= spec_seg_data_bytes(toggle, seg_data@, last));
    }
}

/// Reads a segment's toggle, data and last flag out of an eight-byte frame
/// payload.
fn decode_segment(frame: &CanFrame) -> (r: (bool, Vec<u8>, bool))
    requires
        frame.data@.len() >= 8,
    ensures
        r.0 == (frame.data@[0] & 0b10000 != 0),
        r.1@ == frame.data@.subrange(1, 1 + (7 - ((frame.data@[0] >> 1) & 0b111))),
        r.2 == (frame.data@[0] & 0b1 != 0),
{
    let b0: u8 = frame.data[0];
    let toggle = b0 & 0b10000 != 0;
    let last = b0 & 0b1 != 0;
    let n: u8 = (b0 >> 1) & 0b111;
    proof {
        assert((b0 >> 1) & 0b111 <= 7) by (bit_vector);
    }
    let size: usize = (7 - n) as usize;
    let mut data: Vec<u8> = Vec::new();
    let mut i: usize = 0;
    while i < size
        invariant
            size <= 7,
            frame.data@.len() >= 8,
            i <= size,
            data@ =~= frame.data@.subrange(1, 1 + i as int),
        decreases size - i,
    {
        data.push(frame.data[1 + i]);
        i = i + 1;
        proof {
            assert(data@ =~= frame.data@.subrange(1, 1 + i as int));
        }
    }
    (toggle, data, last)
}

impl SdoCmdDownloadSegmentRx {
    /// The segment carries at most seven bytes.
    pub open spec fn wf(&self) -> bool {
        self.data@.len() <= 7
    }

    pub fn encode(&self, frame: &mut CanFrame)
        requires
            self.wf(),
        ensures
            final(frame).id == old(frame).id,
            final(frame).data@ == spec_seg_data_bytes(self.toggle, self.data@, self.last),
    {
        encode_segment(self.toggle, &self.data, self.last, frame);
    }

    pub fn decode(frame: &CanFrame) -> (r: Self)
        requires
            frame.data@.len() >= 8,
        ensures
            r@ == spec_download_segment_rx_decode(frame.data@),
    {
        let (toggle, data, last) = decode_segment(frame);
        SdoCmdDownloadSegmentRx { toggle, data, last }
    }
}

/// Server acknowledgement of a download segment (`scs` 1 in the response
/// direction): echoes the toggle.
#[derive(Clone, Copy, Debug, PartialEq, Eq, Structural)]
pub struct SdoCmdDownloadSegmentTx {
    pub toggle: bool,
}

/// The wire bytes of a download-segment response.
pub open spec fn spec_download_segment_tx_bytes(c: SdoCmdDownloadSegmentTx) -> Seq<u8> {
    seq![
        ((0b001u8 << 5) | (if c.toggle {
            0x10u8
        } else {
            0u8
        })) as u8,
        0,
        0,
        0,
        0,
        0,
        0,
        0,
    ]
}

/// What decoding a download-segment response yields.
pub open spec fn spec_download_segment_tx_decode(data: Seq<u8>) -> SdoCmdDownloadSegmentTx {
    SdoCmdDownloadSegmentTx { toggle: data[0] & 0b10000 != 0 }
}

impl SdoCmdDownloadSegmentTx {
    pub fn encode(&self, frame: &mut CanFrame)
        ensures
            final(frame).id == old(frame).id,
            final(frame).data@ == spec_download_segment_tx_bytes(*self),
    {
        let tb: u8 = if self.toggle {
            0x10
        } else {
            0
        };
        let mut d: Vec<u8> = Vec::new();
        d.push((0b001u8 << 5) | tb);
        let mut i: usize = 0;
        while i < 7
            invariant
                i <= 7,
                d@.len() == 1 + i,
                d@[0] == spec_download_segment_tx_bytes(*self)[0],
                forall|j: int| 1 <= j < d@.len() ==> d@[j] == 0u8,
            decreases 7 - i,
        {
            d.push(0);
            i = i + 1;
        }
        frame.data = d;
        proof {
            assert(frame.data@ =~= spec_download_segment_tx_bytes(*self));
        }
    }

    pub fn decode(frame: &CanFrame) -> (r: Self)
        requires
            frame.data@.len() >= 8,
        ensures
            r == spec_download_segment_tx_decode(frame.data@),
    {
        SdoCmdDownloadSegmentTx { toggle: frame.data[0] & 0b10000 != 0 }
    }
}

/// Client read request (`scs` 2 in the request direction): names index and
/// sub-index, no payload.
#[derive(Clone, Copy, Debug, PartialEq, Eq, Structural)]
pub struct SdoCmdInitiateUploadRx {
    pub index: u16,
    pub sub_index: u8,
}

/// The wire bytes of an initiate-upload request.
pub open spec fn spec_init_upload_rx_bytes(c: SdoCmdInitiateUploadRx) -> Seq<u8> {
    seq![0b0100_0000u8, u16_lo(c.index), u16_hi(c.index), c.sub_index, 0, 0, 0, 0]
}

/// What decoding an initiate-upload request yields.
pub open spec fn spec_init_upload_rx_decode(data: Seq<u8>) -> SdoCmdInitiateUploadRx {
    SdoCmdInitiateUploadRx { index: u16_from_le(data[1], data[2]), sub_index: data[3] }
}

impl SdoCmdInitiateUploadRx {
    pub fn encode(&self, frame: &mut CanFrame)
        ensures
            final(frame).id == old(frame).id,
            final(frame).data@ == spec_init_upload_rx_bytes(*self),
    {
        write_init_header(0b0100_0000, self.index, self.sub_index, frame);
    }

    pub fn decode(frame: &CanFrame) -> (r: Self)
        requires
            frame.data@.len() >= 8,
        ensures
            r == spec_init_upload_rx_decode(frame.data@),
    {
        let index: u16 = (frame.data[1] as u16) | ((frame.data[2] as u16) << 8);
        SdoCmdInitiateUploadRx { index, sub_index: frame.data[3] }
    }
}

/// Server answer to a read request (`scs` 2 in the response direction):
/// index, sub-index and an initiate payload, laid out like the download
/// request.
#[derive(Clone, Debug, PartialEq)]
pub struct SdoCmdInitiateUploadTx {
    pub index: u16,
    pub sub_index: u8,
    pub payload: SdoCmdInitiatePayload,
}

/// The mathematical image of an initiate-upload response.
#[verifier::ext_equal]
pub struct SpecSdoCmdInitiateUploadTx {
    pub index: u16,
    pub sub_index: u8,
    pub payload: SpecSdoCmdInitiatePayload,
}

impl View for SdoCmdInitiateUploadTx {
    type V = SpecSdoCmdInitiateUploadTx;

    open spec fn view(&self) -> SpecSdoCmdInitiateUploadTx {
        SpecSdoCmdInitiateUploadTx {
            index: self.index,
            sub_index: self.sub_index,
            payload: self.payload@,
        }
    }
}

/// The wire bytes of an initiate-upload response.
pub open spec fn spec_init_upload_tx_bytes(c: SpecSdoCmdInitiateUploadTx) -> Seq<u8> {
    init_frame_bytes(0b0100_0000, c.index, c.sub_index, c.payload)
}

/// What decoding an initiate-upload response yields.
pub open spec fn spec_init_upload_tx_decode(data: Seq<u8>) -> SpecSdoCmdInitiateUploadTx {
    SpecSdoCmdInitiateUploadTx {
        index: u16_from_le(data[1], data[2]),
        sub_index: data[3],
        payload: spec_init_payload_decode(data),
    }
}

impl SdoCmdInitiateUploadTx {
    pub fn encode(&self, frame: &mut CanFrame)
        requires
            self.payload.wf(),
        ensures
            final(frame).id == old(frame).id,
            final(frame).data@ == spec_init_upload_tx_bytes(self@),
    {
        write_init_header(0b0100_0000, self.index, self.sub_index, frame);
        self.payload.encode(frame);
    }

    pub fn decode(frame: &CanFrame) -> (r: Self)
        requires
            frame.data@.len() >= 8,
        ensures
            r@ == spec_init_upload_tx_decode(frame.data@),
    {
        let index: u16 = (frame.data[1] as u16) | ((frame.data[2] as u16) << 8);
        let sub_index: u8 = frame.data[3];
        let payload = SdoCmdInitiatePayload::decode(frame);
        SdoCmdInitiateUploadTx { index, sub_index, payload }
    }
}

/// Client request for the next upload segment (`scs` 3 in the request
/// direction): carries only the toggle.
#[derive(Clone, Copy, Debug, PartialEq, Eq, Structural)]
pub struct SdoCmdUploadSegmentRx {
    pub toggle: bool,
}

/// The wire bytes of an upload-segment request.
pub open spec fn spec_upload_segment_rx_bytes(c: SdoCmdUploadSegmentRx) -> Seq<u8> {
    seq![
        ((0b011u8 << 5) | (if c.toggle {
            0x10u8
        } else {
            0u8
        })) as u8,
        0,
        0,
        0,
        0,
        0,
        0,
        0,
    ]
}

/// What decoding an upload-segment request yields.
pub open spec fn spec_upload_segment_rx_decode(data: Seq<u8>) -> SdoCmdUploadSegmentRx {
    SdoCmdUploadSegmentRx { toggle: data[0] & 0b10000 != 0 }
}

impl SdoCmdUploadSegmentRx {
    pub fn encode(&self, frame: &mut CanFrame)
        ensures
            final(frame).id == old(frame).id,
            final(frame).data@ == spec_upload_segment_rx_bytes(*self),
    {
        let tb: u8 = if self.toggle {
            0x10
        } else {
            0
        };
        let mut d: Vec<u8> = Vec::new();
        d.push((0b011u8 << 5) | tb);
        let mut i: usize = 0;
        while i < 7
            invariant
                i <= 7,
                d@.len() == 1 + i,
                d@[0] == spec_upload_segment_rx_bytes(*self)[0],
                forall|j: int| 1 <= j < d@.len() ==> d@[j] == 0u8,
            decreases 7 - i,
        {
            d.push(0);
            i = i + 1;
        }
        frame.data = d;
        proof {
            assert(frame.data@ =~= spec_upload_segment_rx_bytes(*self));
        }
    }

    pub fn decode(frame: &CanFrame) -> (r: Self)
        requires
            frame.data@.len() >= 8,
        ensures
            r == spec_upload_segment_rx_decode(frame.data@),
    {
        SdoCmdUploadSegmentRx { toggle: frame.data[0] & 0b10000 != 0 }
    }
}

/// Server upload segment (`scs` 0 in the response direction): same layout
/// as the client's download segment.
#[derive(Clone, Debug, PartialEq)]
pub struct SdoCmdUploadSegmentTx {
    pub toggle: bool,
    pub data: Vec<u8>,
    pub last: bool,
}

/// The mathematical image of an upload segment.
#[verifier::ext_equal]
pub struct SpecSdoCmdUploadSegmentTx {
    pub toggle: bool,
    pub data: Seq<u8>,
    pub last: bool,
}

impl View for SdoCmdUploadSegmentTx {
    type V = SpecSdoCmdUploadSegmentTx;

    open spec fn view(&self) -> SpecSdoCmdUploadSegmentTx {
        SpecSdoCmdUploadSegmentTx { toggle: self.toggle, data: self.data@, last: self.last }
    }
}

/// What decoding an upload segment yields.
pub open spec fn spec_upload_segment_tx_decode(data: Seq<u8>) -> SpecSdoCmdUploadSegmentTx {
    SpecSdoCmdUploadSegmentTx {
        toggle: data[0] & 0b10000 != 0,
        data: data.subrange(1, 1 + (7 - ((data[0] >> 1) & 0b111))),
        last: data[0] & 0b1 != 0,
    }
}

impl SdoCmdUploadSegmentTx {
    /// The segment carries at most seven bytes.
    pub open spec fn wf(&self) -> bool {
        self.data@.len() <= 7
    }

    pub fn encode(&self, frame: &mut CanFrame)
        requires
            self.wf(),
        ensures
            final(frame).id == old(frame).id,
            final(frame).data@ == spec_seg_data_bytes(self.toggle, self.data@, self.last),
    {
        encode_segment(self.toggle, &self.data, self.last, frame);
    }

    pub fn decode(frame: &CanFrame) -> (r: Self)
        requires
            frame.data@.len() >= 8,
        ensures
            r@ == spec_upload_segment_tx_decode(frame.data@),
    {
        let (toggle, data, last) = decode_segment(frame);
        SdoCmdUploadSegmentTx { toggle, data, last }
    }
}

/// Abort of an SDO transfer (`scs` 4 in either direction): index, sub-index
/// and the 32-bit abort code.
#[derive(Clone, Copy, Debug, PartialEq, Eq, Structural)]
pub struct SdoCmdAbortTransfer {
    pub index: u16,
    pub sub_index: u8,
    pub abort_code: AbortCode,
}

/// The wire bytes of an abort frame.
pub open spec fn spec_abort_transfer_bytes(c: SdoCmdAbortTransfer) -> Seq<u8> {
    seq![
        0b1000_0000u8,
        u16_lo(c.index),
        u16_hi(c.index),
        c.sub_index,
        u32_le_byte(abort_code_value(c.abort_code), 0),
        u32_le_byte(abort_code_value(c.abort_code), 1),
        u32_le_byte(abort_code_value(c.abort_code), 2),
        u32_le_byte(abort_code_value(c.abort_code), 3),
    ]
}

/// What decoding an abort frame yields: an unknown abort code is a parse
/// error.
pub open spec fn spec_abort_transfer_decode(data: Seq<u8>) -> Result<
    SdoCmdAbortTransfer,
    CanOpenError,
> {
    match spec_abort_code_decode(u32_from_le(data[4], data[5], data[6], data[7])) {
        Some(abort_code) => Ok(
            SdoCmdAbortTransfer { index: u16_from_le(data[1], data[2]), sub_index: data[3], abort_code },
        ),
        None => Err(CanOpenError::ParseError),
    }
}

impl SdoCmdAbortTransfer {
    pub fn encode(&self, frame: &mut CanFrame)
        ensures
            final(frame).id == old(frame).id,
            final(frame).data@ == spec_abort_transfer_bytes(*self),
    {
        let code: u32 = self.abort_code.encode();
        let mut d: Vec<u8> = Vec::new();
        d.push(0b1000_0000);
        d.push((self.index & 0xFF) as u8);
        d.push((self.index >> 8) as u8);
        d.push(self.sub_index);
        d.push((code & 0xFF) as u8);
        d.push(((code >> 8) & 0xFF) as u8);
        d.push(((code >> 16) & 0xFF) as u8);
        d.push((code >> 24) as u8);
        frame.data = d;
        proof {
            assert(frame.data@ =~= spec_abort_transfer_bytes(*self));
        }
    }

    pub fn decode(frame: &CanFrame) -> (r: Result<Self, CanOpenError>)
        requires
            frame.data@.len() >= 8,
        ensures
            r == spec_abort_transfer_decode(frame.data@),
    {
        let index: u16 = (frame.data[1] as u16) | ((frame.data[2] as u16) << 8);
        let sub_index: u8 = frame.data[3];
        let code: u32 = (frame.data[4] as u32) | ((frame.data[5] as u32) << 8) | ((frame.data[6]
            as u32) << 16) | ((frame.data[7] as u32) << 24);
        match AbortCode::decode(code) {
            Some(abort_code) => Ok(SdoCmdAbortTransfer { index, sub_index, abort_code }),
            None => Err(CanOpenError::ParseError),
        }
    }
}


/// All SDO commands, requests (`Rx`, client to server) and responses
/// (`Tx`, server to client). Block transfers are recognized but not
/// implemented.
#[derive(Clone, Debug, PartialEq)]
pub enum SdoCmd {
    DownloadSegmentTx(SdoCmdDownloadSegmentTx),
    InitiateDownloadTx(SdoCmdInitiateDownloadTx),
    InitiateUploadTx(SdoCmdInitiateUploadTx),
    UploadSegmentTx(SdoCmdUploadSegmentTx),
    BlockUploadTx,
    BlockDownloadTx,
    DownloadSegmentRx(SdoCmdDownloadSegmentRx),
    InitiateDownloadRx(SdoCmdInitiateDownloadRx),
    InitiateUploadRx(SdoCmdInitiateUploadRx),
    UploadSegmentRx(SdoCmdUploadSegmentRx),
    BlockUploadRx,
    BlockDownloadRx,
    AbortTransfer(SdoCmdAbortTransfer),
}

/// The mathematical image of an SDO command.
#[verifier::ext_equal]
pub enum SpecSdoCmd {
    DownloadSegmentTx(SdoCmdDownloadSegmentTx),
    InitiateDownloadTx(SdoCmdInitiateDownloadTx),
    InitiateUploadTx(SpecSdoCmdInitiateUploadTx),
    UploadSegmentTx(SpecSdoCmdUploadSegmentTx),
    BlockUploadTx,
    BlockDownloadTx,
    DownloadSegmentRx(SpecSdoCmdDownloadSegmentRx),
    InitiateDownloadRx(SpecSdoCmdInitiateDownloadRx),
    InitiateUploadRx(SdoCmdInitiateUploadRx),
    UploadSegmentRx(SdoCmdUploadSegmentRx),
    BlockUploadRx,
    BlockDownloadRx,
    AbortTransfer(SdoCmdAbortTransfer),
}

impl View for SdoCmd {
    type V = SpecSdoCmd;

    open spec fn view(&self) -> SpecSdoCmd {
        match self {
            SdoCmd::DownloadSegmentTx(c) => SpecSdoCmd::DownloadSegmentTx(*c),
            SdoCmd::InitiateDownloadTx(c) => SpecSdoCmd::InitiateDownloadTx(*c),
            SdoCmd::InitiateUploadTx(c) => SpecSdoCmd::InitiateUploadTx(c@),
            SdoCmd::UploadSegmentTx(c) => SpecSdoCmd::UploadSegmentTx(c@),
            SdoCmd::BlockUploadTx => SpecSdoCmd::BlockUploadTx,
            SdoCmd::BlockDownloadTx => SpecSdoCmd::BlockDownloadTx,
            SdoCmd::DownloadSegmentRx(c) => SpecSdoCmd::DownloadSegmentRx(c@),
            SdoCmd::InitiateDownloadRx(c) => SpecSdoCmd::InitiateDownloadRx(c@),
            SdoCmd::InitiateUploadRx(c) => SpecSdoCmd::InitiateUploadRx(*c),
            SdoCmd::UploadSegmentRx(c) => SpecSdoCmd::UploadSegmentRx(*c),
            SdoCmd::BlockUploadRx => SpecSdoCmd::BlockUploadRx,
            SdoCmd::BlockDownloadRx => SpecSdoCmd::BlockDownloadRx,
            SdoCmd::AbortTransfer(c) => SpecSdoCmd::AbortTransfer(*c),
        }
    }
}

impl SpecSdoCmd {
    /// Every variable-length field fits its wire slot.
    pub open spec fn wf(self) -> bool {
        match self {
            SpecSdoCmd::InitiateDownloadRx(c) => c.payload.wf(),
            SpecSdoCmd::InitiateUploadTx(c) => c.payload.wf(),
            SpecSdoCmd::DownloadSegmentRx(c) => c.data.len() <= 7,
            SpecSdoCmd::UploadSegmentTx(c) => c.data.len() <= 7,
            _ => true,
        }
    }

    /// A block-transfer placeholder, which the codec does not implement.
    pub open spec fn is_block(self) -> bool {
        match self {
            SpecSdoCmd::BlockUploadTx => true,
            SpecSdoCmd::BlockDownloadTx => true,
            SpecSdoCmd::BlockUploadRx => true,
            SpecSdoCmd::BlockDownloadRx => true,
            _ => false,
        }
    }

    /// The direction whose command table holds this command: `Rx` commands
    /// travel as requests, `Tx` commands as responses, aborts as either.
    pub open spec fn direction_matches(self, d: ReqRes) -> bool {
        match self {
            SpecSdoCmd::DownloadSegmentTx(_) => d == ReqRes::Res,
            SpecSdoCmd::InitiateDownloadTx(_) => d == ReqRes::Res,
            SpecSdoCmd::InitiateUploadTx(_) => d == ReqRes::Res,
            SpecSdoCmd::UploadSegmentTx(_) => d == ReqRes::Res,
            SpecSdoCmd::BlockUploadTx => d == ReqRes::Res,
            SpecSdoCmd::BlockDownloadTx => d == ReqRes::Res,
            SpecSdoCmd::DownloadSegmentRx(_) => d == ReqRes::Req,
            SpecSdoCmd::InitiateDownloadRx(_) => d == ReqRes::Req,
            SpecSdoCmd::InitiateUploadRx(_) => d == ReqRes::Req,
            SpecSdoCmd::UploadSegmentRx(_) => d == ReqRes::Req,
            SpecSdoCmd::BlockUploadRx => d == ReqRes::Req,
            SpecSdoCmd::BlockDownloadRx => d == ReqRes::Req,
            SpecSdoCmd::AbortTransfer(_) => true,
        }
    }
}

/// The eight wire bytes of a non-block SDO command.
pub open spec fn spec_sdo_cmd_bytes(c: SpecSdoCmd) -> Seq<u8> {
    match c {
        SpecSdoCmd::DownloadSegmentTx(inner) => spec_download_segment_tx_bytes(inner),
        SpecSdoCmd::InitiateDownloadTx(inner) => spec_init_download_tx_bytes(inner),
        SpecSdoCmd::InitiateUploadTx(inner) => spec_init_upload_tx_bytes(inner),
        SpecSdoCmd::UploadSegmentTx(inner) => spec_seg_data_bytes(
            inner.toggle,
            inner.data,
            inner.last,
        ),
        SpecSdoCmd::DownloadSegmentRx(inner) => spec_seg_data_bytes(
            inner.toggle,
            inner.data,
            inner.last,
        ),
        SpecSdoCmd::InitiateDownloadRx(inner) => spec_init_download_rx_bytes(inner),
        SpecSdoCmd::InitiateUploadRx(inner) => spec_init_upload_rx_bytes(inner),
        SpecSdoCmd::UploadSegmentRx(inner) => spec_upload_segment_rx_bytes(inner),
        SpecSdoCmd::AbortTransfer(inner) => spec_abort_transfer_bytes(inner),
        _ => zero_bytes(8),
    }
}

/// A bare SDO command specifier: the meaning the three `scs` bits have once
/// the direction is known.
#[derive(Clone, Copy, Debug, PartialEq, Eq, Structural)]
pub enum SdoCmdSpec {
    DownloadSegment,
    InitiateDownload,
    InitiateUpload,
    UploadSegment,
    AbortTransfer,
    BlockUpload,
    BlockDownload,
}

/// The command the top three bits of byte 0 denote in the given direction;
/// `scs` 7 denotes nothing.
pub open spec fn spec_sdo_cmd_spec_decode(d: ReqRes, byte: u8) -> Option<SdoCmdSpec> {
    let scs = byte >> 5;
    if scs == 0x04 {
        Some(SdoCmdSpec::AbortTransfer)
    } else if scs == 0x05 {
        Some(SdoCmdSpec::BlockUpload)
    } else if scs == 0x06 {
        Some(SdoCmdSpec::BlockDownload)
    } else {
        match d {
            ReqRes::Req => if scs == 0x00 {
                Some(SdoCmdSpec::DownloadSegment)
            } else if scs == 0x01 {
                Some(SdoCmdSpec::InitiateDownload)
            } else if scs == 0x02 {
                Some(SdoCmdSpec::InitiateUpload)
            } else if scs == 0x03 {
                Some(SdoCmdSpec::UploadSegment)
            } else {
                None
            },
            ReqRes::Res => if scs == 0x00 {
                Some(SdoCmdSpec::UploadSegment)
            } else if scs == 0x01 {
                Some(SdoCmdSpec::DownloadSegment)
            } else if scs == 0x02 {
                Some(SdoCmdSpec::InitiateUpload)
            } else if scs == 0x03 {
                Some(SdoCmdSpec::InitiateDownload)
            } else {
                None
            },
        }
    }
}

impl SdoCmdSpec {
    /// Classifies the command byte of an SDO frame by direction; the
    /// meaning of the specifier differs between requests and responses.
    pub fn from_byte(byte: u8, reqres: ReqRes) -> (r: Result<SdoCmdSpec, CanOpenError>)
        ensures
            r == match spec_sdo_cmd_spec_decode(reqres, byte) {
                Some(s) => Ok::<SdoCmdSpec, CanOpenError>(s),
                None => Err::<SdoCmdSpec, CanOpenError>(CanOpenError::ParseError),
            },
    {
        let scs: u8 = byte >> 5;
        if scs == 0x04 {
            Ok(SdoCmdSpec::AbortTransfer)
        } else if scs == 0x05 {
            Ok(SdoCmdSpec::BlockUpload)
        } else if scs == 0x06 {
            Ok(SdoCmdSpec::BlockDownload)
        } else {
            match reqres {
                ReqRes::Req => if scs == 0x00 {
                    Ok(SdoCmdSpec::DownloadSegment)
                } else if scs == 0x01 {
                    Ok(SdoCmdSpec::InitiateDownload)
                } else if scs == 0x02 {
                    Ok(SdoCmdSpec::InitiateUpload)
                } else if scs == 0x03 {
                    Ok(SdoCmdSpec::UploadSegment)
                } else {
                    Err(CanOpenError::ParseError)
                },
                ReqRes::Res => if scs == 0x00 {
                    Ok(SdoCmdSpec::UploadSegment)
                } else if scs == 0x01 {
                    Ok(SdoCmdSpec::DownloadSegment)
                } else if scs == 0x02 {
                    Ok(SdoCmdSpec::InitiateUpload)
                } else if scs == 0x03 {
                    Ok(SdoCmdSpec::InitiateDownload)
                } else {
                    Err(CanOpenError::ParseError)
                },
            }
        }
    }
}

/// What decoding the eight payload bytes of an SDO frame yields in the
/// given direction.
pub open spec fn spec_sdo_cmd_decode(d: ReqRes, data: Seq<u8>) -> Result<
    SpecSdoCmd,
    CanOpenError,
> {
    match spec_sdo_cmd_spec_decode(d, data[0]) {
        None => Err(CanOpenError::ParseError),
        Some(spec) => match (d, spec) {
            (ReqRes::Req, SdoCmdSpec::InitiateDownload) => Ok(
                SpecSdoCmd::InitiateDownloadRx(spec_init_download_rx_decode(data)),
            ),
            (ReqRes::Req, SdoCmdSpec::DownloadSegment) => Ok(
                SpecSdoCmd::DownloadSegmentRx(spec_download_segment_rx_decode(data)),
            ),
            (ReqRes::Res, SdoCmdSpec::InitiateDownload) => Ok(
                SpecSdoCmd::InitiateDownloadTx(spec_init_download_tx_decode(data)),
            ),
            (ReqRes::Res, SdoCmdSpec::DownloadSegment) => Ok(
                SpecSdoCmd::DownloadSegmentTx(spec_download_segment_tx_decode(data)),
            ),
            (ReqRes::Req, SdoCmdSpec::InitiateUpload) => Ok(
                SpecSdoCmd::InitiateUploadRx(spec_init_upload_rx_decode(data)),
            ),
            (ReqRes::Req, SdoCmdSpec::UploadSegment) => Ok(
                SpecSdoCmd::UploadSegmentRx(spec_upload_segment_rx_decode(data)),
            ),
            (ReqRes::Res, SdoCmdSpec::InitiateUpload) => Ok(
                SpecSdoCmd::InitiateUploadTx(spec_init_upload_tx_decode(data)),
            ),
            (ReqRes::Res, SdoCmdSpec::UploadSegment) => Ok(
                SpecSdoCmd::UploadSegmentTx(spec_upload_segment_tx_decode(data)),
            ),
            (_, SdoCmdSpec::AbortTransfer) => match spec_abort_transfer_decode(data) {
                Ok(a) => Ok(SpecSdoCmd::AbortTransfer(a)),
                Err(e) => Err(e),
            },
            _ => Err(CanOpenError::NotYetImplemented),
        },
    }
}

/// A service data object frame: the node, the direction taken from the
/// COB-ID, and the command in the eight payload bytes.
#[derive(Clone, Debug, PartialEq)]
pub struct Sdo {
    pub node_id: u8,
    pub command: SdoCmd,
    pub reqres: ReqRes,
}

/// The mathematical image of an SDO frame.
#[verifier::ext_equal]
pub struct SpecSdo {
    pub node_id: u8,
    pub command: SpecSdoCmd,
    pub reqres: ReqRes,
}

impl View for Sdo {
    type V = SpecSdo;

    open spec fn view(&self) -> SpecSdo {
        SpecSdo { node_id: self.node_id, command: self.command@, reqres: self.reqres }
    }
}

/// What decoding a frame as an SDO yields: a standard identifier in one of
/// the two SDO windows, eight payload bytes, and the command decoded in the
/// direction the identifier gives.
pub open spec fn spec_sdo_decode(f: SpecFrame) -> Result<SpecSdo, CanOpenError> {
    match f.std_id() {
        None => Err(CanOpenError::CanVersion),
        Some(id) => if !(0x580 <= id && id <= 0x5FF) && !(0x600 <= id && id <= 0x67F) {
            Err(CanOpenError::BadMessage)
        } else if f.data.len() < 8 {
            Err(CanOpenError::ParseError)
        } else {
            let reqres = spec_reqres_from_sdo_id(id);
            match spec_sdo_cmd_decode(reqres, f.data) {
                Ok(command) => Ok(SpecSdo { node_id: (id & 0x7F) as u8, command, reqres }),
                Err(e) => Err(e),
            }
        },
    }
}

impl SdoCmd {
    /// True exactly when `b` is the response counterpart of the request
    /// `a`: same sub-protocol, `a` a request and `b` the matching response.
    pub open spec fn spec_is_response_to(a: SpecSdoCmd, b: SpecSdoCmd) -> bool {
        match (a, b) {
            (SpecSdoCmd::DownloadSegmentRx(_), SpecSdoCmd::DownloadSegmentTx(_)) => true,
            (SpecSdoCmd::InitiateDownloadRx(_), SpecSdoCmd::InitiateDownloadTx(_)) => true,
            (SpecSdoCmd::InitiateUploadRx(_), SpecSdoCmd::InitiateUploadTx(_)) => true,
            (SpecSdoCmd::UploadSegmentRx(_), SpecSdoCmd::UploadSegmentTx(_)) => true,
            (SpecSdoCmd::BlockUploadRx, SpecSdoCmd::BlockUploadTx) => true,
            (SpecSdoCmd::BlockDownloadRx, SpecSdoCmd::BlockDownloadTx) => true,
            _ => false,
        }
    }

    /// Whether `b` answers `a` according to the request/response table.
    pub fn is_response_to(a: &Self, b: &Self) -> (r: bool)
        ensures
            r == Self::spec_is_response_to(a@, b@),
    {
        match (a, b) {
            (SdoCmd::DownloadSegmentRx(_), SdoCmd::DownloadSegmentTx(_)) => true,
            (SdoCmd::InitiateDownloadRx(_), SdoCmd::InitiateDownloadTx(_)) => true,
            (SdoCmd::InitiateUploadRx(_), SdoCmd::InitiateUploadTx(_)) => true,
            (SdoCmd::UploadSegmentRx(_), SdoCmd::UploadSegmentTx(_)) => true,
            (SdoCmd::BlockUploadRx, SdoCmd::BlockUploadTx) => true,
            (SdoCmd::BlockDownloadRx, SdoCmd::BlockDownloadTx) => true,
            _ => false,
        }
    }
}

impl SpecSdo {
    /// Every variable-length field fits its wire slot and the command is
    /// encodable (not a block-transfer placeholder).
    pub open spec fn wf(self) -> bool {
        self.command.wf() && !self.command.is_block()
    }
}

impl Sdo {
    /// Every variable-length field fits its wire slot and the command is
    /// encodable (not a block-transfer placeholder).
    pub open spec fn wf(&self) -> bool {
        self@.wf()
    }

    /// An expedited write request: index, sub-index and the data in the
    /// initiate frame.
    pub fn new_write(node_id: u8, index: u16, sub_index: u8, data: Vec<u8>) -> (r: Sdo)
        ensures
            r@ == (SpecSdo {
                node_id,
                command: SpecSdoCmd::InitiateDownloadRx(
                    SpecSdoCmdInitiateDownloadRx {
                        index,
                        sub_index,
                        payload: SpecSdoCmdInitiatePayload::Expedited(data@),
                    },
                ),
                reqres: ReqRes::Req,
            }),
    {
        Sdo {
            node_id,
            reqres: ReqRes::Req,
            command: SdoCmd::InitiateDownloadRx(
                SdoCmdInitiateDownloadRx {
                    index,
                    sub_index,
                    payload: SdoCmdInitiatePayload::Expedited(data),
                },
            ),
        }
    }

    /// The server acknowledgement of a write request.
    pub fn new_write_resp(node_id: u8, index: u16, sub_index: u8) -> (r: Sdo)
        ensures
            r@ == (SpecSdo {
                node_id,
                command: SpecSdoCmd::InitiateDownloadTx(SdoCmdInitiateDownloadTx { index, sub_index }),
                reqres: ReqRes::Res,
            }),
    {
        Sdo {
            node_id,
            reqres: ReqRes::Res,
            command: SdoCmd::InitiateDownloadTx(SdoCmdInitiateDownloadTx { index, sub_index }),
        }
    }

    /// Writes the SDO COB-ID of the direction and the eight command bytes.
    pub fn encode(&self, frame: &mut CanFrame)
        requires
            self.wf(),
        ensures
            final(frame).id == CanId::Standard(
                (self.node_id as u16 + reqres_sdo_base(self.reqres)) as u16,
            ),
            final(frame).data@ == spec_sdo_cmd_bytes(self@.command),
            final(frame).wf(),
    {
        frame.id = CanId::Standard(self.node_id as u16 + self.reqres.to_u16_sdo());
        match &self.command {
            SdoCmd::InitiateUploadRx(inner) => inner.encode(frame),
            SdoCmd::InitiateDownloadRx(inner) => inner.encode(frame),
            SdoCmd::UploadSegmentRx(inner) => inner.encode(frame),
            SdoCmd::DownloadSegmentRx(inner) => inner.encode(frame),
            SdoCmd::InitiateUploadTx(inner) => inner.encode(frame),
            SdoCmd::InitiateDownloadTx(inner) => inner.encode(frame),
            SdoCmd::UploadSegmentTx(inner) => inner.encode(frame),
            SdoCmd::DownloadSegmentTx(inner) => inner.encode(frame),
            SdoCmd::AbortTransfer(inner) => inner.encode(frame),
            SdoCmd::BlockUploadTx => {
                proof {
                    assert(false);
                }
            },
            SdoCmd::BlockDownloadTx => {
                proof {
                    assert(false);
                }
            },
            SdoCmd::BlockUploadRx => {
                proof {
                    assert(false);
                }
            },
            SdoCmd::BlockDownloadRx => {
                proof {
                    assert(false);
                }
            },
        }
    }

    /// Needs a standard identifier in one of the two SDO windows and eight
    /// payload bytes; the direction and node are taken from the COB-ID.
    pub fn decode(frame: &CanFrame) -> (r: Result<Sdo, CanOpenError>)
        ensures
            view_result(r) == spec_sdo_decode(frame@),
    {
        let id = match frame.id {
            CanId::Standard(id) => id,
            CanId::Extended(_) => {
                return Err(CanOpenError::CanVersion);
            },
        };
        if !(0x580 <= id && id <= 0x5FF) && !(0x600 <= id && id <= 0x67F) {
            return Err(CanOpenError::BadMessage);
        }
        if frame.data.len() < 8 {
            return Err(CanOpenError::ParseError);
        }
        let node_id: u8 = (id & 0x7F) as u8;
        let reqres = ReqRes::from_u16_sdo(id);
        let command_spec = match SdoCmdSpec::from_byte(frame.data[0], reqres) {
            Ok(s) => s,
            Err(e) => {
                return Err(e);
            },
        };
        let command: SdoCmd = match (reqres, command_spec) {
            (ReqRes::Req, SdoCmdSpec::InitiateDownload) => SdoCmd::InitiateDownloadRx(
                SdoCmdInitiateDownloadRx::decode(frame),
            ),
            (ReqRes::Req, SdoCmdSpec::DownloadSegment) => SdoCmd::DownloadSegmentRx(
                SdoCmdDownloadSegmentRx::decode(frame),
            ),
            (ReqRes::Res, SdoCmdSpec::InitiateDownload) => SdoCmd::InitiateDownloadTx(
                SdoCmdInitiateDownloadTx::decode(frame),
            ),
            (ReqRes::Res, SdoCmdSpec::DownloadSegment) => SdoCmd::DownloadSegmentTx(
                SdoCmdDownloadSegmentTx::decode(frame),
            ),
            (ReqRes::Req, SdoCmdSpec::InitiateUpload) => SdoCmd::InitiateUploadRx(
                SdoCmdInitiateUploadRx::decode(frame),
            ),
            (ReqRes::Req, SdoCmdSpec::UploadSegment) => SdoCmd::UploadSegmentRx(
                SdoCmdUploadSegmentRx::decode(frame),
            ),
            (ReqRes::Res, SdoCmdSpec::InitiateUpload) => SdoCmd::InitiateUploadTx(
                SdoCmdInitiateUploadTx::decode(frame),
            ),
            (ReqRes::Res, SdoCmdSpec::UploadSegment) => SdoCmd::UploadSegmentTx(
                SdoCmdUploadSegmentTx::decode(frame),
            ),
            (_, SdoCmdSpec::AbortTransfer) => {
                match SdoCmdAbortTransfer::decode(frame) {
                    Ok(a) => SdoCmd::AbortTransfer(a),
                    Err(e) => {
                        return Err(e);
                    },
                }
            },
            _ => {
                return Err(CanOpenError::NotYetImplemented);
            },
        };
        Ok(Sdo { node_id, command, reqres })
    }
}


/// An initiate frame keeps its header and payload: the command specifier is
/// that of the base byte, the index and sub-index read back, and payload
/// decoding undoes payload encoding.
proof fn lemma_init_frame_round_trip(base: u8, index: u16, sub_index: u8, p: SpecSdoCmdInitiatePayload)
    requires
        p.wf(),
        base == 0x20 || base == 0x40,
    ensures
        init_frame_bytes(base, index, sub_index, p).len() == 8,
        init_frame_bytes(base, index, sub_index, p)[0] >> 5 == base >> 5,
        u16_from_le(
            init_frame_bytes(base, index, sub_index, p)[1],
            init_frame_bytes(base, index, sub_index, p)[2],
        ) == index,
        init_frame_bytes(base, index, sub_index, p)[3] == sub_index,
        spec_init_payload_decode(init_frame_bytes(base, index, sub_index, p)) == p,
{
    let bytes = init_frame_bytes(base, index, sub_index, p);
    let hdr = seq![base, u16_lo(index), u16_hi(index), sub_index, 0u8, 0u8, 0u8, 0u8];
    let ob = init_payload_or_bits(p);
    let tail = init_payload_tail(p);
    assert(hdr.subrange(1, 4) =~= seq![u16_lo(index), u16_hi(index), sub_index]);
    assert(tail.len() == 4);
    assert(bytes.len() == 8);
    assert(bytes[0] == (base | ob));
    assert(bytes[1] == u16_lo(index));
    assert(bytes[2] == u16_hi(index));
    assert(bytes[3] == sub_index);
    assert(bytes[4] == tail[0] && bytes[5] == tail[1] && bytes[6] == tail[2] && bytes[7]
        == tail[3]);
    lemma_u16_le_round_trip(index);
    match p {
        SpecSdoCmdInitiatePayload::Expedited(dd) => {
            let nn: u8 = (4 - dd.len()) as u8;
            assert(ob == (nn << 2) | 0b11);
            let b0 = bytes[0];
            assert(b0 >> 5 == base >> 5 && b0 & 0b1 != 0 && b0 & 0b10 != 0 && (b0 & 0b1100) >> 2
                == nn && nn <= 3) by (bit_vector)
                requires
                    b0 == (base | ((nn << 2) | 0b11)),
                    nn <= 3,
                    base == 0x20 || base == 0x40,
            ;
            let l: int = if nn == 0b11 {
                1
            } else if nn == 0b10 {
                2
            } else if nn == 0b01 {
                3
            } else {
                4
            };
            assert(l == dd.len());
            assert(bytes.subrange(4, 4 + l) =~= dd);
        },
        SpecSdoCmdInitiatePayload::Segmented(maybe_size) => {
            let b0 = bytes[0];
            match maybe_size {
                Some(size) => {
                    assert(b0 >> 5 == base >> 5 && b0 & 0b1 != 0 && b0 & 0b10 == 0)
                        by (bit_vector)
                        requires
                            b0 == (base | 0b01),
                            base == 0x20 || base == 0x40,
                    ;
                    crate::frame::lemma_u32_le_round_trip(size);
                },
                None => {
                    assert(b0 >> 5 == base >> 5 && b0 & 0b1 == 0 && b0 & 0b10 == 0)
                        by (bit_vector)
                        requires
                            b0 == (base | 0b00),
                            base == 0x20 || base == 0x40,
                    ;
                },
            }
        },
    }
}

/// A data segment keeps its toggle, data and last flag, and its command
/// specifier is zero.
proof fn lemma_seg_round_trip(toggle: bool, data: Seq<u8>, last: bool)
    requires
        data.len() <= 7,
    ensures
        spec_seg_data_bytes(toggle, data, last).len() == 8,
        spec_seg_data_bytes(toggle, data, last)[0] >> 5 == 0,
        spec_download_segment_rx_decode(spec_seg_data_bytes(toggle, data, last))
            == (SpecSdoCmdDownloadSegmentRx { toggle, data, last }),
        spec_upload_segment_tx_decode(spec_seg_data_bytes(toggle, data, last))
            == (SpecSdoCmdUploadSegmentTx { toggle, data, last }),
{
    let bytes = spec_seg_data_bytes(toggle, data, last);
    let tb: u8 = if toggle {
        0x10u8
    } else {
        0u8
    };
    let lb: u8 = if last {
        1u8
    } else {
        0u8
    };
    let nn: u8 = (7 - data.len()) as u8;
    let b0 = bytes[0];
    assert(b0 == (tb | ((nn << 1) | lb)));
    assert(b0 >> 5 == 0 && ((b0 & 0b10000 != 0) <==> tb == 0x10) && (b0 >> 1) & 0b111 == nn && ((
    b0 & 0b1 != 0) <==> lb == 1)) by (bit_vector)
        requires
            b0 == (tb | ((nn << 1) | lb)),
            tb == 0 || tb == 0x10,
            lb == 0 || lb == 1,
            nn <= 7,
    ;
    assert(bytes.subrange(1, 1 + (7 - ((b0 >> 1) & 0b111))) =~= data);
    assert(spec_download_segment_rx_decode(bytes) =~= (SpecSdoCmdDownloadSegmentRx {
        toggle,
        data,
        last,
    }));
    assert(spec_upload_segment_tx_decode(bytes) =~= (SpecSdoCmdUploadSegmentTx {
        toggle,
        data,
        last,
    }));
}

/// Decoding the encoding of any well-formed, non-block SDO command in the
/// direction it belongs to gives the command back.
pub proof fn lemma_sdo_cmd_round_trip(c: SpecSdoCmd, d: ReqRes)
    requires
        c.wf(),
        !c.is_block(),
        c.direction_matches(d),
    ensures
        spec_sdo_cmd_decode(d, spec_sdo_cmd_bytes(c)) == Ok::<SpecSdoCmd, CanOpenError>(c),
{
    let bytes = spec_sdo_cmd_bytes(c);
    match c {
        SpecSdoCmd::InitiateDownloadRx(inner) => {
            lemma_init_frame_round_trip(0x20, inner.index, inner.sub_index, inner.payload);
            assert(0x20u8 >> 5 == 1) by (bit_vector);
            assert(spec_sdo_cmd_decode(d, bytes) matches Ok(c2) && c2 =~= c);
        },
        SpecSdoCmd::InitiateUploadTx(inner) => {
            lemma_init_frame_round_trip(0x40, inner.index, inner.sub_index, inner.payload);
            assert(0x40u8 >> 5 == 2) by (bit_vector);
            assert(spec_sdo_cmd_decode(d, bytes) matches Ok(c2) && c2 =~= c);
        },
        SpecSdoCmd::DownloadSegmentRx(inner) => {
            lemma_seg_round_trip(inner.toggle, inner.data, inner.last);
            assert(spec_sdo_cmd_decode(d, bytes) matches Ok(c2) && c2 =~= c);
        },
        SpecSdoCmd::UploadSegmentTx(inner) => {
            lemma_seg_round_trip(inner.toggle, inner.data, inner.last);
            assert(spec_sdo_cmd_decode(d, bytes) matches Ok(c2) && c2 =~= c);
        },
        SpecSdoCmd::InitiateDownloadTx(inner) => {
            let b0 = bytes[0];
            assert(b0 == 0x60);
            assert(0x60u8 >> 5 == 3) by (bit_vector);
            lemma_u16_le_round_trip(inner.index);
            assert(spec_sdo_cmd_decode(d, bytes) matches Ok(c2) && c2 =~= c);
        },
        SpecSdoCmd::InitiateUploadRx(inner) => {
            let b0 = bytes[0];
            assert(b0 == 0x40);
            assert(0x40u8 >> 5 == 2) by (bit_vector);
            lemma_u16_le_round_trip(inner.index);
            assert(spec_sdo_cmd_decode(d, bytes) matches Ok(c2) && c2 =~= c);
        },
        SpecSdoCmd::DownloadSegmentTx(inner) => {
            let tb: u8 = if inner.toggle {
                0x10u8
            } else {
                0u8
            };
            let b0 = bytes[0];
            assert(b0 == ((0b001u8 << 5) | tb));
            assert(b0 >> 5 == 1 && ((b0 & 0b10000 != 0) <==> tb == 0x10)) by (bit_vector)
                requires
                    b0 == ((0b001u8 << 5) | tb),
                    tb == 0 || tb == 0x10,
            ;
            assert(spec_sdo_cmd_decode(d, bytes) matches Ok(c2) && c2 =~= c);
        },
        SpecSdoCmd::UploadSegmentRx(inner) => {
            let tb: u8 = if inner.toggle {
                0x10u8
            } else {
                0u8
            };
            let b0 = bytes[0];
            assert(b0 == ((0b011u8 << 5) | tb));
            assert(b0 >> 5 == 3 && ((b0 & 0b10000 != 0) <==> tb == 0x10)) by (bit_vector)
                requires
                    b0 == ((0b011u8 << 5) | tb),
                    tb == 0 || tb == 0x10,
            ;
            assert(spec_sdo_cmd_decode(d, bytes) matches Ok(c2) && c2 =~= c);
        },
        SpecSdoCmd::AbortTransfer(inner) => {
            let b0 = bytes[0];
            assert(b0 == 0x80);
            assert(0x80u8 >> 5 == 4) by (bit_vector);
            lemma_u16_le_round_trip(inner.index);
            crate::frame::lemma_u32_le_round_trip(abort_code_value(inner.abort_code));
            crate::enums::lemma_abort_code_round_trip(inner.abort_code);
            assert(spec_sdo_cmd_decode(d, bytes) matches Ok(c2) && c2 =~= c);
        },
        _ => {
        },
    }
}

/// The SDO COB-ID of a direction and node.
pub open spec fn spec_sdo_id(s: SpecSdo) -> u16 {
    (s.node_id + reqres_sdo_base(s.reqres)) as u16
}

/// Decoding an encoded SDO frame gives the frame back, for every
/// well-formed non-block command sent in its own direction to an
/// addressable node.
pub proof fn lemma_sdo_round_trip(s: SpecSdo)
    requires
        s.command.wf(),
        !s.command.is_block(),
        s.command.direction_matches(s.reqres),
        s.node_id <= 0x7F,
    ensures
        spec_sdo_decode(
            SpecFrame { id: CanId::Standard(spec_sdo_id(s)), data: spec_sdo_cmd_bytes(s.command) },
        ) == Ok::<SpecSdo, CanOpenError>(s),
{
    let id = spec_sdo_id(s);
    let n = s.node_id;
    match s.reqres {
        ReqRes::Req => {
            assert(id == 0x600 + n);
            assert(0x600 <= id <= 0x67F && id & 0x7F == n && id & 0x780 != 0x580) by (bit_vector)
                requires
                    id == 0x600 + n,
                    n <= 0x7F,
            ;
        },
        ReqRes::Res => {
            assert(id == 0x580 + n);
            assert(0x580 <= id <= 0x5FF && id & 0x7F == n && id & 0x780 == 0x580) by (bit_vector)
                requires
                    id == 0x580 + n,
                    n <= 0x7F,
            ;
        },
    }
    lemma_sdo_cmd_round_trip(s.command, s.reqres);
    assert(spec_sdo_decode(
        SpecFrame { id: CanId::Standard(id), data: spec_sdo_cmd_bytes(s.command) },
    ) matches Ok(s2) && s2 =~= s);
}

} // verus!
