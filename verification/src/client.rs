//! The decision core of the SDO client engine: which frames a write
//! transfer sends, how a read transfer advances on each response, and which
//! received message acknowledges a pending request. The blocking send/recv
//! loop around these decisions lives with the transport, outside this
//! library.

use vstd::prelude::*;

use crate::dispatch::{Message, SpecMessage};
use crate::error::CanOpenError;
use crate::message::ReqRes;
use crate::sdo::{
    Sdo, SdoCmd, SdoCmdDownloadSegmentRx, SdoCmdInitiateDownloadRx, SdoCmdInitiatePayload,
    SdoCmdInitiateUploadRx, SdoCmdUploadSegmentRx, SpecSdo, SpecSdoCmd,
    SpecSdoCmdDownloadSegmentRx, SpecSdoCmdInitiateDownloadRx, SpecSdoCmdInitiatePayload,
};

verus! {

/// What a received message means for a pending SDO request to `node_id`:
/// an abort for that node fails the transfer with its code, the matching
/// response acknowledges it, anything else is ignored.
pub open spec fn spec_is_sdo_ack(m: SpecMessage, command: SpecSdoCmd, node_id: u8) -> Result<
    bool,
    CanOpenError,
> {
    match m {
        SpecMessage::Sdo(sdo) => if sdo.node_id == node_id {
            match sdo.command {
                SpecSdoCmd::AbortTransfer(e) => Err(CanOpenError::SdoAbortTransfer(e.abort_code)),
                cmd => Ok(SdoCmd::spec_is_response_to(command, cmd)),
            }
        } else {
            Ok(false)
        },
        _ => Ok(false),
    }
}

/// Classifies a received message against the request `command` pending for
/// `node_id`, as the ack-waiting loop does.
pub fn is_sdo_ack(message: &Message, command: &SdoCmd, node_id: u8) -> (r: Result<
    bool,
    CanOpenError,
>)
    ensures
        r == spec_is_sdo_ack(message@, command@, node_id),
{
    match message {
        Message::Sdo(sdo) => if sdo.node_id == node_id {
            match &sdo.command {
                SdoCmd::AbortTransfer(e) => Err(CanOpenError::SdoAbortTransfer(e.abort_code)),
                cmd => Ok(SdoCmd::is_response_to(command, cmd)),
            }
        } else {
            Ok(false)
        },
        _ => Ok(false),
    }
}

/// The initiate frame of an SDO write: expedited when the data fits four
/// bytes, else segmented with the total size announced.
pub open spec fn spec_sdo_write_init(node_id: u8, index: u16, sub_index: u8, data: Seq<u8>) -> SpecSdo {
    SpecSdo {
        node_id,
        reqres: ReqRes::Req,
        command: SpecSdoCmd::InitiateDownloadRx(
            SpecSdoCmdInitiateDownloadRx {
                index,
                sub_index,
                payload: if data.len() <= 4 {
                    SpecSdoCmdInitiatePayload::Expedited(data)
                } else {
                    SpecSdoCmdInitiatePayload::Segmented(Some(data.len() as u32))
                },
            },
        ),
    }
}

/// Segment `i` of a segmented SDO write: seven bytes from offset `7 i`
/// (fewer for the final segment), the toggle alternating from false, the
/// last flag once the data is exhausted.
pub open spec fn spec_sdo_write_segment(node_id: u8, data: Seq<u8>, i: int) -> SpecSdo {
    SpecSdo {
        node_id,
        reqres: ReqRes::Req,
        command: SpecSdoCmd::DownloadSegmentRx(
            SpecSdoCmdDownloadSegmentRx {
                toggle: i % 2 == 1,
                data: data.subrange(
                    7 * i,
                    if 7 * i + 7 <= data.len() {
                        7 * i + 7
                    } else {
                        data.len() as int
                    },
                ),
                last: 7 * i + 7 >= data.len(),
            },
        ),
    }
}

/// The request frames of an SDO write of `data` to an object, in the order
/// they are sent; each must be acknowledged before the next goes out.
/// Empty data needs no frame; up to four bytes go in one expedited
/// initiate; longer data is announced by a segmented initiate and follows
/// in seven-byte segments with alternating toggle. Data longer than a
/// 32-bit size count cannot be announced and is an overflow error.
pub fn sdo_write_frames(node_id: u8, index: u16, sub_index: u8, data: &[u8]) -> (r: Result<
    Vec<Sdo>,
    CanOpenError,
>)
    ensures
        r is Err <==> data@.len() > 0xFFFF_FFFF,
        r is Err ==> r == Err::<Vec<Sdo>, CanOpenError>(CanOpenError::OverflowError),
        r matches Ok(frames) ==> {
            &&& (data@.len() == 0 ==> frames@.len() == 0)
            &&& (1 <= data@.len() <= 4 ==> frames@.len() == 1)
            &&& (data@.len() > 4 ==> frames@.len() >= 2 && 7 * (frames@.len() - 2) < data@.len()
                <= 7 * (frames@.len() - 1))
            &&& (data@.len() >= 1 ==> frames@[0]@ == spec_sdo_write_init(
                node_id,
                index,
                sub_index,
                data@,
            ))
            &&& (forall|i: int|
                1 <= i < frames@.len() ==> #[trigger] frames@[i]@ == spec_sdo_write_segment(
                    node_id,
                    data@,
                    i - 1,
                ))
            &&& (forall|i: int| 0 <= i < frames@.len() ==> (#[trigger] frames@[i]@).wf())
        },
{
    let n: usize = data.len();
    let mut frames: Vec<Sdo> = Vec::new();
    if n == 0 {
        return Ok(frames);
    }
    if n <= 4 {
        frames.push(
            Sdo {
                node_id,
                reqres: ReqRes::Req,
                command: SdoCmd::InitiateDownloadRx(
                    SdoCmdInitiateDownloadRx {
                        index,
                        sub_index,
                        payload: SdoCmdInitiatePayload::Expedited(vstd::slice::slice_to_vec(data)),
                    },
                ),
            },
        );
        return Ok(frames);
    }
    if n > 0xFFFF_FFFF {
        return Err(CanOpenError::OverflowError);
    }
    frames.push(
        Sdo {
            node_id,
            reqres: ReqRes::Req,
            command: SdoCmd::InitiateDownloadRx(
                SdoCmdInitiateDownloadRx {
                    index,
                    sub_index,
                    payload: SdoCmdInitiatePayload::Segmented(Some(n as u32)),
                },
            ),
        },
    );
    let mut off: usize = 0;
    let mut toggle: bool = false;
    let ghost mut segi: int = 0int;
    while off < n
        invariant
            n == data@.len(),
            4 < n <= 0xFFFF_FFFF,
            0 <= segi,
            off <= n,
            off < n ==> off == 7 * segi,
            off == n ==> 7 * (segi - 1) < n <= 7 * segi,
            toggle == (segi % 2 == 1),
            frames@.len() == 1 + segi,
            frames@[0]@ == spec_sdo_write_init(node_id, index, sub_index, data@),
            forall|i: int|
                1 <= i < frames@.len() ==> #[trigger] frames@[i]@ == spec_sdo_write_segment(
                    node_id,
                    data@,
                    i - 1,
                ),
        decreases n - off,
    {
        let rem: usize = n - off;
        let last: bool = rem <= 7;
        let end: usize = if last {
            n
        } else {
            off + 7
        };
        let seg: Vec<u8> = vstd::slice::slice_to_vec(&data[off..end]);
        let ghost fprev: Seq<Sdo> = frames@;
        frames.push(
            Sdo {
                node_id,
                reqres: ReqRes::Req,
                command: SdoCmd::DownloadSegmentRx(
                    SdoCmdDownloadSegmentRx { toggle, data: seg, last },
                ),
            },
        );
        proof {
            segi = segi + 1;
            assert(frames@[frames@.len() - 1]@ =~= spec_sdo_write_segment(
                node_id,
                data@,
                segi - 1,
            ));
            assert forall|i: int|
                1 <= i < frames@.len() implies #[trigger] frames@[i]@ == spec_sdo_write_segment(
                node_id,
                data@,
                i - 1,
            ) by {
                if i < frames@.len() - 1 {
                    assert(frames@[i] == fprev[i]);
                }
            }
        }
        toggle = !toggle;
        if last {
            off = n;
        } else {
            off = off + 7;
        }
    }
    proof {
        assert forall|i: int| 0 <= i < frames@.len() implies (#[trigger] frames@[i]@).wf() by {
            if i >= 1 {
                assert(frames@[i]@ == spec_sdo_write_segment(node_id, data@, i - 1));
            }
        }
    }
    Ok(frames)
}

/// Where a read transfer stands: waiting for the server's answer to the
/// initiate request, waiting for the next segment, or finished.
#[derive(Clone, Copy, Debug, PartialEq, Eq, Structural)]
pub enum ReadPhase {
    AwaitInitiate,
    AwaitSegment,
    Complete,
}

/// What the read transfer asks the caller to do next: send another request
/// frame, or accept the assembled object data.
#[derive(Clone, Debug, PartialEq)]
pub enum SdoReadStep {
    Request(Sdo),
    Done(Vec<u8>),
}

/// The client side of one SDO read (upload) transfer: it produces the
/// request frames one at a time and assembles the data the matching
/// responses carry. The caller sends each request, waits for its
/// acknowledged response (`is_sdo_ack`), and feeds the response command
/// back in.
#[derive(Clone, Debug, PartialEq)]
pub struct SdoReadTransfer {
    pub node_id: u8,
    pub index: u16,
    pub sub_index: u8,
    pub phase: ReadPhase,
    pub toggle: bool,
    pub buffer: Vec<u8>,
}

/// The mathematical image of a read transfer.
#[verifier::ext_equal]
pub struct SpecSdoReadTransfer {
    pub node_id: u8,
    pub index: u16,
    pub sub_index: u8,
    pub phase: ReadPhase,
    pub toggle: bool,
    pub buffer: Seq<u8>,
}

impl View for SdoReadTransfer {
    type V = SpecSdoReadTransfer;

    open spec fn view(&self) -> SpecSdoReadTransfer {
        SpecSdoReadTransfer {
            node_id: self.node_id,
            index: self.index,
            sub_index: self.sub_index,
            phase: self.phase,
            toggle: self.toggle,
            buffer: self.buffer@,
        }
    }
}

/// The upload-segment request with the given toggle.
pub open spec fn spec_upload_segment_request(node_id: u8, toggle: bool) -> SpecSdo {
    SpecSdo {
        node_id,
        reqres: ReqRes::Req,
        command: SpecSdoCmd::UploadSegmentRx(SdoCmdUploadSegmentRx { toggle }),
    }
}

impl SdoReadTransfer {
    /// A fresh transfer for one object: nothing received yet, toggle at
    /// false.
    pub fn new(node_id: u8, index: u16, sub_index: u8) -> (r: Self)
        ensures
            r@ == (SpecSdoReadTransfer {
                node_id,
                index,
                sub_index,
                phase: ReadPhase::AwaitInitiate,
                toggle: false,
                buffer: Seq::empty(),
            }),
    {
        let r = SdoReadTransfer {
            node_id,
            index,
            sub_index,
            phase: ReadPhase::AwaitInitiate,
            toggle: false,
            buffer: Vec::new(),
        };
        proof {
            assert(r@ =~= (SpecSdoReadTransfer {
                node_id,
                index,
                sub_index,
                phase: ReadPhase::AwaitInitiate,
                toggle: false,
                buffer: Seq::empty(),
            }));
        }
        r
    }

    /// The initiate-upload request that opens the transfer.
    pub fn initial_request(&self) -> (r: Sdo)
        ensures
            r@ == (SpecSdo {
                node_id: self@.node_id,
                reqres: ReqRes::Req,
                command: SpecSdoCmd::InitiateUploadRx(
                    SdoCmdInitiateUploadRx { index: self@.index, sub_index: self@.sub_index },
                ),
            }),
            r@.wf(),
    {
        Sdo {
            node_id: self.node_id,
            reqres: ReqRes::Req,
            command: SdoCmd::InitiateUploadRx(
                SdoCmdInitiateUploadRx { index: self.index, sub_index: self.sub_index },
            ),
        }
    }

    /// Advances the transfer on the acknowledged response to its pending
    /// request. An expedited answer finishes at once with its data; a
    /// segmented answer starts the segment loop at toggle false; each
    /// segment's bytes are appended, the toggle flipping after every
    /// request/response pair until the segment marked last; an abort
    /// surfaces its code and ends the transfer.
    pub fn on_response(&mut self, resp: &SdoCmd) -> (r: Result<SdoReadStep, CanOpenError>)
        requires
            old(self)@.phase != ReadPhase::Complete,
            match old(self)@.phase {
                ReadPhase::AwaitInitiate => (resp@ matches SpecSdoCmd::InitiateUploadTx(_)) || (
                resp@ matches SpecSdoCmd::AbortTransfer(_)),
                ReadPhase::AwaitSegment => (resp@ matches SpecSdoCmd::UploadSegmentTx(_)) || (
                resp@ matches SpecSdoCmd::AbortTransfer(_)),
                ReadPhase::Complete => false,
            },
        ensures
            final(self)@.node_id == old(self)@.node_id,
            final(self)@.index == old(self)@.index,
            final(self)@.sub_index == old(self)@.sub_index,
            match resp@ {
                SpecSdoCmd::AbortTransfer(a) => {
                    &&& r == Err::<SdoReadStep, CanOpenError>(
                        CanOpenError::SdoAbortTransfer(a.abort_code),
                    )
                    &&& final(self)@.phase == ReadPhase::Complete
                    &&& final(self)@.buffer == old(self)@.buffer
                },
                SpecSdoCmd::InitiateUploadTx(c) => match c.payload {
                    SpecSdoCmdInitiatePayload::Expedited(d) => {
                        &&& (r matches Ok(SdoReadStep::Done(out)) && out@ == d)
                        &&& final(self)@.phase == ReadPhase::Complete
                        &&& final(self)@.buffer == d
                    },
                    SpecSdoCmdInitiatePayload::Segmented(_) => {
                        &&& (r matches Ok(SdoReadStep::Request(q)) && q@
                            == spec_upload_segment_request(old(self)@.node_id, false) && q@.wf())
                        &&& final(self)@.phase == ReadPhase::AwaitSegment
                        &&& final(self)@.toggle == false
                        &&& final(self)@.buffer == old(self)@.buffer
                    },
                },
                SpecSdoCmd::UploadSegmentTx(c) => {
                    &&& final(self)@.buffer == old(self)@.buffer + c.data
                    &&& (c.last ==> (r matches Ok(SdoReadStep::Done(out))
                        && out@ == old(self)@.buffer + c.data)
                        && final(self)@.phase == ReadPhase::Complete)
                    &&& (!c.last ==> (r matches Ok(SdoReadStep::Request(q)) && q@
                        == spec_upload_segment_request(old(self)@.node_id, !old(self)@.toggle)
                        && q@.wf()) && final(self)@.phase == ReadPhase::AwaitSegment
                        && final(self)@.toggle == !old(self)@.toggle)
                },
                _ => false,
            },
    {
        match resp {
            SdoCmd::AbortTransfer(e) => {
                self.phase = ReadPhase::Complete;
                Err(CanOpenError::SdoAbortTransfer(e.abort_code))
            },
            SdoCmd::InitiateUploadTx(c) => match &c.payload {
                SdoCmdInitiatePayload::Expedited(d) => {
                    self.phase = ReadPhase::Complete;
                    self.buffer = d.clone();
                    Ok(SdoReadStep::Done(d.clone()))
                },
                SdoCmdInitiatePayload::Segmented(_) => {
                    self.phase = ReadPhase::AwaitSegment;
                    self.toggle = false;
                    Ok(
                        SdoReadStep::Request(
                            Sdo {
                                node_id: self.node_id,
                                reqres: ReqRes::Req,
                                command: SdoCmd::UploadSegmentRx(
                                    SdoCmdUploadSegmentRx { toggle: false },
                                ),
                            },
                        ),
                    )
                },
            },
            SdoCmd::UploadSegmentTx(c) => {
                self.buffer.extend_from_slice(c.data.as_slice());
                if c.last {
                    self.phase = ReadPhase::Complete;
                    Ok(SdoReadStep::Done(self.buffer.clone()))
                } else {
                    self.toggle = !self.toggle;
                    Ok(
                        SdoReadStep::Request(
                            Sdo {
                                node_id: self.node_id,
                                reqres: ReqRes::Req,
                                command: SdoCmd::UploadSegmentRx(
                                    SdoCmdUploadSegmentRx { toggle: self.toggle },
                                ),
                            },
                        ),
                    )
                }
            },
            _ => vstd::pervasive::unreached(),
        }
    }
}

} // verus!
