//! Client-side CANopen (CiA-301) message codec and SDO client engine.
//!
//! The library maps typed CANopen messages (NMT, SYNC, EMCY, PDO, SDO, node
//! guarding) to and from CAN frames with 11-bit identifiers and up to eight
//! data bytes, and drives expedited and segmented SDO transfers. Frame I/O
//! is left to the caller: every function here is pure computation on frames
//! and messages.

pub mod client;
pub mod dispatch;
pub mod enums;
pub mod error;
pub mod frame;
pub mod message;
pub mod sdo;

pub use client::{is_sdo_ack, sdo_write_frames, ReadPhase, SdoReadStep, SdoReadTransfer};
pub use dispatch::Message;
pub use error::CanOpenError;
pub use frame::{CanFrame, CanId};
pub use message::{Emergency, Guard, GuardStatus, Nmt, NmtFunction, Pdo, ReqRes, Sync};
pub use sdo::{
    Sdo, SdoCmd, SdoCmdAbortTransfer, SdoCmdDownloadSegmentRx, SdoCmdDownloadSegmentTx,
    SdoCmdInitiateDownloadRx, SdoCmdInitiateDownloadTx, SdoCmdInitiatePayload,
    SdoCmdInitiateUploadRx, SdoCmdInitiateUploadTx, SdoCmdSpec, SdoCmdUploadSegmentRx,
    SdoCmdUploadSegmentTx,
};
