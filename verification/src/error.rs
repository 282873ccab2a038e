//! The error taxonomy shared by the codec and the SDO client engine.

use vstd::prelude::*;

use crate::enums::AbortCode;

verus! {

/// Everything that can go wrong while encoding, decoding or driving a
/// transfer.
///
/// Parse and validation failures (`ParseError`, `BadMessage`, `CanVersion`,
/// `UnknownFrameRWType`) leave no state behind: the next frame is unaffected.
/// Protocol failures (`SdoAbortTransfer`, `NotYetImplemented`) abort the
/// in-flight SDO transfer. Transport failures (`IOError`, `Timeout`,
/// `ConnectionError`, `OverflowError`) are surfaced by the I/O layer that
/// wraps this library.
#[derive(Clone, Debug, PartialEq, Eq)]
pub enum CanOpenError {
    OverflowError,
    Timeout(u64),
    BadMessage,
    ConnectionError,
    CanVersion,
    ParseError,
    UnknownFrameRWType(u32),
    NotYetImplemented,
    SdoAbortTransfer(AbortCode),
    IOError,
}

} // verus!
