//! Frame types and the byte-layout constants of the on-device application.

use vstd::prelude::*;

verus! {

/// Class byte identifying the target application on the device.
pub const CLA: u8 = 0x08;

/// Instruction byte selecting address derivation.
pub const INS_GET_ADDR_SECP256K1: u8 = 0x01;

/// Instruction byte selecting signing.
pub const INS_SIGN_SECP256K1: u8 = 0x02;

/// Length in bytes of an uncompressed public key (prefix byte plus two
/// 32-byte coordinates).
pub const PK_LEN: usize = 65;

/// Length in bytes of a recoverable signature (64 signature bytes plus one
/// recovery byte).
pub const SIG_LEN: usize = 65;

/// Largest message slice carried by one sign frame.
pub const CHUNK_SIZE: usize = 250;

/// Status word the transport reports for a successful command.
pub const WIRE_STATUS_OK: u16 = 0x9000;

/// Position of a frame's payload inside a chunked transfer.
///
/// The chunked transfer protocol is the sole producer of markers: `Init` is
/// reserved for the path-establishing first frame, `Add` tags every
/// intermediate message chunk, and `Last` tags the final chunk, whose
/// response carries the operation's result.
#[derive(Clone, Copy, Debug, PartialEq, Eq, Structural)]
pub enum ChunkMarker {
    /// First frame of a transfer: establishes the session, carries the path.
    Init,
    /// Intermediate message chunk.
    Add,
    /// Final message chunk; its response carries the result.
    Last,
}

impl ChunkMarker {
    /// Wire encoding of the marker, placed in a frame's `p1` byte.
    pub open spec fn spec_byte(self) -> u8 {
        match self {
            ChunkMarker::Init => 0,
            ChunkMarker::Add => 1,
            ChunkMarker::Last => 2,
        }
    }

    /// Wire encoding of the marker, placed in a frame's `p1` byte.
    #[verifier::when_used_as_spec(spec_byte)]
    pub fn byte(self) -> (b: u8)
        ensures
            b == self.spec_byte(),
    {
        match self {
            ChunkMarker::Init => 0,
            ChunkMarker::Add => 1,
            ChunkMarker::Last => 2,
        }
    }
}

/// One command frame addressed to the device application: class byte,
/// instruction byte, two parameter bytes, and the payload.
#[derive(Debug)]
pub struct CommandFrame {
    /// Class byte.
    pub cla: u8,
    /// Instruction byte.
    pub ins: u8,
    /// First instruction parameter.
    pub p1: u8,
    /// Second instruction parameter.
    pub p2: u8,
    /// Frame payload.
    pub data: Vec<u8>,
}

/// One response frame: a status code, zero on success, and the payload.
#[derive(Debug)]
pub struct ResponseFrame {
    /// Outcome code: zero on success, a device-reported code otherwise.
    pub status_code: u16,
    /// Response payload.
    pub data: Vec<u8>,
}

impl ResponseFrame {
    /// Builds the frame from a wire-level answer, mapping the transport's
    /// success word to the zero status code.
    pub fn from_wire(retcode: u16, data: Vec<u8>) -> (r: ResponseFrame)
        ensures
            r.status_code == (if retcode == WIRE_STATUS_OK {
                0u16
            } else {
                retcode
            }),
            r.data@ == data@,
    {
        let status_code: u16 = if retcode == WIRE_STATUS_OK {
            0
        } else {
            retcode
        };
        ResponseFrame { status_code, data }
    }
}

} // verus!
