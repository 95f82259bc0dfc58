//! Command codec: builds the outbound command frame for each logical
//! operation. Pure construction, no chunking: a serialized path always fits
//! one frame.

use crate::frame::ChunkMarker;
use crate::frame::CommandFrame;
use crate::frame::CLA;
use crate::frame::INS_GET_ADDR_SECP256K1;
use crate::frame::INS_SIGN_SECP256K1;
use crate::path::spec_serialize_path;
use vstd::prelude::*;

verus! {

/// Builds the frame requesting a public key and address for `path`. `p1`
/// carries the confirmation flag: one asks the device to show the address and
/// wait for the user, zero answers silently.
pub fn build_address_command(path: &zx_bip44::BIP44Path, require_confirmation: bool) -> (c:
    CommandFrame)
    ensures
        c.cla == CLA,
        c.ins == INS_GET_ADDR_SECP256K1,
        c.p1 == (if require_confirmation {
            1u8
        } else {
            0u8
        }),
        c.p2 == 0,
        c.data@ == spec_serialize_path(path.0@),
{
    let p1: u8 = if require_confirmation {
        1
    } else {
        0
    };
    CommandFrame { cla: CLA, ins: INS_GET_ADDR_SECP256K1, p1, p2: 0, data: path.serialize() }
}

/// Builds the frame that opens a signing session for `path`: the payload is
/// the serialized path and `p1` is the `Init` marker. The message body
/// follows in separate chunk frames, never here.
pub fn build_sign_init_command(path: &zx_bip44::BIP44Path) -> (c: CommandFrame)
    ensures
        c.cla == CLA,
        c.ins == INS_SIGN_SECP256K1,
        c.p1 == ChunkMarker::Init.spec_byte(),
        c.p2 == 0,
        c.data@ == spec_serialize_path(path.0@),
{
    CommandFrame {
        cla: CLA,
        ins: INS_SIGN_SECP256K1,
        p1: ChunkMarker::Init.byte(),
        p2: 0,
        data: path.serialize(),
    }
}

} // verus!
