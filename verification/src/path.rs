//! Derivation paths. The path type and its byte serialization come from the
//! `zx_bip44` crate; the library states exactly what the serializer returns
//! and builds its contracts on that.

use vstd::prelude::*;

verus! {

/// Declares `zx_bip44::BIP44Path` to the verifier: a tuple struct holding the
/// five path components as `u32` values, hardened components carrying the
/// high bit.
#[verifier::external_type_specification]
pub struct ExBIP44Path(zx_bip44::BIP44Path);

/// The four little-endian bytes of one path component.
pub open spec fn u32_le_bytes(x: u32) -> Seq<u8> {
    seq![
        (x & 0xff) as u8,
        ((x >> 8) & 0xff) as u8,
        ((x >> 16) & 0xff) as u8,
        ((x >> 24) & 0xff) as u8,
    ]
}

/// Serialized form of a five-component derivation path: the components in
/// order, each as four little-endian bytes, twenty bytes in all.
pub open spec fn spec_serialize_path(components: Seq<u32>) -> Seq<u8>
    recommends
        components.len() == 5,
{
    u32_le_bytes(components[0]) + u32_le_bytes(components[1]) + u32_le_bytes(components[2])
        + u32_le_bytes(components[3]) + u32_le_bytes(components[4])
}

/// Relies on `zx_bip44::BIP44Path::serialize`: it appends the four
/// little-endian bytes of each of the five components, in order, and returns
/// for every path.
pub assume_specification[ zx_bip44::BIP44Path::serialize ](path: &zx_bip44::BIP44Path) -> (r: Vec<
    u8,
>)
    ensures
        r@ == spec_serialize_path(path.0@),
;

/// Law: the serialized form of every path is exactly twenty bytes, so a path
/// payload always fits one frame and is never chunked.
pub proof fn lemma_serialized_path_len(components: Seq<u32>)
    ensures
        spec_serialize_path(components).len() == 20,
{
}

} // verus!
