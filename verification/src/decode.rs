//! Response decoder: validates a response payload against the expected shape
//! of the operation that produced it and extracts a typed result.

use crate::frame::ResponseFrame;
use crate::frame::PK_LEN;
use crate::frame::SIG_LEN;
use vstd::prelude::*;
use vstd::slice::slice_subrange;
use vstd::slice::slice_to_vec;
use vstd::string::StringSliceAdditionalSpecFns;
use vstd::utf8::decode_utf8;
use vstd::utf8::encode_utf8_decode_utf8;
use vstd::utf8::encode_utf8;
use vstd::utf8::valid_utf8;

verus! {

/// The error kinds this protocol layer reports. Transport failures are not
/// among them: the transport surfaces its own errors before any payload
/// reaches these decoders.
#[derive(Clone, Copy, Debug, PartialEq, Eq, Structural)]
pub enum ProtocolError {
    /// Address response payload shorter than a public key.
    InvalidPublicKey,
    /// Address bytes after the public-key prefix are not valid UTF-8.
    AddressEncoding,
    /// Sign response reports success but carries an empty payload.
    NoSignature,
    /// Sign response payload is not exactly one signature long.
    InvalidSignature,
    /// A signature was requested over an empty message.
    InvalidEmptyMessage,
}

/// A decoded address response: the public key and the address string, both
/// extracted from one response payload.
#[derive(Debug)]
pub struct Address {
    /// Uncompressed public key, always [`PK_LEN`] bytes.
    pub public_key: Vec<u8>,
    /// Address string, decoded from the payload bytes after the public key.
    pub address: String,
}

/// Relies on `core::str::from_utf8`: it succeeds exactly on valid UTF-8
/// input, and the returned string is a view of the same bytes.
#[verifier::external_body]
fn bytes_to_str(bytes: &[u8]) -> (r: Option<&str>)
    ensures
        r is Some <==> valid_utf8(bytes@),
        r matches Some(s) ==> s.spec_bytes() == bytes@,
{
    core::str::from_utf8(bytes).ok()
}

/// Decodes an address response payload: the first [`PK_LEN`] bytes are the
/// public key, everything after them is the UTF-8 address string.
///
/// Fails with `InvalidPublicKey` exactly when the payload is shorter than a
/// public key, and with `AddressEncoding` exactly when the remaining bytes
/// are not valid UTF-8; otherwise the result holds the key and an address
/// whose UTF-8 encoding is exactly the payload after the key, non-empty
/// whenever any bytes follow the key.
pub fn decode_address_response(payload: &[u8]) -> (r: Result<Address, ProtocolError>)
    ensures
        payload@.len() < PK_LEN ==> r == Err::<Address, ProtocolError>(
            ProtocolError::InvalidPublicKey,
        ),
        payload@.len() >= PK_LEN && !valid_utf8(payload@.skip(PK_LEN as int)) ==> r == Err::<
            Address,
            ProtocolError,
        >(ProtocolError::AddressEncoding),
        payload@.len() >= PK_LEN && valid_utf8(payload@.skip(PK_LEN as int)) ==> (r matches Ok(a)
            && a.public_key@ == payload@.take(PK_LEN as int) && a.address@ == decode_utf8(
            payload@.skip(PK_LEN as int),
        ) && encode_utf8(a.address@) == payload@.skip(PK_LEN as int) && (payload@.len() > PK_LEN
            ==> a.address@.len() > 0)),
{
    if payload.len() < PK_LEN {
        return Err(ProtocolError::InvalidPublicKey);
    }
    let public_key: Vec<u8> = slice_to_vec(slice_subrange(payload, 0, PK_LEN));
    let address_bytes: &[u8] = slice_subrange(payload, PK_LEN, payload.len());
    match bytes_to_str(address_bytes) {
        Some(s) => {
            let address = s.to_owned();
            proof {
                encode_utf8_decode_utf8(s@);
                if s@.len() == 0 {
                    assert(encode_utf8(s@) =~= Seq::<u8>::empty());
                }
            }
            Ok(Address { public_key, address })
        },
        None => Err(ProtocolError::AddressEncoding),
    }
}

/// Decodes a sign response. A successful status with an empty payload means
/// the device produced no signature; any payload that is not exactly
/// [`SIG_LEN`] bytes is malformed whatever the status; otherwise the payload
/// bytes are the signature, returned verbatim.
pub fn decode_sign_response(response: &ResponseFrame) -> (r: Result<Vec<u8>, ProtocolError>)
    ensures
        response.data@.len() == 0 && response.status_code == 0 ==> r == Err::<
            Vec<u8>,
            ProtocolError,
        >(ProtocolError::NoSignature),
        !(response.data@.len() == 0 && response.status_code == 0) && response.data@.len()
            != SIG_LEN ==> r == Err::<Vec<u8>, ProtocolError>(ProtocolError::InvalidSignature),
        response.data@.len() == SIG_LEN ==> (r matches Ok(sig) && sig@ == response.data@),
{
    if response.data.len() == 0 && response.status_code == 0 {
        return Err(ProtocolError::NoSignature);
    }
    if response.data.len() != SIG_LEN {
        return Err(ProtocolError::InvalidSignature);
    }
    Ok(slice_to_vec(slice_subrange(response.data.as_slice(), 0, SIG_LEN)))
}

} // verus!
