//! End-to-end tests of the command codec, the chunked transfer frames, and
//! the response decoders, on concrete values.

use ledger_crypto::build_address_command;
use ledger_crypto::build_sign_frames;
use ledger_crypto::build_sign_init_command;
use ledger_crypto::decode_address_response;
use ledger_crypto::decode_sign_response;
use ledger_crypto::ChunkMarker;
use ledger_crypto::ProtocolError;
use ledger_crypto::ResponseFrame;
use ledger_crypto::CHUNK_SIZE;
use ledger_crypto::CLA;
use ledger_crypto::INS_GET_ADDR_SECP256K1;
use ledger_crypto::INS_SIGN_SECP256K1;
use zx_bip44::BIP44Path;

fn hex_to_bytes(s: &str) -> Vec<u8> {
    let digits: Vec<u8> = s
        .bytes()
        .map(|b| match b {
            b'0'..=b'9' => b - b'0',
            b'a'..=b'f' => b - b'a' + 10,
            b'A'..=b'F' => b - b'A' + 10,
            _ => panic!("not a hex digit"),
        })
        .collect();
    assert!(digits.len() % 2 == 0);
    digits.chunks(2).map(|p| (p[0] << 4) | p[1]).collect()
}

const TRANSFER_PATH: &str = "m/44'/394'/0'/0/0";
const STAKING_PATH: &str = "m/44'/394'/1'/0/0";
const TRANSFER_PK_HEX: &str = "048ef50054db1b8c5ff9b02640a25463a37ca7d4249da43b4e6f4ea8f7af70daec5e276294642dec9dc28079397d6962cc32d3909e92995167768fbde7250424d9";
const TRANSFER_ADDRESS: &str = "cro1n97t35jymgksmh73mh0zj3qx539k3hg4pfhmncake4ssm3z7rreqzkza53";
const STAKING_PK_HEX: &str = "04eda422888bff3b3fa957ab9a509b6ae70c1249c9b9b35f1832aeb2e9a4f94b86076054d2641464e55f85e0c6d27d7dcebd60386f6178dec5e77a2a03330952aa";
const STAKING_ADDRESS: &str = "f3c7d0d3439c174b9ce8178c2d2ea95dc1f45c28";

#[test]
fn address_command_fields() {
    let path = BIP44Path::from_string(TRANSFER_PATH).unwrap();
    let cmd = build_address_command(&path, false);
    assert_eq!(cmd.cla, CLA);
    assert_eq!(cmd.cla, 0x08);
    assert_eq!(cmd.ins, INS_GET_ADDR_SECP256K1);
    assert_eq!(cmd.ins, 0x01);
    assert_eq!(cmd.p1, 0);
    assert_eq!(cmd.p2, 0);
    let expected = vec![
        0x2c, 0x00, 0x00, 0x80, // 44'
        0x8a, 0x01, 0x00, 0x80, // 394'
        0x00, 0x00, 0x00, 0x80, // 0'
        0x00, 0x00, 0x00, 0x00, // 0
        0x00, 0x00, 0x00, 0x00, // 0
    ];
    assert_eq!(cmd.data, expected);
}

#[test]
fn address_command_confirmation_flag() {
    let path = BIP44Path::from_string(TRANSFER_PATH).unwrap();
    let cmd = build_address_command(&path, true);
    assert_eq!(cmd.p1, 1);
    let cmd = build_address_command(&path, false);
    assert_eq!(cmd.p1, 0);
}

#[test]
fn sign_init_command_fields() {
    let path = BIP44Path::from_string(STAKING_PATH).unwrap();
    let cmd = build_sign_init_command(&path);
    assert_eq!(cmd.cla, 0x08);
    assert_eq!(cmd.ins, INS_SIGN_SECP256K1);
    assert_eq!(cmd.ins, 0x02);
    assert_eq!(cmd.p1, ChunkMarker::Init.byte());
    assert_eq!(cmd.p2, 0);
    assert_eq!(cmd.data, path.serialize());
}

#[test]
fn chunk_marker_bytes() {
    assert_eq!(ChunkMarker::Init.byte(), 0);
    assert_eq!(ChunkMarker::Add.byte(), 1);
    assert_eq!(ChunkMarker::Last.byte(), 2);
}

#[test]
fn sign_frames_single_chunk() {
    let path = BIP44Path::from_string(TRANSFER_PATH).unwrap();
    let message = vec![0xAAu8; 10];
    let frames = build_sign_frames(&path, &message, CHUNK_SIZE).unwrap();
    assert_eq!(frames.len(), 2);
    assert_eq!(frames[0].p1, ChunkMarker::Init.byte());
    assert_eq!(frames[0].data, path.serialize());
    assert_eq!(frames[1].p1, ChunkMarker::Last.byte());
    assert_eq!(frames[1].data, message);
    for f in &frames {
        assert_eq!(f.cla, 0x08);
        assert_eq!(f.ins, 0x02);
        assert_eq!(f.p2, 0);
    }
}

#[test]
fn sign_frames_chunking_and_reassembly() {
    let path = BIP44Path::from_string(TRANSFER_PATH).unwrap();
    let message: Vec<u8> = (0..501u32).map(|i| (i % 251) as u8).collect();
    let frames = build_sign_frames(&path, &message, CHUNK_SIZE).unwrap();
    // ceil(501 / 250) = 3 chunks, plus the Init frame
    assert_eq!(frames.len(), 4);
    assert_eq!(frames[0].p1, ChunkMarker::Init.byte());
    assert_eq!(frames[1].p1, ChunkMarker::Add.byte());
    assert_eq!(frames[1].data.len(), 250);
    assert_eq!(frames[2].p1, ChunkMarker::Add.byte());
    assert_eq!(frames[2].data.len(), 250);
    assert_eq!(frames[3].p1, ChunkMarker::Last.byte());
    assert_eq!(frames[3].data.len(), 1);
    let reassembled: Vec<u8> = frames[1..].iter().flat_map(|f| f.data.clone()).collect();
    assert_eq!(reassembled, message);
}

#[test]
fn sign_frames_exact_multiple_of_chunk_size() {
    let path = BIP44Path::from_string(TRANSFER_PATH).unwrap();
    let message = vec![0x55u8; 500];
    let frames = build_sign_frames(&path, &message, CHUNK_SIZE).unwrap();
    assert_eq!(frames.len(), 3);
    assert_eq!(frames[1].p1, ChunkMarker::Add.byte());
    assert_eq!(frames[1].data.len(), 250);
    assert_eq!(frames[2].p1, ChunkMarker::Last.byte());
    assert_eq!(frames[2].data.len(), 250);
}

#[test]
fn sign_frames_chunk_size_boundary() {
    let path = BIP44Path::from_string(TRANSFER_PATH).unwrap();
    let message = vec![0x01u8; 250];
    let frames = build_sign_frames(&path, &message, CHUNK_SIZE).unwrap();
    assert_eq!(frames.len(), 2);
    assert_eq!(frames[1].p1, ChunkMarker::Last.byte());
    assert_eq!(frames[1].data.len(), 250);
}

#[test]
fn sign_empty_message_rejected() {
    let transfer = BIP44Path::from_string(TRANSFER_PATH).unwrap();
    let staking = BIP44Path::from_string(STAKING_PATH).unwrap();
    let empty: Vec<u8> = Vec::new();
    assert_eq!(
        build_sign_frames(&transfer, &empty, CHUNK_SIZE).unwrap_err(),
        ProtocolError::InvalidEmptyMessage
    );
    assert_eq!(
        build_sign_frames(&staking, &empty, CHUNK_SIZE).unwrap_err(),
        ProtocolError::InvalidEmptyMessage
    );
}

#[test]
fn address_decode_transfer_fixture() {
    let pk = hex_to_bytes(TRANSFER_PK_HEX);
    assert_eq!(pk.len(), 65);
    let mut payload = pk.clone();
    payload.extend_from_slice(TRANSFER_ADDRESS.as_bytes());
    let addr = decode_address_response(&payload).unwrap();
    assert_eq!(addr.public_key, pk);
    assert_eq!(addr.address, TRANSFER_ADDRESS);
}

#[test]
fn address_decode_staking_fixture() {
    let pk = hex_to_bytes(STAKING_PK_HEX);
    assert_eq!(pk.len(), 65);
    let mut payload = pk.clone();
    payload.extend_from_slice(STAKING_ADDRESS.as_bytes());
    let addr = decode_address_response(&payload).unwrap();
    assert_eq!(addr.public_key, pk);
    assert_eq!(addr.address, STAKING_ADDRESS);
}

#[test]
fn address_decode_short_payload() {
    let payload = vec![0u8; 64];
    assert_eq!(
        decode_address_response(&payload).unwrap_err(),
        ProtocolError::InvalidPublicKey
    );
    let empty: Vec<u8> = Vec::new();
    assert_eq!(
        decode_address_response(&empty).unwrap_err(),
        ProtocolError::InvalidPublicKey
    );
}

#[test]
fn address_decode_invalid_utf8() {
    let mut payload = vec![0u8; 65];
    payload.push(0xFF);
    payload.push(0xFE);
    assert_eq!(
        decode_address_response(&payload).unwrap_err(),
        ProtocolError::AddressEncoding
    );
}

#[test]
fn address_decode_key_only_payload() {
    let payload = vec![7u8; 65];
    let addr = decode_address_response(&payload).unwrap();
    assert_eq!(addr.public_key, payload);
    assert_eq!(addr.address, "");
}

#[test]
fn sign_decode_no_signature() {
    let response = ResponseFrame { status_code: 0, data: Vec::new() };
    assert_eq!(
        decode_sign_response(&response).unwrap_err(),
        ProtocolError::NoSignature
    );
}

#[test]
fn sign_decode_wrong_length() {
    let response = ResponseFrame { status_code: 0, data: vec![1u8; 64] };
    assert_eq!(
        decode_sign_response(&response).unwrap_err(),
        ProtocolError::InvalidSignature
    );
    let response = ResponseFrame { status_code: 0, data: vec![1u8; 66] };
    assert_eq!(
        decode_sign_response(&response).unwrap_err(),
        ProtocolError::InvalidSignature
    );
    // empty payload under a failure status is malformed, not "no signature"
    let response = ResponseFrame { status_code: 0x6984, data: Vec::new() };
    assert_eq!(
        decode_sign_response(&response).unwrap_err(),
        ProtocolError::InvalidSignature
    );
}

#[test]
fn sign_decode_ok_returns_payload_verbatim() {
    let payload: Vec<u8> = (0..65u8).collect();
    let response = ResponseFrame { status_code: 0, data: payload.clone() };
    let sig = decode_sign_response(&response).unwrap();
    assert_eq!(sig, payload);
}

#[test]
fn response_from_wire_status_mapping() {
    let ok = ResponseFrame::from_wire(0x9000, vec![1, 2, 3]);
    assert_eq!(ok.status_code, 0);
    assert_eq!(ok.data, vec![1, 2, 3]);
    let err = ResponseFrame::from_wire(0x6984, Vec::new());
    assert_eq!(err.status_code, 0x6984);
}
