//! Client-side protocol for a cryptocurrency application running on a
//! hardware security device. The library owns the application-layer logic:
//! building command frames for address derivation and signing, splitting a
//! message to sign into an ordered sequence of chunk frames, and decoding the
//! fixed-offset binary responses into typed results. The byte transport that
//! carries the frames is an outside collaborator and stays outside this crate.

pub mod chunks;
pub mod codec;
pub mod decode;
pub mod frame;
pub mod path;

pub use chunks::build_sign_frames;
pub use codec::build_address_command;
pub use codec::build_sign_init_command;
pub use decode::decode_address_response;
pub use decode::decode_sign_response;
pub use decode::Address;
pub use decode::ProtocolError;
pub use frame::ChunkMarker;
pub use frame::CommandFrame;
pub use frame::ResponseFrame;
pub use frame::CHUNK_SIZE;
pub use frame::CLA;
pub use frame::INS_GET_ADDR_SECP256K1;
pub use frame::INS_SIGN_SECP256K1;
pub use frame::PK_LEN;
pub use frame::SIG_LEN;
pub use frame::WIRE_STATUS_OK;
