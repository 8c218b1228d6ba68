//! Secure point-to-point transport core: a length-framed, per-direction
//! authenticated-encryption channel with request/reply multiplexing, and the
//! password-authenticated pairing handshake that derives its session keys.

pub mod error;
pub mod nonce;
pub mod packet;
pub mod codec;
pub mod transport;
pub mod endpoint;
pub mod pairing;
