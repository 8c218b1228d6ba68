use vstd::prelude::*;

verus! {

/// The failure kinds a caller of this library can observe.
///
/// Password mismatch is deliberately absent: a mismatched password is a
/// well-formed negative reply of the pairing handshake, not an error.
#[derive(Clone, Copy, Debug, PartialEq, Eq, Structural)]
pub enum CoreError {
    /// The underlying stream failed or was closed.
    Transport,
    /// Establishing the network stream exceeded the connect deadline.
    ConnectTimeout,
    /// A request/reply call received no reply within its deadline.
    CallTimeout,
    /// A frame's length prefix exceeded the maximum frame size.
    FrameTooLarge,
    /// A message field was too long to fit the wire encoding.
    Serialize,
    /// Decoding a plaintext message packet failed.
    Deserialize,
    /// Opening an inbound frame failed authentication.
    Decrypt,
    /// A reply of an unexpected kind arrived for a call.
    ProtocolMismatch,
    /// The remote side answered a call with an explicit error marker.
    RemoteError,
    /// A cached handshake key or a call registration was absent when needed.
    MissingRegistration,
    /// A freshly allocated call id was still registered by an older call.
    CallIdInUse,
    /// The outbound queue is at capacity.
    QueueFull,
    /// The nonce sequencer reached its emission cap; continuing would repeat
    /// a nonce.
    NonceExhausted,
    /// No local password is configured, so the verify step must be refused.
    PasswordNotSet,
    /// A cryptographic operation (key generation, agreement, derivation,
    /// encryption) failed.
    Crypto,
}

} // verus!
