//! The failure taxonomy of the session core.
//!
//! Every operation of the library reports its failures through one of
//! these typed values; nothing is retried internally and nothing panics.

use vstd::prelude::*;

verus! {

/// One typed failure of the session core.
///
/// `MessageTooLarge` is distinct from `ReadFailed` so that a caller can
/// tell a framing-protocol violation from a transport fault.
#[derive(Clone, Copy, PartialEq, Eq, Structural, Debug)]
pub enum PvError {
    /// A secret key was supplied whose length is not 32 bytes.
    InvalidKeyLength,
    /// The transport provider could not acquire local resources.
    BindFailed,
    /// A ticket string did not have the expected serialization shape.
    InvalidTicket,
    /// Establishing an outbound session failed.
    ConnectFailed,
    /// The endpoint was closed; no further operations are served on it.
    EndpointClosed,
    /// The connection ended; stream operations on it no longer succeed.
    ConnectionClosed,
    /// The session refused to open a new bidirectional stream.
    StreamOpenFailed,
    /// A write on the send half failed; the send half is then unusable.
    WriteFailed,
    /// A read on the receive half failed or ended mid-frame.
    ReadFailed,
    /// Finishing the send half failed or it was already finished.
    FinishFailed,
    /// A frame declared a payload larger than the 64 MiB limit.
    MessageTooLarge,
}

} // verus!
