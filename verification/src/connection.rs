//! One authenticated session to a specific remote identity.
//!
//! The provider multiplexes the streams; this module owns what the
//! connection decides: the remote identifier cached at establishment,
//! the close signal sent to the peer, and the lifecycle rule that a
//! closed connection refuses stream operations as `ConnectionClosed`
//! while leaving its siblings and its parent endpoint untouched.

use vstd::prelude::*;

use crate::errors::PvError;

verus! {

/// The close code this core signals to the remote side.
pub const CLOSE_CODE: u32 = 0;

/// The reason bytes this core signals to the remote side: the ASCII
/// text `close`.
pub open spec fn close_reason() -> Seq<u8> {
    seq![99u8, 108u8, 111u8, 115u8, 101u8]
}

/// One session's state as this core tracks it: the remote public
/// identifier, fixed at establishment, and whether the session was
/// closed locally.
pub struct ConnectionState {
    remote_id: String,
    closed: bool,
}

/// What the provider reported for one stream operation, after the
/// transport's own waiting.
pub enum StreamEvent {
    /// A bidirectional channel is ready.
    ChannelReady,
    /// The session refused to open a new channel.
    OpenRefused,
    /// The session ended while waiting.
    SessionEnded,
}

impl ConnectionState {
    /// The remote public identifier, as fixed at establishment.
    pub closed spec fn remote(&self) -> Seq<char> {
        self.remote_id@
    }

    /// Whether the connection was closed locally.
    pub closed spec fn is_closed(&self) -> bool {
        self.closed
    }

    /// A connection established to (or accepted from) the node with
    /// this verified identifier. Live until closed.
    pub fn establish(remote_id: String) -> (r: ConnectionState)
        ensures
            !r.is_closed(),
            r.remote() == remote_id@,
    {
        ConnectionState { remote_id, closed: false }
    }

    /// The verified remote public identifier: immutable, whatever else
    /// happens to the connection.
    pub fn remote_id(&self) -> (r: String)
        ensures
            r@ == self.remote(),
    {
        self.remote_id.clone()
    }

    /// Closes the connection: idempotent, never an error, and local to
    /// this connection — sibling connections and the parent endpoint
    /// are unaffected. The remote identifier stays known.
    pub fn close(&mut self)
        ensures
            final (self).is_closed(),
            final (self).remote() == old(self).remote(),
    {
        self.closed = true;
    }

    /// Admits a stream operation only while the connection is live: a
    /// closed connection refuses it as `ConnectionClosed`, and only
    /// a closed one.
    pub fn stream_gate(&self) -> (r: Result<(), PvError>)
        ensures
            r is Ok <==> !self.is_closed(),
            self.is_closed() ==> r == Err::<(), PvError>(PvError::ConnectionClosed),
    {
        if self.closed {
            Err(PvError::ConnectionClosed)
        } else {
            Ok(())
        }
    }

    /// Decides one stream-open request: `ConnectionClosed` once the
    /// connection is closed — an in-flight open on a closing
    /// connection fails rather than hangs or succeeds — and otherwise
    /// the provider's refusal surfaces as `StreamOpenFailed`.
    pub fn open_stream_decision(&self, ev: StreamEvent) -> (r: Result<(), PvError>)
        ensures
            self.is_closed() ==> r == Err::<(), PvError>(PvError::ConnectionClosed),
            !self.is_closed() ==> match ev {
                StreamEvent::ChannelReady => r == Ok::<(), PvError>(()),
                StreamEvent::OpenRefused => r == Err::<(), PvError>(PvError::StreamOpenFailed),
                StreamEvent::SessionEnded => r == Err::<(), PvError>(PvError::ConnectionClosed),
            },
    {
        if self.closed {
            return Err(PvError::ConnectionClosed);
        }
        match ev {
            StreamEvent::ChannelReady => Ok(()),
            StreamEvent::OpenRefused => Err(PvError::StreamOpenFailed),
            StreamEvent::SessionEnded => Err(PvError::ConnectionClosed),
        }
    }

    /// Decides one pending stream-accept: the session ending while the
    /// accept is outstanding resolves it as `ConnectionClosed` rather
    /// than leaving it hanging; so does a locally closed connection.
    pub fn accept_stream_decision(&self, ev: StreamEvent) -> (r: Result<(), PvError>)
        ensures
            self.is_closed() ==> r == Err::<(), PvError>(PvError::ConnectionClosed),
            !self.is_closed() ==> match ev {
                StreamEvent::ChannelReady => r == Ok::<(), PvError>(()),
                StreamEvent::OpenRefused => r == Err::<(), PvError>(PvError::ConnectionClosed),
                StreamEvent::SessionEnded => r == Err::<(), PvError>(PvError::ConnectionClosed),
            },
    {
        if self.closed {
            return Err(PvError::ConnectionClosed);
        }
        match ev {
            StreamEvent::ChannelReady => Ok(()),
            StreamEvent::OpenRefused => Err(PvError::ConnectionClosed),
            StreamEvent::SessionEnded => Err(PvError::ConnectionClosed),
        }
    }
}

/// The close code and reason bytes signalled to the remote side when a
/// connection is closed.
pub fn close_signal() -> (r: (u32, Vec<u8>))
    ensures
        r.0 == CLOSE_CODE,
        r.1@ == close_reason(),
{
    let mut reason: Vec<u8> = Vec::new();
    reason.push(99u8);
    reason.push(108u8);
    reason.push(111u8);
    reason.push(115u8);
    reason.push(101u8);
    proof {
        assert(reason@ =~= close_reason());
    }
    (CLOSE_CODE, reason)
}

} // verus!
