//! The framed stream's two halves and their failure discipline.
//!
//! A framed stream owns one send half and one receive half, each an
//! independently held exclusive resource: sending and receiving
//! proceed concurrently, but within one half frames never interleave.
//! A transport failure is terminal for its half — no partial-frame
//! recovery is attempted — and finishing the send half happens at most
//! once. The frames themselves are built and parsed in `frame`.

use vstd::prelude::*;

use crate::errors::PvError;

verus! {

/// The send half's state: whether it was finished (no more frames
/// will be sent) and whether a write has failed (terminal).
pub struct SendHalfState {
    finished: bool,
    failed: bool,
}

impl SendHalfState {
    /// Whether the half was finished by `finish_decision`.
    pub closed spec fn is_finished(&self) -> bool {
        self.finished
    }

    /// Whether a write on this half has failed.
    pub closed spec fn is_failed(&self) -> bool {
        self.failed
    }

    /// The send half of a freshly opened stream.
    pub fn new() -> (r: SendHalfState)
        ensures
            !r.is_finished(),
            !r.is_failed(),
    {
        SendHalfState { finished: false, failed: false }
    }

    /// Admits a send only on a usable half: a failed half is fatal
    /// and stays `WriteFailed`, and a finished half accepts no
    /// further frames.
    pub fn send_gate(&self) -> (r: Result<(), PvError>)
        ensures
            r is Ok <==> (!self.is_failed() && !self.is_finished()),
            !(r is Ok) ==> r == Err::<(), PvError>(PvError::WriteFailed),
    {
        if self.failed || self.finished {
            Err(PvError::WriteFailed)
        } else {
            Ok(())
        }
    }

    /// Records how the transport's write of one whole frame went: a
    /// failure marks the half terminally failed and surfaces as
    /// `WriteFailed`; success leaves the half as it was.
    pub fn record_write(&mut self, ok: bool) -> (r: Result<(), PvError>)
        ensures
            ok ==> r is Ok && *final (self) == *old(self),
            !ok ==> {
                &&& r == Err::<(), PvError>(PvError::WriteFailed)
                &&& final (self).is_failed()
                &&& final (self).is_finished() == old(self).is_finished()
            },
    {
        if ok {
            Ok(())
        } else {
            self.failed = true;
            Err(PvError::WriteFailed)
        }
    }

    /// Decides a request to finish the send half: at most once, and
    /// not after a terminal write failure — again is `FinishFailed`
    /// with the state unchanged. Finishing does not touch the receive
    /// half, so inbound data can still be drained.
    pub fn finish_decision(&mut self) -> (r: Result<(), PvError>)
        ensures
            old(self).is_finished() || old(self).is_failed() ==> {
                &&& r == Err::<(), PvError>(PvError::FinishFailed)
                &&& *final (self) == *old(self)
            },
            !old(self).is_finished() && !old(self).is_failed() ==> {
                &&& r is Ok
                &&& final (self).is_finished()
                &&& !final (self).is_failed()
            },
    {
        if self.finished || self.failed {
            Err(PvError::FinishFailed)
        } else {
            self.finished = true;
            Ok(())
        }
    }
}

/// The receive half's state: whether a read has failed or the stream
/// ended mid-frame (terminal).
pub struct RecvHalfState {
    failed: bool,
}

impl RecvHalfState {
    /// Whether a read on this half has failed.
    pub closed spec fn is_failed(&self) -> bool {
        self.failed
    }

    /// The receive half of a freshly opened stream.
    pub fn new() -> (r: RecvHalfState)
        ensures
            !r.is_failed(),
    {
        RecvHalfState { failed: false }
    }

    /// Admits a receive only on a usable half: a failed half is
    /// fatal and stays `ReadFailed`.
    pub fn receive_gate(&self) -> (r: Result<(), PvError>)
        ensures
            r is Ok <==> !self.is_failed(),
            self.is_failed() ==> r == Err::<(), PvError>(PvError::ReadFailed),
    {
        if self.failed {
            Err(PvError::ReadFailed)
        } else {
            Ok(())
        }
    }

    /// Records how a transport read went: a short read or an abrupt
    /// peer disconnect marks the half terminally failed and surfaces
    /// as `ReadFailed`, never as a hang; success leaves the half as it
    /// was.
    pub fn record_read(&mut self, ok: bool) -> (r: Result<(), PvError>)
        ensures
            ok ==> r is Ok && *final (self) == *old(self),
            !ok ==> {
                &&& r == Err::<(), PvError>(PvError::ReadFailed)
                &&& final (self).is_failed()
            },
    {
        if ok {
            Ok(())
        } else {
            self.failed = true;
            Err(PvError::ReadFailed)
        }
    }
}

} // verus!
