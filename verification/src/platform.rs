//! Move-only kernel capabilities.
//!
//! A right owns one direction of a channel. It is never copied: dropping the
//! owner releases the underlying kernel resource exactly once, and a send
//! right is only ever obtained by extracting the one minted together with a
//! receive right.

use vstd::prelude::*;
use crate::errors::{IPCError, PlatformError};
use crate::sys::{sys_close, sys_socketpair};

verus! {

/// Opaque numeric identifier of an OS process.
pub type Pid = u32;

/// Names the connectedness the kernel establishes between the two
/// descriptors of one pair: what is sent through `send_fd` arrives at
/// `recv_fd`. Only the pair-creation call's contract asserts it; everything
/// the bootstrap claims about mutual reachability is carried through this
/// relation.
pub uninterp spec fn paired(recv_fd: int, send_fd: int) -> bool;

/// Exclusively owned permission to send on one direction of a channel.
pub struct SendRight {
    fd: i32,
}

impl SendRight {
    /// The descriptor underlying this right.
    pub closed spec fn fd_spec(&self) -> int {
        self.fd as int
    }

    /// A live right wraps a real (nonnegative) descriptor.
    pub open spec fn wf(&self) -> bool {
        self.fd_spec() >= 0
    }

    pub(crate) fn from_raw(fd: i32) -> (r: SendRight)
        requires
            fd >= 0,
        ensures
            r.wf(),
            r.fd_spec() == fd,
    {
        SendRight { fd }
    }

    pub(crate) fn raw(&self) -> (r: i32)
        ensures
            r as int == self.fd_spec(),
    {
        self.fd
    }
}

impl Drop for SendRight {
    /// Releases the underlying kernel resource; the right is move-only, so
    /// this happens exactly once.
    fn drop(&mut self)
        opens_invariants none
        no_unwind
    {
        sys_close(self.fd);
    }
}

/// Exclusively owned permission to receive on one direction of a channel,
/// carrying at most one not-yet-extracted send right minted with it.
pub struct ReceiveRight {
    fd: i32,
    pending_send: Option<SendRight>,
}

impl ReceiveRight {
    /// The descriptor underlying this right; the stable identity of any
    /// connector assembled around it.
    pub closed spec fn fd_spec(&self) -> int {
        self.fd as int
    }

    /// The send right minted with this receive right, while not yet
    /// extracted.
    pub closed spec fn pending_send_spec(&self) -> Option<SendRight> {
        self.pending_send
    }

    /// A live right wraps a real descriptor, as does its pending send right
    /// while it holds one.
    pub open spec fn wf(&self) -> bool {
        &&& self.fd_spec() >= 0
        &&& (self.pending_send_spec() matches Some(s) ==> s.wf())
    }

    /// Create a fresh receive right, minting with it the one send right that
    /// reaches it.
    pub fn new() -> (r: Result<ReceiveRight, IPCError>)
        ensures
            r matches Ok(rr) ==> rr.wf() && (rr.pending_send_spec() matches Some(s) && paired(
                rr.fd_spec(),
                s.fd_spec(),
            )),
            r matches Err(e) ==> e matches IPCError::RightCreation(
                PlatformError::SocketCreation(_),
            ),
    {
        match sys_socketpair() {
            Ok((recv_fd, send_fd)) => Ok(
                ReceiveRight { fd: recv_fd, pending_send: Some(SendRight::from_raw(send_fd)) },
            ),
            Err(e) => Err(IPCError::RightCreation(PlatformError::SocketCreation(e))),
        }
    }

    /// Extract the send right that was minted with this receive right. It
    /// exists exactly once: a second extraction reports
    /// `SendRightUnavailable`.
    pub fn insert_send_right(&mut self) -> (r: Result<SendRight, IPCError>)
        ensures
            final(self).fd_spec() == old(self).fd_spec(),
            final(self).pending_send_spec() is None,
            old(self).pending_send_spec() matches Some(s) ==> r == Ok::<SendRight, IPCError>(s),
            old(self).pending_send_spec() is None ==> r == Err::<SendRight, IPCError>(
                IPCError::RightExtraction(PlatformError::SendRightUnavailable),
            ),
    {
        match self.pending_send.take() {
            Some(s) => Ok(s),
            None => Err(IPCError::RightExtraction(PlatformError::SendRightUnavailable)),
        }
    }

    pub(crate) fn raw(&self) -> (r: i32)
        ensures
            r as int == self.fd_spec(),
    {
        self.fd
    }
}

impl Drop for ReceiveRight {
    /// Releases the underlying kernel resource; a still-pending send right
    /// releases its own as it is dropped with this owner.
    fn drop(&mut self)
        opens_invariants none
        no_unwind
    {
        sys_close(self.fd);
    }
}

} // verus!
