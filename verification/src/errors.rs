//! Error taxonomy of the transport.
//!
//! `PlatformError` wraps native error codes from the kernel calls; the
//! distinguished `NoMoreSenders` condition is not a fault but the signal that
//! every send right to an endpoint has been released, and is surfaced by the
//! queue as a `Disconnect` event.

use vstd::prelude::*;

verus! {

/// A native platform failure, carrying the kernel's error code where one
/// exists.
#[derive(Debug, PartialEq, Eq, Clone, Copy)]
pub enum PlatformError {
    /// Every send right to the receive right being read has been released;
    /// a first-class disconnect condition, not a fault.
    NoMoreSenders,
    /// A kernel socket or right could not be created (errno).
    SocketCreation(i32),
    /// A send right was requested from a receive right that has already
    /// handed its pending send right out.
    SendRightUnavailable,
    /// The kernel handed out two identical live descriptors, which it never
    /// does; reported rather than trusted.
    DuplicateDescriptor,
    /// The kernel multiplexing object could not be created (errno).
    KernelQueueError(i32),
    /// Registering with or waiting on the kernel multiplexing object failed
    /// (errno).
    KernelEventError(i32),
    /// The kernel reported a wakeup for a source that is not registered with
    /// the queue; an internal-consistency violation.
    UnresolvedKernelEvent(u64),
    /// A send system call failed (errno).
    TransmissionError(i32),
    /// A send system call made no progress.
    TransmissionTruncated,
    /// A receive system call failed (errno).
    ReceptionError(i32),
    /// Binding the listener's rendezvous name failed (errno), for instance
    /// because the name is already taken.
    BindError(i32),
    /// Marking the listener socket as accepting failed (errno).
    ListenError(i32),
}

/// A failure of a connector operation, classified by the sub-step that
/// failed.
#[derive(Debug, PartialEq, Eq, Clone, Copy)]
pub enum IPCError {
    /// A fresh receive right could not be created.
    RightCreation(PlatformError),
    /// A send right could not be extracted from a receive right.
    RightExtraction(PlatformError),
    /// Sending a message failed.
    TransmissionFailure(PlatformError),
    /// Receiving a message (or its header) failed; holds `NoMoreSenders`
    /// when the peer has released its last send right.
    ReceptionFailure(PlatformError),
}

/// A failure to create a named rendezvous listener.
#[derive(Debug, PartialEq, Eq, Clone, Copy)]
pub enum IPCListenerError {
    /// The listener's socket could not be created.
    SocketCreation(PlatformError),
    /// The rendezvous name could not be bound (name collision or bind
    /// failure).
    Bind(PlatformError),
    /// The bound socket could not be marked as accepting.
    Listen(PlatformError),
}

} // verus!
