//! Bootstrap builders: two already-connected connectors, no handshake.
//!
//! Two fresh receive rights are created; from each, the send right minted
//! with it is extracted and handed to the *other* endpoint. Both endpoints
//! can then signal each other immediately — the rights were exchanged locally
//! before either connector is handed to its eventual owner, so there is no
//! window in which one side could send before the other can receive.

use vstd::prelude::*;
use crate::connector::{connected_endpoints, IPCConnector};
use crate::errors::{IPCError, IPCListenerError, PlatformError};
use crate::listener::{listener_error_shape, IPCListener};
use crate::platform::ReceiveRight;
use crate::sys::sys_getpid;

verus! {

/// A failure to bootstrap a channel, classified by the sub-step that failed.
#[derive(Debug, PartialEq, Eq, Clone, Copy)]
pub enum IPCChannelError {
    /// A connector could not be assembled (right creation or extraction).
    Connector(IPCError),
    /// The accompanying listener could not be created.
    Listener(IPCListenerError),
    /// The channel's own wiring failed.
    Channel(PlatformError),
}

/// The exact fault each bootstrap failure wraps, classified by the failing
/// sub-step: right creation, send-right extraction, listener creation, or the
/// channel's own wiring check.
pub open spec fn channel_error_shape(e: IPCChannelError) -> bool {
    match e {
        IPCChannelError::Connector(ie) => ie matches IPCError::RightCreation(
            PlatformError::SocketCreation(_),
        ) || ie matches IPCError::RightExtraction(PlatformError::SendRightUnavailable),
        IPCChannelError::Listener(le) => listener_error_shape(le),
        IPCChannelError::Channel(p) => p matches PlatformError::DuplicateDescriptor,
    }
}

/// Build two mutually connected, well-formed connectors with distinct keys:
/// `(server, client)`.
fn make_endpoint_pair() -> (r: Result<(IPCConnector, IPCConnector), IPCChannelError>)
    ensures
        r matches Ok(p) ==> p.0.wf() && p.1.wf() && p.0.key_spec() != p.1.key_spec()
            && connected_endpoints(p.0@, p.1@),
        r matches Err(e) ==> channel_error_shape(e) && !(e matches IPCChannelError::Listener(_)),
{
    let mut client_recv = match ReceiveRight::new() {
        Ok(rr) => rr,
        Err(e) => {
            return Err(IPCChannelError::Connector(e));
        },
    };
    let mut server_recv = match ReceiveRight::new() {
        Ok(rr) => rr,
        Err(e) => {
            return Err(IPCChannelError::Connector(e));
        },
    };
    // The kernel never hands out two equal live descriptors; checking lets
    // the distinctness of the two keys be carried in the contract.
    if client_recv.raw() == server_recv.raw() {
        return Err(IPCChannelError::Channel(PlatformError::DuplicateDescriptor));
    }
    let client_send = match server_recv.insert_send_right() {
        Ok(s) => s,
        Err(e) => {
            return Err(IPCChannelError::Connector(e));
        },
    };
    let server_send = match client_recv.insert_send_right() {
        Ok(s) => s,
        Err(e) => {
            return Err(IPCChannelError::Connector(e));
        },
    };
    let client_endpoint = IPCConnector::from_rights(client_send, client_recv);
    let server_endpoint = IPCConnector::from_rights(server_send, server_recv);
    Ok((server_endpoint, client_endpoint))
}

/// Ephemeral builder of a full channel: a rendezvous listener bound to the
/// current process, plus a connected server/client connector pair.
pub struct IPCChannel {
    listener: IPCListener,
    client_endpoint: IPCConnector,
    server_endpoint: IPCConnector,
}

impl IPCChannel {
    /// The listener and both connectors are live, the connectors' keys
    /// differ, and the two endpoints are cross-wired: each side's send right
    /// was minted from the other's receive right.
    pub open spec fn wf(&self) -> bool {
        &&& self.listener_spec().wf()
        &&& self.server_spec().wf()
        &&& self.client_spec().wf()
        &&& self.server_spec().key_spec() != self.client_spec().key_spec()
        &&& connected_endpoints(self.server_spec()@, self.client_spec()@)
    }

    /// The listener the builder holds.
    pub closed spec fn listener_spec(&self) -> IPCListener {
        self.listener
    }

    /// The server-side connector the builder holds.
    pub closed spec fn server_spec(&self) -> IPCConnector {
        self.server_endpoint
    }

    /// The client-side connector the builder holds.
    pub closed spec fn client_spec(&self) -> IPCConnector {
        self.client_endpoint
    }

    /// Create a new IPC channel for use between a monitored process and the
    /// crash helper: a rendezvous listener bound to the current process's
    /// identifier and two connected endpoints.
    pub fn new() -> (r: Result<IPCChannel, IPCChannelError>)
        ensures
            r matches Ok(c) ==> c.wf(),
            r matches Err(e) ==> channel_error_shape(e),
    {
        let pid = sys_getpid();
        let listener = match IPCListener::new(pid) {
            Ok(l) => l,
            Err(e) => {
                return Err(IPCChannelError::Listener(e));
            },
        };
        let (server_endpoint, client_endpoint) = match make_endpoint_pair() {
            Ok(p) => p,
            Err(e) => {
                return Err(e);
            },
        };
        Ok(IPCChannel { listener, client_endpoint, server_endpoint })
    }

    /// Deconstruct the channel, yielding ownership of exactly the produced
    /// parts: the listener, the connected server-side endpoint and the
    /// connected client-side endpoint. Consumes the builder; it cannot be
    /// reused afterward.
    pub fn deconstruct(self) -> (r: (IPCListener, IPCConnector, IPCConnector))
        ensures
            r.0 == self.listener_spec(),
            r.1 == self.server_spec(),
            r.2 == self.client_spec(),
    {
        (self.listener, self.server_endpoint, self.client_endpoint)
    }
}

/// Ephemeral builder of a client channel: a connected server/client connector
/// pair without a listener, for relationships where both ends are handed
/// their rights directly at creation time.
pub struct IPCClientChannel {
    client_endpoint: IPCConnector,
    server_endpoint: IPCConnector,
}

impl IPCClientChannel {
    /// Both connectors are live, their keys differ, and the two endpoints
    /// are cross-wired: each side's send right was minted from the other's
    /// receive right.
    pub open spec fn wf(&self) -> bool {
        &&& self.server_spec().wf()
        &&& self.client_spec().wf()
        &&& self.server_spec().key_spec() != self.client_spec().key_spec()
        &&& connected_endpoints(self.server_spec()@, self.client_spec()@)
    }

    /// The server-side connector the builder holds.
    pub closed spec fn server_spec(&self) -> IPCConnector {
        self.server_endpoint
    }

    /// The client-side connector the builder holds.
    pub closed spec fn client_spec(&self) -> IPCConnector {
        self.client_endpoint
    }

    /// Create a new IPC channel for use between one of the monitored
    /// children and the crash helper: two connected endpoints, no listener.
    pub fn new() -> (r: Result<IPCClientChannel, IPCChannelError>)
        ensures
            r matches Ok(c) ==> c.wf(),
            r matches Err(e) ==> channel_error_shape(e) && !(e matches IPCChannelError::Listener(
                _,
            )),
    {
        let (server_endpoint, client_endpoint) = match make_endpoint_pair() {
            Ok(p) => p,
            Err(e) => {
                return Err(e);
            },
        };
        Ok(IPCClientChannel { client_endpoint, server_endpoint })
    }

    /// Deconstruct the channel, yielding ownership of exactly the produced
    /// parts: the connected server-side endpoint and the connected
    /// client-side endpoint. Consumes the builder; it cannot be reused
    /// afterward.
    pub fn deconstruct(self) -> (r: (IPCConnector, IPCConnector))
        ensures
            r.0 == self.server_spec(),
            r.1 == self.client_spec(),
    {
        (self.server_endpoint, self.client_endpoint)
    }
}

} // verus!
