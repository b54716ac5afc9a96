//! One usable endpoint of a bidirectional channel.
//!
//! A connector owns exactly one send right and one receive right. Its
//! identity — the key a queue files it under — is the numeric value
//! underlying its receive right, stable for the connector's lifetime.
//! Messages travel as a frame: an 8-byte header, then exactly the payload
//! length the header declares, with any transferred rights riding with the
//! frame.

use vstd::prelude::*;
use crate::errors::{IPCError, PlatformError};
use crate::messages::{decode_header, frame_bytes, IPCHeader, HEADER_SIZE, MAX_PAYLOAD_SIZE};
use crate::platform::{paired, ReceiveRight, SendRight};
use crate::sys::{sys_recvmsg, sys_sendmsg, sys_write};

verus! {

/// The stable identity of a connector: the numeric value underlying its
/// receive right.
pub type IPCConnectorKey = i32;

/// The mathematical content of a connector: the descriptors under its two
/// rights.
pub ghost struct ConnectorView {
    pub send_fd: int,
    pub recv_fd: int,
}

/// One endpoint of a bidirectional channel: a paired send right and receive
/// right.
pub struct IPCConnector {
    send: SendRight,
    recv: ReceiveRight,
}

impl View for IPCConnector {
    type V = ConnectorView;

    closed spec fn view(&self) -> ConnectorView {
        ConnectorView { send_fd: self.send.fd_spec(), recv_fd: self.recv.fd_spec() }
    }
}

/// A connector's rights both wrap real descriptors.
pub open spec fn connector_view_wf(v: ConnectorView) -> bool {
    v.send_fd >= 0 && v.recv_fd >= 0
}

/// Two endpoints are mutually reachable: each side's send right was minted
/// from the other side's receive right, so what either sends arrives at its
/// peer with no rendezvous or handshake message.
pub open spec fn connected_endpoints(a: ConnectorView, b: ConnectorView) -> bool {
    paired(a.recv_fd, b.send_fd) && paired(b.recv_fd, a.send_fd)
}

impl IPCConnector {
    /// A live connector wraps two real descriptors.
    pub open spec fn wf(&self) -> bool {
        connector_view_wf(self@)
    }

    /// The connector's identity, as a mathematical value.
    pub open spec fn key_spec(&self) -> int {
        self@.recv_fd
    }

    /// Assemble a connector from a send right and a receive right whose own
    /// send right has already been handed to the peer.
    pub fn from_rights(send: SendRight, recv: ReceiveRight) -> (r: IPCConnector)
        requires
            send.wf(),
            recv.wf(),
            recv.pending_send_spec() is None,
        ensures
            r.wf(),
            r@.send_fd == send.fd_spec(),
            r@.recv_fd == recv.fd_spec(),
    {
        IPCConnector { send, recv }
    }

    /// The stable identity value of this connector, used as a map key.
    pub fn key(&self) -> (k: IPCConnectorKey)
        ensures
            k as int == self.key_spec(),
    {
        self.recv.raw()
    }

    /// The platform handle of the receive right, the queue's registration
    /// target.
    pub fn raw_recv_right(&self) -> (r: i32)
        ensures
            r as int == self@.recv_fd,
    {
        self.recv.raw()
    }

    /// Send one message. The bytes handed to the kernel are exactly
    /// `frame_bytes(kind, payload)`: a header declaring `kind` and the
    /// payload's true length, then the payload, byte for byte. `rights` ride
    /// with the frame's payload part; the platform attaches rights to data
    /// bytes, so rights need a nonempty payload.
    pub fn send_message(&self, kind: u32, payload: &Vec<u8>, rights: &Vec<i32>) -> (r: Result<
        (),
        IPCError,
    >)
        requires
            self.wf(),
            payload@.len() <= MAX_PAYLOAD_SIZE as int,
            rights@.len() > 0 ==> payload@.len() > 0,
        ensures
            r matches Err(e) ==> e matches IPCError::TransmissionFailure(_),
    {
        let frame = frame_bytes(kind, payload);
        match write_all_range(self.send.raw(), &frame, 0, HEADER_SIZE) {
            Ok(()) => {},
            Err(e) => {
                return Err(e);
            },
        }
        if rights.len() == 0 {
            write_all_range(self.send.raw(), &frame, HEADER_SIZE, frame.len())
        } else {
            match sys_sendmsg(self.send.raw(), &frame, HEADER_SIZE, rights) {
                Ok(n) => {
                    if n == 0 {
                        Err(IPCError::TransmissionFailure(PlatformError::TransmissionTruncated))
                    } else {
                        write_all_range(self.send.raw(), &frame, HEADER_SIZE + n, frame.len())
                    }
                },
                Err(e) => Err(
                    IPCError::TransmissionFailure(PlatformError::TransmissionError(e)),
                ),
            }
        }
    }

    /// Block until a full message header has arrived and decode it. Reports
    /// `ReceptionFailure(NoMoreSenders)` exactly when the peer has released
    /// its last send right.
    pub fn recv_header(&self) -> (r: Result<IPCHeader, IPCError>)
        requires
            self.wf(),
        ensures
            r matches Err(e) ==> e matches IPCError::ReceptionFailure(_),
    {
        match recv_exact(self.recv.raw(), HEADER_SIZE) {
            Ok((bytes, _rights)) => Ok(decode_header(&bytes)),
            Err(e) => Err(e),
        }
    }

    /// Read exactly `size` payload bytes, plus any transferred rights riding
    /// with them. Reports `ReceptionFailure(NoMoreSenders)` exactly when the
    /// peer has released its last send right before the payload completed.
    pub fn recv(&self, size: usize) -> (r: Result<(Vec<u8>, Vec<i32>), IPCError>)
        requires
            self.wf(),
        ensures
            r matches Ok(p) ==> p.0@.len() == size,
            r matches Err(e) ==> e matches IPCError::ReceptionFailure(_),
    {
        recv_exact(self.recv.raw(), size)
    }
}

/// Write the whole range `start..end` of `buf`, retrying partial writes.
fn write_all_range(fd: i32, buf: &Vec<u8>, start: usize, end: usize) -> (r: Result<(), IPCError>)
    requires
        start <= end <= buf@.len(),
    ensures
        r matches Err(e) ==> e matches IPCError::TransmissionFailure(_),
{
    let mut off: usize = start;
    while off < end
        invariant
            off <= end <= buf@.len(),
        decreases end - off,
    {
        match sys_write(fd, buf, off, end) {
            Ok(n) => {
                if n == 0 {
                    return Err(IPCError::TransmissionFailure(PlatformError::TransmissionTruncated));
                }
                off = off + n;
            },
            Err(e) => {
                return Err(IPCError::TransmissionFailure(PlatformError::TransmissionError(e)));
            },
        }
    }
    Ok(())
}

/// Read exactly `n` bytes, accumulating any rights that ride with them; zero
/// bytes from the kernel means every send right is gone.
fn recv_exact(fd: i32, n: usize) -> (r: Result<(Vec<u8>, Vec<i32>), IPCError>)
    ensures
        r matches Ok(p) ==> p.0@.len() == n,
        r matches Err(e) ==> e matches IPCError::ReceptionFailure(_),
{
    let mut bytes: Vec<u8> = Vec::new();
    let mut fds: Vec<i32> = Vec::new();
    while bytes.len() < n
        invariant
            bytes@.len() <= n,
        decreases n - bytes@.len(),
    {
        let want = n - bytes.len();
        match sys_recvmsg(fd, want) {
            Ok((chunk, got_fds)) => {
                if chunk.len() == 0 {
                    return Err(IPCError::ReceptionFailure(PlatformError::NoMoreSenders));
                }
                let mut chunk = chunk;
                let mut got_fds = got_fds;
                bytes.append(&mut chunk);
                fds.append(&mut got_fds);
            },
            Err(e) => {
                return Err(IPCError::ReceptionFailure(PlatformError::ReceptionError(e)));
            },
        }
    }
    Ok((bytes, fds))
}

} // verus!
