//! The named rendezvous receive right.
//!
//! A listener binds a name derived deterministically from a process
//! identifier, so any process knowing that identifier can compute the same
//! name and attach later. It is not connected to any bootstrap-created
//! connector.

use vstd::prelude::*;
use crate::errors::{IPCListenerError, PlatformError};
use crate::platform::Pid;
use crate::sys::{sys_bind_abstract, sys_close, sys_listen, sys_socket};

verus! {

/// The decimal digits of `n`, most significant first.
pub open spec fn spec_decimal_digits(n: nat) -> Seq<u8>
    decreases n,
{
    if n < 10 {
        seq![(48 + n) as u8]
    } else {
        spec_decimal_digits(n / 10).push((48 + n % 10) as u8)
    }
}

/// The fixed part of every rendezvous name.
pub open spec fn spec_rendezvous_prefix() -> Seq<u8> {
    seq![99u8, 114u8, 97u8, 115u8, 104u8, 45u8, 104u8, 101u8, 108u8, 112u8, 101u8, 114u8, 45u8]
}

/// The rendezvous name bound for a process: the fixed prefix followed by the
/// process identifier's decimal digits.
pub open spec fn spec_rendezvous_name(pid: Pid) -> Seq<u8> {
    spec_rendezvous_prefix() + spec_decimal_digits(pid as nat)
}

fn push_decimal(v: &mut Vec<u8>, n: u32)
    ensures
        final(v)@ == old(v)@ + spec_decimal_digits(n as nat),
    decreases n,
{
    if n < 10 {
        v.push(48 + n as u8);
    } else {
        proof {
            assert(n / 10 < n) by (nonlinear_arith)
                requires
                    n >= 10,
            ;
        }
        push_decimal(v, n / 10);
        let digit = n % 10;
        v.push(48 + digit as u8);
    }
    proof {
        assert(v@ =~= old(v)@ + spec_decimal_digits(n as nat));
    }
}

/// Compute the rendezvous name a listener for process `pid` binds.
pub fn rendezvous_name(pid: Pid) -> (r: Vec<u8>)
    ensures
        r@ == spec_rendezvous_name(pid),
{
    let mut v: Vec<u8> = vec![99u8, 114u8, 97u8, 115u8, 104u8, 45u8, 104u8, 101u8, 108u8, 112u8, 101u8, 114u8, 45u8];
    proof {
        assert(v@ =~= spec_rendezvous_prefix());
    }
    push_decimal(&mut v, pid);
    v
}

/// The exact platform fault each listener failure wraps: socket creation,
/// bind and listen failures carry their own kernel error and no other.
pub open spec fn listener_error_shape(e: IPCListenerError) -> bool {
    match e {
        IPCListenerError::SocketCreation(p) => p matches PlatformError::SocketCreation(_),
        IPCListenerError::Bind(p) => p matches PlatformError::BindError(_),
        IPCListenerError::Listen(p) => p matches PlatformError::ListenError(_),
    }
}

/// A named rendezvous receive right bound to a process identifier.
pub struct IPCListener {
    fd: i32,
    pid: Pid,
}

impl IPCListener {
    /// The descriptor underlying the listener.
    pub closed spec fn fd_spec(&self) -> int {
        self.fd as int
    }

    /// The process identifier the listener's name is derived from.
    pub closed spec fn pid_spec(&self) -> Pid {
        self.pid
    }

    /// A live listener wraps a real descriptor.
    pub open spec fn wf(&self) -> bool {
        self.fd_spec() >= 0
    }

    /// Bind the rendezvous name derived from `pid` and start listening on
    /// it. Fails with `Bind` in particular when the name is already taken.
    pub fn new(pid: Pid) -> (r: Result<IPCListener, IPCListenerError>)
        ensures
            r matches Ok(l) ==> l.wf() && l.pid_spec() == pid,
            r matches Err(e) ==> listener_error_shape(e),
    {
        let fd = match sys_socket() {
            Ok(fd) => fd,
            Err(e) => {
                return Err(IPCListenerError::SocketCreation(PlatformError::SocketCreation(e)));
            },
        };
        let name = rendezvous_name(pid);
        match sys_bind_abstract(fd, &name) {
            Ok(()) => {},
            Err(e) => {
                sys_close(fd);
                return Err(IPCListenerError::Bind(PlatformError::BindError(e)));
            },
        }
        match sys_listen(fd) {
            Ok(()) => {},
            Err(e) => {
                sys_close(fd);
                return Err(IPCListenerError::Listen(PlatformError::ListenError(e)));
            },
        }
        Ok(IPCListener { fd, pid })
    }
}

impl Drop for IPCListener {
    /// Releases the bound rendezvous socket exactly once.
    fn drop(&mut self)
        opens_invariants none
        no_unwind
    {
        sys_close(self.fd);
    }
}

} // verus!
