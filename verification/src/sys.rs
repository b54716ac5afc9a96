//! Trusted wrappers around the kernel calls the transport is built on.
//!
//! Each function here holds exactly one outside call; its contract states
//! only what that call's documentation promises. Everything the transport
//! concludes from a kernel interaction flows through these contracts.

use vstd::prelude::*;
use crate::platform::paired;
use nix::sys::epoll::{epoll_create1, epoll_ctl, epoll_wait, EpollCreateFlags, EpollEvent,
    EpollFlags, EpollOp};
use nix::sys::socket::{bind, listen, recvmsg, sendmsg, socket, socketpair, AddressFamily,
    ControlMessage, ControlMessageOwned, MsgFlags, SockFlag, SockType, UnixAddr};
use std::io::{IoSlice, IoSliceMut};

verus! {

/// Relies on nix::sys::socket::socketpair: on success the two returned
/// descriptors are a connected pair — what is sent through the second
/// arrives at the first, stated through `paired` — each a distinct
/// nonnegative descriptor; on failure the errno is returned.
#[verifier::external_body]
pub(crate) fn sys_socketpair() -> (r: Result<(i32, i32), i32>)
    ensures
        r matches Ok(p) ==> p.0 >= 0 && p.1 >= 0 && p.0 != p.1 && paired(p.0 as int, p.1 as int),
{
    match socketpair(AddressFamily::Unix, SockType::Stream, None, SockFlag::empty()) {
        Ok(p) => Ok(p),
        Err(e) => Err(e as i32),
    }
}

/// Relies on nix::unistd::close: releases the descriptor; never unwinds.
#[verifier::external_body]
pub(crate) fn sys_close(fd: i32)
    opens_invariants none
    no_unwind
{
    let _ = nix::unistd::close(fd);
}

/// Relies on nix::unistd::write: on success at most the given range of the
/// buffer was written and the count written is returned.
#[verifier::external_body]
pub(crate) fn sys_write(fd: i32, buf: &Vec<u8>, offset: usize, end: usize) -> (r: Result<
    usize,
    i32,
>)
    requires
        offset <= end <= buf@.len(),
    ensures
        r matches Ok(n) ==> n <= end - offset,
{
    match nix::unistd::write(fd, &buf.as_slice()[offset..end]) {
        Ok(n) => Ok(n),
        Err(e) => Err(e as i32),
    }
}

/// Relies on nix::sys::socket::sendmsg with a ScmRights control message: on
/// success at most the given suffix of the buffer was sent, the descriptors
/// riding with its first byte, and the count sent is returned.
#[verifier::external_body]
pub(crate) fn sys_sendmsg(fd: i32, buf: &Vec<u8>, offset: usize, fds: &Vec<i32>) -> (r: Result<
    usize,
    i32,
>)
    requires
        offset <= buf@.len(),
    ensures
        r matches Ok(n) ==> n <= buf@.len() - offset,
{
    let iov = [IoSlice::new(&buf.as_slice()[offset..])];
    let cm = [ControlMessage::ScmRights(fds.as_slice())];
    match sendmsg::<UnixAddr>(fd, &iov, &cm, MsgFlags::empty(), None) {
        Ok(n) => Ok(n),
        Err(e) => Err(e as i32),
    }
}

/// Relies on nix::sys::socket::recvmsg: blocks until data arrives; on success
/// returns at most `max` received bytes (none exactly when every send right
/// has been released) together with any descriptors riding with them. The
/// fixed control-message space bounds how many descriptors one receive can
/// carry; the contract claims nothing about the count.
#[verifier::external_body]
pub(crate) fn sys_recvmsg(fd: i32, max: usize) -> (r: Result<(Vec<u8>, Vec<i32>), i32>)
    requires
        max >= 1,
    ensures
        r matches Ok(p) ==> p.0@.len() <= max,
{
    let (mut buf, mut fds): (Vec<u8>, Vec<i32>) = (vec![0u8; max], Vec::new());
    let mut space: Vec<u8> = Vec::with_capacity(256);
    let mut iov = [IoSliceMut::new(buf.as_mut_slice())];
    let n = match recvmsg::<UnixAddr>(fd, &mut iov, Some(&mut space), MsgFlags::empty()) {
        Ok(m) => {
            for c in m.cmsgs() {
                if let ControlMessageOwned::ScmRights(v) = c { fds.extend(v); }
            }
            m.bytes
        },
        Err(e) => return Err(e as i32),
    };
    buf.truncate(n);
    Ok((buf, fds))
}

/// Relies on nix::sys::epoll::epoll_create1: on success the returned
/// multiplexing descriptor is nonnegative.
#[verifier::external_body]
pub(crate) fn sys_epoll_create() -> (r: Result<i32, i32>)
    ensures
        r matches Ok(fd) ==> fd >= 0,
{
    match epoll_create1(EpollCreateFlags::EPOLL_CLOEXEC) {
        Ok(fd) => Ok(fd),
        Err(e) => Err(e as i32),
    }
}

/// Relies on nix::sys::epoll::epoll_ctl (add): registers the descriptor for
/// readiness reporting under the given tag; fails with an errno, in
/// particular when the descriptor is already registered.
#[verifier::external_body]
pub(crate) fn sys_epoll_add(epfd: i32, fd: i32, tag: u64) -> (r: Result<(), i32>)
{
    let mut ev = EpollEvent::new(EpollFlags::EPOLLIN | EpollFlags::EPOLLHUP, tag);
    match epoll_ctl(epfd, EpollOp::EpollCtlAdd, fd, &mut ev) {
        Ok(()) => Ok(()),
        Err(e) => Err(e as i32),
    }
}

/// Relies on nix::sys::epoll::epoll_ctl (delete): stops readiness reporting
/// for the descriptor.
#[verifier::external_body]
pub(crate) fn sys_epoll_del(epfd: i32, fd: i32) -> (r: Result<(), i32>)
{
    match epoll_ctl(epfd, EpollOp::EpollCtlDel, fd, None) {
        Ok(()) => Ok(()),
        Err(e) => Err(e as i32),
    }
}

/// Relies on nix::sys::epoll::epoll_wait asking for one event with no
/// timeout: blocks until some registered source is ready and returns the tag
/// it was registered under.
#[verifier::external_body]
pub(crate) fn sys_epoll_wait_one(epfd: i32) -> (r: Result<u64, i32>)
{
    let mut evs = [EpollEvent::empty()];
    match epoll_wait(epfd, &mut evs, -1) {
        Ok(_) => Ok(evs[0].data()),
        Err(e) => Err(e as i32),
    }
}

/// Relies on nix::unistd::getpid: returns the calling process's identifier.
#[verifier::external_body]
pub(crate) fn sys_getpid() -> (r: u32)
{
    nix::unistd::getpid().as_raw() as u32
}

/// Relies on nix::sys::socket::socket: on success the returned stream-socket
/// descriptor is nonnegative.
#[verifier::external_body]
pub(crate) fn sys_socket() -> (r: Result<i32, i32>)
    ensures
        r matches Ok(fd) ==> fd >= 0,
{
    match socket(AddressFamily::Unix, SockType::Stream, SockFlag::empty(), None) {
        Ok(fd) => Ok(fd),
        Err(e) => Err(e as i32),
    }
}

/// Relies on nix::sys::socket::bind with an abstract-namespace address built
/// by nix::sys::socket::UnixAddr::new_abstract: binds the socket to the given
/// name; fails with an errno when the name is taken or too long.
#[verifier::external_body]
pub(crate) fn sys_bind_abstract(fd: i32, name: &Vec<u8>) -> (r: Result<(), i32>)
{
    match UnixAddr::new_abstract(name.as_slice()) {
        Ok(addr) => match bind(fd, &addr) {
            Ok(()) => Ok(()),
            Err(e) => Err(e as i32),
        },
        Err(e) => Err(e as i32),
    }
}

/// Relies on nix::sys::socket::listen: marks the bound socket as accepting.
/// The backlog of 16 is a policy choice: the rendezvous serves occasional
/// attach flows, not bulk traffic.
#[verifier::external_body]
pub(crate) fn sys_listen(fd: i32) -> (r: Result<(), i32>)
{
    match listen(fd, 16) {
        Ok(()) => Ok(()),
        Err(e) => Err(e as i32),
    }
}

} // verus!
