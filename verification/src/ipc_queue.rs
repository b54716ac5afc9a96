//! Multiplexing many live connectors under one blocking kernel wait.
//!
//! A queue owns one kernel multiplexing object and a mapping from connector
//! key to shared connector. Keys are unique; a connector stays in the mapping
//! from successful registration until the caller explicitly removes it — a
//! `Disconnect` event does not evict it, so the caller can flush bookkeeping
//! first. Each successful wait yields exactly one event, and once a key's
//! disconnect has been reported its source stops signalling, so the
//! disconnect is reported once.

use vstd::prelude::*;
use std::rc::Rc;
use crate::connector::{connector_view_wf, ConnectorView, IPCConnector, IPCConnectorKey};
use crate::errors::{IPCError, IPCListenerError, PlatformError};
use crate::listener::IPCListener;
use crate::messages::{validate_header, IPCHeader, MessageError, MAX_PAYLOAD_SIZE};
use crate::sys::{sys_close, sys_epoll_add, sys_epoll_create, sys_epoll_del, sys_epoll_wait_one};

verus! {

/// A failure of the queue, classified by the operation that failed.
#[derive(Debug, PartialEq, Eq, Clone, Copy)]
pub enum IPCQueueError {
    /// The kernel multiplexing object could not be created.
    CreationFailure(PlatformError),
    /// A connector could not be registered; it is left unregistered.
    RegistrationFailure(PlatformError),
    /// Waiting on the kernel multiplexing object failed; no event was
    /// consumed.
    WaitError(PlatformError),
    /// Reading from the ready connector failed with an ordinary fault.
    IPCError(IPCError),
    /// An underlying listener operation failed.
    IPCListenerError(IPCListenerError),
    /// The ready connector's message was malformed.
    MessageError(MessageError),
}

/// One discrete outcome of a wait: a message arrived on a registered
/// connector, or its peer released every send right to it.
#[derive(Debug)]
pub enum IPCEvent {
    /// `Message(key, header, payload, rights)`: one full message, byte-exact,
    /// with any transferred rights riding with it.
    Message(IPCConnectorKey, IPCHeader, Vec<u8>, Vec<i32>),
    /// `Disconnect(key)`: every send right to the connector filed under `key`
    /// has been released.
    Disconnect(IPCConnectorKey),
}

struct QueueEntry {
    key: IPCConnectorKey,
    connector: Rc<IPCConnector>,
    active: bool,
}

/// The mathematical content of one registration: the key it is filed under,
/// the connector's content, and whether its source still signals (it stops
/// once a disconnect has been reported).
pub ghost struct EntryView {
    pub key: int,
    pub connector: ConnectorView,
    pub active: bool,
}

/// The mathematical content of a queue: its multiplexing descriptor and its
/// registrations, in registration order.
pub ghost struct QueueView {
    pub epfd: int,
    pub entries: Seq<EntryView>,
}

impl View for QueueEntry {
    type V = EntryView;

    closed spec fn view(&self) -> EntryView {
        EntryView { key: self.key as int, connector: self.connector@, active: self.active }
    }
}

/// Whether some registration is filed under `k`.
pub open spec fn q_has_key(v: QueueView, k: int) -> bool {
    exists|i: int| 0 <= i < v.entries.len() && (#[trigger] v.entries[i]).key == k
}

/// Whether the registration filed under `k` still signals.
pub open spec fn q_active(v: QueueView, k: int) -> bool {
    exists|i: int|
        0 <= i < v.entries.len() && (#[trigger] v.entries[i]).key == k && v.entries[i].active
}

/// The queue's invariant: a real multiplexing descriptor; every registration
/// filed under the key that identifies its connector; keys unique.
pub open spec fn q_wf(v: QueueView) -> bool {
    &&& v.epfd >= 0
    &&& forall|i: int|
        0 <= i < v.entries.len() ==> connector_view_wf((#[trigger] v.entries[i]).connector)
            && v.entries[i].key == v.entries[i].connector.recv_fd
    &&& forall|i: int, j: int|
        0 <= i < j < v.entries.len() ==> (#[trigger] v.entries[i]).key != (
        #[trigger] v.entries[j]).key
}

/// How a registration relates the queue before and after and the outcome: on
/// success exactly the new registration is appended, live; on failure the
/// registrations are exactly as they were and the failure is a
/// `RegistrationFailure`.
pub open spec fn add_transition(
    pre: QueueView,
    post: QueueView,
    c: ConnectorView,
    r: Result<(), IPCQueueError>,
) -> bool {
    &&& post.epfd == pre.epfd
    &&& match r {
        Ok(()) => post.entries == pre.entries.push(
            (EntryView { key: c.recv_fd, connector: c, active: true }),
        ),
        Err(e) => post.entries == pre.entries && e matches IPCQueueError::RegistrationFailure(
            PlatformError::KernelEventError(_),
        ),
    }
}

/// How one wait relates the queue before and after and the outcome. Every
/// registration survives with its key and connector unchanged. On success
/// there is exactly one event, its key is one of the still-signalling
/// registrations; a message leaves every registration as it was and carries
/// exactly the payload its header declares; a disconnect stops exactly its
/// own key's source from signalling. On failure no event is consumed, the
/// registrations are exactly as they were, and the failure is a wait,
/// reception or message fault — never the no-more-senders condition, which
/// always becomes a `Disconnect` event.
pub open spec fn wait_transition(
    pre: QueueView,
    post: QueueView,
    r: Result<Vec<IPCEvent>, IPCQueueError>,
) -> bool {
    &&& post.epfd == pre.epfd
    &&& post.entries.len() == pre.entries.len()
    &&& forall|i: int|
        0 <= i < pre.entries.len() ==> (#[trigger] post.entries[i]).key == pre.entries[i].key
            && post.entries[i].connector == pre.entries[i].connector
    &&& match r {
        Ok(events) => {
            &&& events.len() == 1
            &&& match events[0] {
                IPCEvent::Message(k, h, p, _rights) => {
                    &&& q_active(pre, k as int)
                    &&& post.entries == pre.entries
                    &&& p.len() == h.size
                    &&& h.size <= MAX_PAYLOAD_SIZE
                },
                IPCEvent::Disconnect(k) => {
                    &&& q_active(pre, k as int)
                    &&& forall|i: int|
                        0 <= i < pre.entries.len() ==> (#[trigger] post.entries[i]).active == (
                        pre.entries[i].active && pre.entries[i].key != k as int)
                },
            }
        },
        Err(e) => {
            &&& post.entries == pre.entries
            &&& (e matches IPCQueueError::WaitError(_) || e matches IPCQueueError::IPCError(_)
                || e matches IPCQueueError::MessageError(_))
            &&& !(e matches IPCQueueError::IPCError(IPCError::ReceptionFailure(
                PlatformError::NoMoreSenders,
            )))
        },
    }
}

/// Law: a disconnect is singular. Once a wait has reported `Disconnect` for
/// a key, the next wait reports no event — neither a message nor another
/// disconnect — for that key.
pub proof fn lemma_disconnect_is_singular(
    q0: QueueView,
    q1: QueueView,
    q2: QueueView,
    r1: Result<Vec<IPCEvent>, IPCQueueError>,
    r2: Result<Vec<IPCEvent>, IPCQueueError>,
    k: IPCConnectorKey,
)
    requires
        wait_transition(q0, q1, r1),
        wait_transition(q1, q2, r2),
        r1 matches Ok(es1) && es1[0] == IPCEvent::Disconnect(k),
    ensures
        r2 matches Ok(es2) ==> match es2[0] {
            IPCEvent::Message(k2, _h, _p, _rights) => k2 != k,
            IPCEvent::Disconnect(k2) => k2 != k,
        },
{
    assert(!q_active(q1, k as int));
}

/// Law: registration does not overwrite. After a successful registration,
/// every registration that was present is still present, filed under its own
/// key, and the keys are still unique.
pub proof fn lemma_registration_preserves_entries(
    pre: QueueView,
    post: QueueView,
    c: ConnectorView,
    r: Result<(), IPCQueueError>,
)
    requires
        q_wf(pre),
        connector_view_wf(c),
        !q_has_key(pre, c.recv_fd),
        add_transition(pre, post, c, r),
        r is Ok,
    ensures
        q_wf(post),
        forall|i: int|
            0 <= i < pre.entries.len() ==> (#[trigger] post.entries[i]) == pre.entries[i],
        q_has_key(post, c.recv_fd),
{
    assert(post.entries[pre.entries.len() as int].key == c.recv_fd);
    assert forall|i: int, j: int| 0 <= i < j < post.entries.len() implies (
    #[trigger] post.entries[i]).key != (#[trigger] post.entries[j]).key by {
        if j < pre.entries.len() {
        } else {
            assert(post.entries[j].key == c.recv_fd);
        }
    }
}

/// Multiplexes many live connectors under one blocking kernel wait.
pub struct IPCQueue {
    epfd: i32,
    listener: IPCListener,
    entries: Vec<QueueEntry>,
}

impl View for IPCQueue {
    type V = QueueView;

    closed spec fn view(&self) -> QueueView {
        QueueView {
            epfd: self.epfd as int,
            entries: self.entries@.map_values(|e: QueueEntry| e@),
        }
    }
}

impl IPCQueue {
    /// The queue's invariant, over its mathematical content.
    pub open spec fn wf(&self) -> bool {
        q_wf(self@)
    }

    /// Create an empty queue around a fresh kernel multiplexing object,
    /// holding the listener for the queue's lifetime.
    pub fn new(listener: IPCListener) -> (r: Result<IPCQueue, IPCQueueError>)
        requires
            listener.wf(),
        ensures
            r matches Ok(q) ==> q.wf() && q@.entries.len() == 0,
            r matches Err(e) ==> e matches IPCQueueError::CreationFailure(
                PlatformError::KernelQueueError(_),
            ),
    {
        let epfd = match sys_epoll_create() {
            Ok(fd) => fd,
            Err(e) => {
                return Err(IPCQueueError::CreationFailure(PlatformError::KernelQueueError(e)));
            },
        };
        let q = IPCQueue { epfd, listener, entries: Vec::new() };
        proof {
            assert(q@.entries =~= Seq::<EntryView>::empty());
        }
        Ok(q)
    }

    /// Register a connector: arrange disconnect notification and readiness
    /// reporting for its receive right, then file it under its key. The steps
    /// are all-or-nothing: on failure the connector is left unregistered.
    /// Registering a key already present is a programming error, excluded by
    /// contract; `is_registered` lets a caller check first.
    pub fn add_connector(&mut self, connector: &Rc<IPCConnector>) -> (r: Result<(), IPCQueueError>)
        requires
            old(self).wf(),
            connector_view_wf(connector@),
            !q_has_key(old(self)@, connector@.recv_fd),
        ensures
            final(self).wf(),
            add_transition(old(self)@, final(self)@, connector@, r),
    {
        let key = rc_as_ref(connector).key();
        let fd = rc_as_ref(connector).raw_recv_right();
        match sys_epoll_add(self.epfd, fd, key as u64) {
            Ok(()) => {},
            Err(e) => {
                return Err(IPCQueueError::RegistrationFailure(PlatformError::KernelEventError(e)));
            },
        }
        let entry = QueueEntry { key, connector: rc_clone(connector), active: true };
        self.entries.push(entry);
        proof {
            assert(self@.entries =~= old(self)@.entries.push(
                (EntryView { key: connector@.recv_fd, connector: connector@, active: true }),
            ));
            lemma_registration_preserves_entries(
                old(self)@,
                self@,
                connector@,
                Ok::<(), IPCQueueError>(()),
            );
        }
        Ok(())
    }

    /// Whether some connector is filed under `key`, registered and not yet
    /// removed.
    pub fn is_registered(&self, key: IPCConnectorKey) -> (r: bool)
        ensures
            r == q_has_key(self@, key as int),
    {
        let mut i: usize = 0;
        while i < self.entries.len()
            invariant
                i <= self@.entries.len(),
                self@.entries.len() == self.entries@.len(),
                forall|j: int|
                    0 <= j < self@.entries.len() ==> (#[trigger] self@.entries[j]) == self.entries@[
                    j]@,
                forall|j: int| 0 <= j < i ==> (#[trigger] self@.entries[j]).key != key as int,
            decreases self@.entries.len() - i,
        {
            if self.entries[i].key == key {
                proof {
                    assert((self@.entries[i as int]).key == key as int);
                }
                return true;
            }
            i = i + 1;
        }
        false
    }

    /// Index of the still-signalling registration filed under the kernel's
    /// reported tag, if any.
    fn find_active_entry(&self, tag: u64) -> (r: Option<usize>)
        requires
            self.wf(),
        ensures
            match r {
                Some(i) => i < self@.entries.len() && self@.entries[i as int].active
                    && self@.entries[i as int].key == tag as int,
                None => !exists|i: int|
                    0 <= i < self@.entries.len() && (#[trigger] self@.entries[i]).active
                        && self@.entries[i].key == tag as int,
            },
    {
        let mut i: usize = 0;
        while i < self.entries.len()
            invariant
                self.wf(),
                i <= self@.entries.len(),
                self@.entries.len() == self.entries@.len(),
                forall|j: int|
                    0 <= j < self@.entries.len() ==> (#[trigger] self@.entries[j]) == self.entries@[
                    j]@,
                forall|j: int|
                    0 <= j < i ==> !((#[trigger] self@.entries[j]).active && self@.entries[j].key
                        == tag as int),
            decreases self@.entries.len() - i,
        {
            let e_key = self.entries[i].key;
            let e_active = self.entries[i].active;
            if e_active && e_key >= 0 && e_key as u64 == tag {
                return Some(i);
            }
            i = i + 1;
        }
        None
    }

    /// Stop readiness reporting for the registration at `idx` and mark it no
    /// longer signalling; it stays filed under its key.
    fn deactivate(&mut self, idx: usize)
        requires
            old(self).wf(),
            idx < old(self)@.entries.len(),
        ensures
            final(self).wf(),
            final(self)@.epfd == old(self)@.epfd,
            final(self)@.entries == old(self)@.entries.update(
                idx as int,
                (EntryView {
                    key: old(self)@.entries[idx as int].key,
                    connector: old(self)@.entries[idx as int].connector,
                    active: false,
                }),
            ),
    {
        let fd = rc_as_ref(&self.entries[idx].connector).raw_recv_right();
        // Mirrors a consumed disconnect notification: the source must not
        // signal again once its disconnect has been reported. The removal is
        // best-effort; the mapping itself is the caller's to clean up.
        let _ = sys_epoll_del(self.epfd, fd);
        let mut e = self.entries.remove(idx);
        e.active = false;
        self.entries.insert(idx, e);
        proof {
            assert(self@.entries =~= old(self)@.entries.update(
                idx as int,
                (EntryView {
                    key: old(self)@.entries[idx as int].key,
                    connector: old(self)@.entries[idx as int].connector,
                    active: false,
                }),
            ));
        }
    }

    /// Block until the kernel reports exactly one ready source, resolve it to
    /// its registered key, and yield exactly one event for it: the next full
    /// message, or — once the peer has released every send right — a single
    /// `Disconnect`. The connector is not removed from the mapping; removal
    /// is the caller's responsibility. On failure no event is consumed and
    /// the queue's bookkeeping is unchanged, so a retry is safe. A wakeup
    /// that resolves to no still-signalling key reports
    /// `UnresolvedKernelEvent`; registration keeps the kernel's tags and the
    /// mapping in step, so this does not arise.
    pub fn wait_for_events(&mut self) -> (r: Result<Vec<IPCEvent>, IPCQueueError>)
        requires
            old(self).wf(),
        ensures
            final(self).wf(),
            wait_transition(old(self)@, final(self)@, r),
    {
        let tag = match sys_epoll_wait_one(self.epfd) {
            Ok(t) => t,
            Err(e) => {
                return Err(IPCQueueError::WaitError(PlatformError::KernelEventError(e)));
            },
        };
        let idx = match self.find_active_entry(tag) {
            Some(i) => i,
            None => {
                return Err(IPCQueueError::WaitError(PlatformError::UnresolvedKernelEvent(tag)));
            },
        };
        let key = self.entries[idx].key;
        let header_result = {
            let conn = rc_as_ref(&self.entries[idx].connector);
            conn.recv_header()
        };
        let header = match header_result {
            Ok(h) => h,
            Err(IPCError::ReceptionFailure(PlatformError::NoMoreSenders)) => {
                self.deactivate(idx);
                return Ok(vec![IPCEvent::Disconnect(key)]);
            },
            Err(e) => {
                return Err(IPCQueueError::IPCError(e));
            },
        };
        match validate_header(&header) {
            Ok(()) => {},
            Err(e) => {
                return Err(IPCQueueError::MessageError(e));
            },
        }
        let payload_result = {
            let conn = rc_as_ref(&self.entries[idx].connector);
            conn.recv(header.size as usize)
        };
        match payload_result {
            Ok((payload, rights)) => Ok(vec![IPCEvent::Message(key, header, payload, rights)]),
            Err(IPCError::ReceptionFailure(PlatformError::NoMoreSenders)) => {
                self.deactivate(idx);
                Ok(vec![IPCEvent::Disconnect(key)])
            },
            Err(e) => Err(IPCQueueError::IPCError(e)),
        }
    }

    /// Remove the registration filed under `key`, if any, handing back the
    /// queue's reference to its connector; the caller decides when the last
    /// owner drops it.
    pub fn remove_connector(&mut self, key: IPCConnectorKey) -> (r: Option<Rc<IPCConnector>>)
        requires
            old(self).wf(),
        ensures
            final(self).wf(),
            final(self)@.epfd == old(self)@.epfd,
            match r {
                Some(c) => exists|i: int|
                    0 <= i < old(self)@.entries.len() && (#[trigger] old(self)@.entries[i]).key
                        == key as int && c@ == old(self)@.entries[i].connector
                        && final(self)@.entries == old(self)@.entries.remove(i),
                None => final(self)@.entries == old(self)@.entries && !q_has_key(
                    old(self)@,
                    key as int,
                ),
            },
    {
        let mut i: usize = 0;
        while i < self.entries.len()
            invariant
                self.wf(),
                self@ == old(self)@,
                i <= self@.entries.len(),
                self@.entries.len() == self.entries@.len(),
                forall|j: int|
                    0 <= j < self@.entries.len() ==> (#[trigger] self@.entries[j]) == self.entries@[
                    j]@,
                forall|j: int| 0 <= j < i ==> (#[trigger] self@.entries[j]).key != key as int,
            decreases self@.entries.len() - i,
        {
            if self.entries[i].key == key {
                if self.entries[i].active {
                    let fd = rc_as_ref(&self.entries[i].connector).raw_recv_right();
                    let _ = sys_epoll_del(self.epfd, fd);
                }
                let ghost pre = old(self)@;
                let ghost wi = i as int;
                let entry = self.entries.remove(i);
                proof {
                    assert(self@.entries =~= pre.entries.remove(wi));
                    assert forall|a: int|
                        0 <= a < self@.entries.len() implies (#[trigger] self@.entries[a]) == (
                    if a < wi {
                        pre.entries[a]
                    } else {
                        pre.entries[a + 1]
                    }) by {}
                    assert forall|a: int, b: int|
                        0 <= a < b < self@.entries.len() implies (
                    #[trigger] self@.entries[a]).key != (#[trigger] self@.entries[b]).key by {
                        assert(self@.entries[a] == if a < wi {
                            pre.entries[a]
                        } else {
                            pre.entries[a + 1]
                        });
                        assert(self@.entries[b] == if b < wi {
                            pre.entries[b]
                        } else {
                            pre.entries[b + 1]
                        });
                    }
                    assert(0 <= wi < pre.entries.len() && pre.entries[wi].key == key as int
                        && entry.connector@ == pre.entries[wi].connector && self@.entries
                        == pre.entries.remove(wi));
                }
                return Some(entry.connector);
            }
            i = i + 1;
        }
        None
    }
}

impl Drop for IPCQueue {
    /// Releases the kernel multiplexing object exactly once; the held
    /// listener and connector references release themselves as they are
    /// dropped with the queue.
    fn drop(&mut self)
        opens_invariants none
        no_unwind
    {
        sys_close(self.epfd);
    }
}

/// Relies on std::rc::Rc::clone: hands back a second owning handle to the
/// same shared connector.
#[verifier::external_body]
fn rc_clone(rc: &Rc<IPCConnector>) -> (r: Rc<IPCConnector>)
    ensures
        r@ == rc@,
{
    Rc::clone(rc)
}

/// Relies on std::rc::Rc::as_ref: borrows the shared connector a handle
/// owns.
#[verifier::external_body]
fn rc_as_ref<'a>(rc: &'a Rc<IPCConnector>) -> (r: &'a IPCConnector)
    ensures
        r@ == rc@,
{
    rc.as_ref()
}

} // verus!
