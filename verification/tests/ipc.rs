use std::rc::Rc;

use crash_helper_common::connector::IPCConnector;
use crash_helper_common::errors::{IPCError, IPCListenerError, PlatformError};
use crash_helper_common::ipc_channel::{IPCChannel, IPCClientChannel};
use crash_helper_common::ipc_queue::{IPCEvent, IPCQueue, IPCQueueError};
use crash_helper_common::listener::IPCListener;
use crash_helper_common::platform::ReceiveRight;

fn new_pair() -> (IPCConnector, IPCConnector) {
    IPCClientChannel::new().expect("bootstrap failed").deconstruct()
}

fn new_queue(fake_pid: u32) -> IPCQueue {
    let listener = IPCListener::new(fake_pid).expect("listener failed");
    IPCQueue::new(listener).expect("queue creation failed")
}

#[test]
fn client_channel_endpoints_have_distinct_keys() {
    let (server, client) = new_pair();
    assert_ne!(server.key(), client.key());
}

#[test]
fn round_trip_is_byte_exact_both_directions() {
    let (server, client) = new_pair();

    let payload = b"from-client".to_vec();
    client.send_message(11, &payload, &Vec::new()).expect("send failed");
    let header = server.recv_header().expect("recv_header failed");
    assert_eq!(header.kind, 11);
    assert_eq!(header.size as usize, payload.len());
    let (bytes, rights) = server.recv(header.size as usize).expect("recv failed");
    assert_eq!(bytes, payload);
    assert!(rights.is_empty());

    let reply = b"from-server".to_vec();
    server.send_message(12, &reply, &Vec::new()).expect("send failed");
    let header = client.recv_header().expect("recv_header failed");
    assert_eq!(header.kind, 12);
    assert_eq!(header.size as usize, reply.len());
    let (bytes, _) = client.recv(header.size as usize).expect("recv failed");
    assert_eq!(bytes, reply);
}

#[test]
fn no_third_connector_observes_traffic() {
    let (server_a, client_a) = new_pair();
    let (server_b, client_b) = new_pair();

    let mut queue = new_queue(910001);
    let rc_a = Rc::new(server_a);
    let rc_b = Rc::new(server_b);
    queue.add_connector(&rc_a).expect("register a");
    queue.add_connector(&rc_b).expect("register b");

    client_b.send_message(1, &b"only-b".to_vec(), &Vec::new()).expect("send failed");
    let events = queue.wait_for_events().expect("wait failed");
    assert_eq!(events.len(), 1);
    match &events[0] {
        IPCEvent::Message(key, _h, payload, _r) => {
            assert_eq!(*key, rc_b.key());
            assert_ne!(*key, rc_a.key());
            assert_eq!(payload, &b"only-b".to_vec());
        },
        IPCEvent::Disconnect(_) => panic!("unexpected disconnect"),
    }
    drop(client_a);
}

#[test]
fn scenario_ping_then_disconnect() {
    let channel = IPCChannel::new().expect("channel bootstrap failed");
    let (_listener, server, client) = channel.deconstruct();
    let server_key = server.key();

    let mut queue = new_queue(910002);
    let rc_server = Rc::new(server);
    queue.add_connector(&rc_server).expect("register failed");

    client.send_message(0, &b"PING".to_vec(), &Vec::new()).expect("send failed");
    let events = queue.wait_for_events().expect("wait failed");
    assert_eq!(events.len(), 1);
    match &events[0] {
        IPCEvent::Message(key, header, payload, rights) => {
            assert_eq!(*key, server_key);
            assert_eq!(header.size, 4);
            assert_eq!(payload, &b"PING".to_vec());
            assert!(rights.is_empty());
        },
        IPCEvent::Disconnect(_) => panic!("expected a message first"),
    }

    drop(client);
    let events = queue.wait_for_events().expect("wait failed");
    assert_eq!(events.len(), 1);
    match &events[0] {
        IPCEvent::Disconnect(key) => assert_eq!(*key, server_key),
        IPCEvent::Message(..) => panic!("expected a disconnect"),
    }
}

#[test]
fn n_ready_sources_yield_n_events() {
    let mut queue = new_queue(910003);
    let mut servers = Vec::new();
    let mut clients = Vec::new();
    for i in 0..3u32 {
        let (server, client) = new_pair();
        let rc = Rc::new(server);
        queue.add_connector(&rc).expect("register failed");
        client
            .send_message(i, &format!("payload-{}", i).into_bytes(), &Vec::new())
            .expect("send failed");
        servers.push(rc);
        clients.push(client);
    }

    let mut seen_keys = Vec::new();
    for _ in 0..3 {
        let events = queue.wait_for_events().expect("wait failed");
        assert_eq!(events.len(), 1);
        match &events[0] {
            IPCEvent::Message(key, header, payload, _r) => {
                assert!(!seen_keys.contains(key), "duplicate event for one source");
                assert_eq!(payload, &format!("payload-{}", header.kind).into_bytes());
                seen_keys.push(*key);
            },
            IPCEvent::Disconnect(_) => panic!("unexpected disconnect"),
        }
    }
    for rc in &servers {
        assert!(seen_keys.contains(&rc.key()), "an event was lost");
    }
}

#[test]
fn disconnect_is_reported_once() {
    let (server_a, client_a) = new_pair();
    let (server_b, client_b) = new_pair();
    let key_a = server_a.key();
    let key_b = server_b.key();

    let mut queue = new_queue(910004);
    let rc_a = Rc::new(server_a);
    let rc_b = Rc::new(server_b);
    queue.add_connector(&rc_a).expect("register a");
    queue.add_connector(&rc_b).expect("register b");

    drop(client_a);
    client_b.send_message(5, &b"still-here".to_vec(), &Vec::new()).expect("send failed");

    let mut saw_disconnect_a = false;
    let mut saw_message_b = false;
    for _ in 0..2 {
        let events = queue.wait_for_events().expect("wait failed");
        match &events[0] {
            IPCEvent::Disconnect(key) => {
                assert_eq!(*key, key_a);
                assert!(!saw_disconnect_a, "disconnect reported twice");
                saw_disconnect_a = true;
            },
            IPCEvent::Message(key, _h, payload, _r) => {
                assert_eq!(*key, key_b);
                assert_eq!(payload, &b"still-here".to_vec());
                saw_message_b = true;
            },
        }
    }
    assert!(saw_disconnect_a && saw_message_b);

    // The dead source must not surface again: the next event belongs to the
    // live connector.
    client_b.send_message(6, &b"again".to_vec(), &Vec::new()).expect("send failed");
    let events = queue.wait_for_events().expect("wait failed");
    match &events[0] {
        IPCEvent::Message(key, _h, payload, _r) => {
            assert_eq!(*key, key_b);
            assert_eq!(payload, &b"again".to_vec());
        },
        IPCEvent::Disconnect(_) => panic!("spurious second disconnect"),
    }
}

#[test]
fn duplicate_key_is_rejected_not_overwritten() {
    let (server, _client) = new_pair();
    let mut queue = new_queue(910005);
    let rc = Rc::new(server);
    queue.add_connector(&rc).expect("first registration failed");
    assert!(queue.is_registered(rc.key()));

    let again = queue.add_connector(&rc);
    assert!(matches!(
        again,
        Err(IPCQueueError::RegistrationFailure(PlatformError::KernelEventError(_)))
    ));
    assert!(queue.is_registered(rc.key()));
}

#[test]
fn removal_is_explicit_and_returns_the_reference() {
    let (server, client) = new_pair();
    let key = server.key();
    let mut queue = new_queue(910006);
    let rc = Rc::new(server);
    queue.add_connector(&rc).expect("register failed");

    drop(client);
    let events = queue.wait_for_events().expect("wait failed");
    assert!(matches!(&events[0], IPCEvent::Disconnect(k) if *k == key));

    // The disconnect did not evict the connector; the caller removes it.
    assert!(queue.is_registered(key));
    let removed = queue.remove_connector(key);
    assert!(removed.is_some());
    assert_eq!(removed.unwrap().key(), key);
    assert!(!queue.is_registered(key));
    assert!(queue.remove_connector(key).is_none());
}

#[test]
fn rights_ride_with_the_message() {
    let (server, client) = new_pair();
    let (aux_server, _aux_client) = new_pair();

    let sent_fd = aux_server.raw_recv_right();
    client.send_message(3, &b"FD".to_vec(), &vec![sent_fd]).expect("send failed");

    let header = server.recv_header().expect("recv_header failed");
    assert_eq!(header.size, 2);
    let (bytes, rights) = server.recv(header.size as usize).expect("recv failed");
    assert_eq!(bytes, b"FD".to_vec());
    assert_eq!(rights.len(), 1);
    // The received right is a fresh descriptor owned by this process.
    assert!(rights[0] >= 0);
    let _ = nix::unistd::close(rights[0]);
}

#[test]
fn reading_a_dropped_peer_reports_no_more_senders() {
    let (server, client) = new_pair();
    drop(client);
    let r = server.recv_header();
    assert!(matches!(
        r,
        Err(IPCError::ReceptionFailure(PlatformError::NoMoreSenders))
    ));
}

#[test]
fn listener_name_collision_is_rejected() {
    let first = IPCListener::new(920001);
    assert!(first.is_ok());
    let second = IPCListener::new(920001);
    assert!(matches!(
        second,
        Err(IPCListenerError::Bind(PlatformError::BindError(_)))
    ));
}

#[test]
fn send_right_extraction_is_single_use() {
    let mut right = ReceiveRight::new().expect("right creation failed");
    let first = right.insert_send_right();
    assert!(first.is_ok());
    let second = right.insert_send_right();
    assert!(matches!(
        second,
        Err(IPCError::RightExtraction(PlatformError::SendRightUnavailable))
    ));
}
