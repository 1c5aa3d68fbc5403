use lightning_net_tokio::channels::TrySend;
use lightning_net_tokio::connection::{Connection, ConnectionIds, WRITE_AVAIL_DEPTH};
use lightning_net_tokio::descriptor::SocketDescriptor;
use std::collections::hash_map::DefaultHasher;
use std::collections::HashSet;
use std::hash::{Hash, Hasher};
use tokio::sync::mpsc;

fn connect(ids: &mut ConnectionIds) -> (Connection<u8>, mpsc::Receiver<()>, mpsc::Receiver<()>) {
    let (event_notify, events) = mpsc::channel(2);
    let (connection, wake_ups) = Connection::new(ids, event_notify, 7u8);
    (connection, wake_ups, events)
}

#[test]
fn a_new_connection_is_open() {
    let mut ids = ConnectionIds::new();
    let (connection, mut wake_ups, _events) = connect(&mut ids);
    assert_eq!(connection.writer, Some(7));
    assert!(connection.read_blocker.is_none());
    assert!(!connection.read_paused);
    assert!(connection.need_disconnect_event);
    assert!(!connection.disconnect);
    assert_eq!(connection.id, 0);
    assert!(wake_ups.try_recv().is_err());
}

#[test]
fn connections_are_numbered() {
    let mut ids = ConnectionIds::new();
    assert_eq!(connect(&mut ids).0.id, 0);
    assert_eq!(connect(&mut ids).0.id, 1);
    assert_eq!(connect(&mut ids).0.id, 2);
    assert_eq!(ids.next, 3);
}

#[test]
fn numbers_begin_again_after_the_last() {
    let mut ids = ConnectionIds { next: u64::MAX };
    assert_eq!(ids.take(), 18446744073709551615);
    assert_eq!(ids.take(), 0);
    assert_eq!(ids.take(), 1);
}

#[test]
fn a_disconnect_sets_the_flags_and_wakes() {
    let mut ids = ConnectionIds::new();
    let (mut connection, mut wake_ups, mut events) = connect(&mut ids);
    assert_eq!(connection.disconnect_socket(), TrySend::Sent);
    assert!(connection.disconnect);
    assert!(!connection.need_disconnect_event);
    assert!(connection.read_paused);
    assert_eq!(connection.writer, Some(7));
    assert!(wake_ups.try_recv().is_ok());
    assert!(wake_ups.try_recv().is_err());
    assert!(events.try_recv().is_err());
}

#[test]
fn wake_ups_queue_to_a_depth_of_one() {
    assert_eq!(WRITE_AVAIL_DEPTH, 1);
    let mut ids = ConnectionIds::new();
    let (mut connection, mut wake_ups, _events) = connect(&mut ids);
    assert_eq!(connection.wake_socket_waker_by_ref(), TrySend::Sent);
    assert_eq!(connection.wake_socket_waker_by_ref(), TrySend::Full);
    assert_eq!(connection.disconnect_socket(), TrySend::Full);
    assert!(wake_ups.try_recv().is_ok());
    assert!(wake_ups.try_recv().is_err());
    assert_eq!(connection.wake_socket_waker_by_ref(), TrySend::Sent);
}

#[test]
fn wake_ups_may_find_the_reader_gone() {
    let mut ids = ConnectionIds::new();
    let (mut connection, wake_ups, _events) = connect(&mut ids);
    drop(wake_ups);
    assert_eq!(connection.wake_socket_waker_by_ref(), TrySend::Closed);
    assert_eq!(connection.disconnect_socket(), TrySend::Closed);
    assert!(connection.disconnect);
}

#[test]
fn the_user_is_notified() {
    let mut ids = ConnectionIds::new();
    let (mut connection, mut wake_ups, mut events) = connect(&mut ids);
    assert_eq!(connection.notify_event(), TrySend::Sent);
    assert_eq!(connection.notify_event(), TrySend::Sent);
    assert_eq!(connection.notify_event(), TrySend::Full);
    assert!(events.try_recv().is_ok());
    assert!(events.try_recv().is_ok());
    assert!(events.try_recv().is_err());
    assert!(wake_ups.try_recv().is_err());
    drop(events);
    assert_eq!(connection.notify_event(), TrySend::Closed);
}

#[test]
fn descriptors_of_one_connection_are_equal() {
    let mut ids = ConnectionIds::new();
    let (a, _, _) = connect(&mut ids);
    let (b, _, _) = connect(&mut ids);
    let of_a = SocketDescriptor::new("one way", &a);
    let also_of_a = SocketDescriptor::new("another way", &a);
    let of_b = SocketDescriptor::new("one way", &b);
    assert!(of_a == also_of_a);
    assert!(also_of_a == of_a);
    assert!(of_a != of_b);
    assert_eq!(of_b.id, 1);
    assert_eq!(of_b.conn, "one way");
}

#[test]
fn a_cloned_descriptor_is_the_same() {
    let mut ids = ConnectionIds { next: 41 };
    let (a, _, _) = connect(&mut ids);
    let descriptor = SocketDescriptor::new(vec![1, 2], &a);
    let copy = descriptor.clone();
    assert!(copy == descriptor);
    assert_eq!(copy.id, 41);
    assert_eq!(copy.conn, vec![1, 2]);
}

#[test]
fn equal_descriptors_hash_alike() {
    let mut ids = ConnectionIds::new();
    let (a, _, _) = connect(&mut ids);
    let (b, _, _) = connect(&mut ids);
    let mut known = HashSet::new();
    assert!(known.insert(SocketDescriptor::new("one way", &a)));
    assert!(!known.insert(SocketDescriptor::new("another way", &a)));
    assert!(known.insert(SocketDescriptor::new("one way", &b)));
    assert!(known.contains(&SocketDescriptor::new("", &b)));
    assert_eq!(known.len(), 2);
}

#[test]
fn a_descriptor_hashes_as_its_number() {
    let mut ids = ConnectionIds { next: 41 };
    let (mut a, _wake_ups, _events) = connect(&mut ids);
    let mut of_number = DefaultHasher::new();
    41u64.hash(&mut of_number);
    let mut of_zero = DefaultHasher::new();
    let mut of_descriptor = DefaultHasher::new();
    SocketDescriptor::new("one way", &a).hash(&mut of_descriptor);
    assert_eq!(of_descriptor.finish(), of_number.finish());
    0u64.hash(&mut of_zero);
    assert_ne!(of_descriptor.finish(), of_zero.finish());
    assert_ne!(of_descriptor.finish(), DefaultHasher::new().finish());

    let mut known = HashSet::new();
    known.insert(SocketDescriptor::new("one way", &a));
    a.disconnect_socket();
    a.start_send(3, true);
    assert!(known.contains(&SocketDescriptor::new("one way", &a)));
}
