use lightning_net_tokio::channels::TrySend;
use lightning_net_tokio::connection::{Connection, ConnectionIds};
use lightning_net_tokio::reading::{
    AfterNotice, CloseReason, ReadAction, ReadEvent, ReadPhase, ReadTask, READ_BUFFER_LEN,
};
use lightning_net_tokio::sending::SendStep;
use tokio::sync::mpsc;
use tokio::sync::oneshot;

const HANDLED: ReadEvent = ReadEvent::ReadHandled { pause_read: Some(false) };
const HANDLED_PAUSE: ReadEvent = ReadEvent::ReadHandled { pause_read: Some(true) };
const READ_ERROR: ReadEvent = ReadEvent::ReadHandled { pause_read: None };
const TOLD: ReadEvent = ReadEvent::Notified(TrySend::Sent);

struct Task {
    phase: ReadPhase,
    connection: Connection<u8>,
    blocker: Option<oneshot::Receiver<()>>,
    closing: Option<CloseReason>,
    wake_ups: mpsc::Receiver<()>,
    events: mpsc::Receiver<()>,
}

impl Task {
    fn start() -> Task {
        let (event_notify, events) = mpsc::channel(2);
        let (connection, wake_ups) = Connection::new(&mut ConnectionIds::new(), event_notify, 7u8);
        Task { phase: ReadPhase::start(), connection, blocker: None, closing: None, wake_ups, events }
    }

    fn on(&mut self, event: ReadEvent) -> ReadAction<u8> {
        assert!(self.phase.accepts(&event));
        let step = self.phase.step(&mut self.connection, event);
        self.blocker = step.blocker;
        self.closing = step.closing;
        step.action
    }
}

#[test]
fn data_is_handed_over_and_the_user_told() {
    let mut task = Task::start();
    assert_eq!(READ_BUFFER_LEN, 8192);
    assert_eq!(task.on(ReadEvent::Read(66)), ReadAction::CallReadEvent { len: 66 });
    assert_eq!(task.on(HANDLED), ReadAction::NotifyEvent);
    let told = task.connection.notify_event();
    assert_eq!(told, TrySend::Sent);
    assert_eq!(task.on(ReadEvent::Notified(told)), ReadAction::Wait);
    assert!(task.events.try_recv().is_ok());
    assert_eq!(task.phase, ReadPhase::Idle);
    assert!(!task.connection.read_paused);
    assert_eq!(task.closing, None);
}

#[test]
fn a_full_queue_of_events_does_not_matter() {
    let mut task = Task::start();
    task.on(ReadEvent::Read(1));
    assert_eq!(task.on(HANDLED), ReadAction::NotifyEvent);
    assert_eq!(task.on(ReadEvent::Notified(TrySend::Full)), ReadAction::Wait);
}

#[test]
fn nobody_listening_for_events_aborts() {
    let mut task = Task::start();
    task.on(ReadEvent::Read(1));
    assert_eq!(task.on(HANDLED), ReadAction::NotifyEvent);
    assert_eq!(task.on(ReadEvent::Notified(TrySend::Closed)), ReadAction::Abort);
    assert_eq!(task.phase, ReadPhase::Aborted);
    assert!(!task.phase.accepts(&TOLD));
}

#[test]
fn room_to_write_is_passed_on() {
    let mut task = Task::start();
    assert_eq!(task.connection.wake_socket_waker_by_ref(), TrySend::Sent);
    assert!(task.wake_ups.try_recv().is_ok());
    assert_eq!(task.on(ReadEvent::WriteAvail), ReadAction::CallWriteBufferSpaceAvail);
    assert_eq!(task.connection.wake_socket_waker_by_ref(), TrySend::Sent);
    assert_eq!(task.on(ReadEvent::SpaceHandled { ok: true }), ReadAction::Wait);
    assert_eq!(task.phase, ReadPhase::Idle);
}

#[test]
fn paused_data_waits_to_be_resumed() {
    let mut task = Task::start();
    task.on(ReadEvent::Read(5));
    assert_eq!(task.on(HANDLED_PAUSE), ReadAction::NotifyEvent);
    assert!(task.connection.read_paused);
    assert_eq!(task.on(TOLD), ReadAction::Wait);
    assert_eq!(task.on(ReadEvent::Read(9)), ReadAction::WaitBlocked);
    assert_eq!(task.phase, ReadPhase::Blocked { len: 9 });
    let mut blocker = task.blocker.take().unwrap();
    assert_eq!(blocker.try_recv(), Err(oneshot::error::TryRecvError::Empty));
    assert_eq!(task.connection.start_send(2, true), SendStep::Write { from: 0 });
    assert_eq!(blocker.try_recv(), Ok(()));
    assert_eq!(task.on(ReadEvent::Unblocked), ReadAction::CallReadEvent { len: 9 });
    assert!(!task.connection.read_paused);
    task.on(HANDLED);
    task.on(TOLD);
    assert_eq!(task.on(ReadEvent::Read(3)), ReadAction::CallReadEvent { len: 3 });
}

#[test]
fn an_unpaused_answer_keeps_a_pause() {
    let mut task = Task::start();
    task.on(ReadEvent::Read(5));
    task.connection.read_paused = true;
    assert_eq!(task.on(HANDLED), ReadAction::NotifyEvent);
    assert!(task.connection.read_paused);
}

#[test]
fn paused_data_is_handed_over_after_room_to_write() {
    let mut task = Task::start();
    task.connection.read_paused = true;
    assert_eq!(task.on(ReadEvent::Read(9)), ReadAction::WaitBlocked);
    assert_eq!(task.on(ReadEvent::WriteAvail), ReadAction::CallWriteBufferSpaceAvail);
    assert_eq!(task.phase, ReadPhase::Flushing { pending: Some(9) });
    assert_eq!(
        task.on(ReadEvent::SpaceHandled { ok: true }),
        ReadAction::CallReadEvent { len: 9 }
    );
    assert!(task.connection.read_paused);
    assert!(task.connection.read_blocker.is_some());
}

#[test]
fn a_second_wait_takes_the_place_of_the_first() {
    let mut task = Task::start();
    task.connection.read_paused = true;
    task.on(ReadEvent::Read(9));
    let mut first = task.blocker.take().unwrap();
    task.on(ReadEvent::WriteAvail);
    task.on(ReadEvent::SpaceHandled { ok: true });
    task.on(HANDLED);
    task.on(TOLD);
    assert_eq!(task.on(ReadEvent::Read(4)), ReadAction::WaitBlocked);
    let mut second = task.blocker.take().unwrap();
    assert_eq!(first.try_recv(), Err(oneshot::error::TryRecvError::Closed));
    task.connection.start_send(0, true);
    assert_eq!(second.try_recv(), Ok(()));
}

#[test]
fn a_peer_that_closes_is_reported() {
    let mut task = Task::start();
    assert_eq!(task.on(ReadEvent::Read(0)), ReadAction::ShutdownWriter(7));
    assert_eq!(task.closing, Some(CloseReason::SocketClosed));
    assert_eq!(task.connection.writer, None);
    assert_eq!(task.on(ReadEvent::WriterShutDown), ReadAction::CallSocketDisconnected);
    assert_eq!(task.on(ReadEvent::Reported), ReadAction::NotifyEvent);
    assert_eq!(task.phase, ReadPhase::Notifying { then: AfterNotice::Finish });
    assert_eq!(task.on(ReadEvent::Notified(TrySend::Full)), ReadAction::Finish);
    assert_eq!(task.phase, ReadPhase::Finished);
    assert_eq!(task.connection.start_send(5, true), SendStep::Done { written: 0 });
}

#[test]
fn a_socket_that_fails_is_reported() {
    let mut task = Task::start();
    assert_eq!(task.on(ReadEvent::ReadFailed), ReadAction::ShutdownWriter(7));
    assert_eq!(task.closing, Some(CloseReason::SocketFailed));
    assert_eq!(task.on(ReadEvent::WriterShutDown), ReadAction::CallSocketDisconnected);
    assert_eq!(task.on(ReadEvent::Reported), ReadAction::NotifyEvent);
    assert_eq!(task.on(ReadEvent::Notified(TrySend::Closed)), ReadAction::Abort);
}

#[test]
fn a_socket_without_writer_is_not_shut_down_again() {
    let mut task = Task::start();
    task.connection.writer = None;
    assert_eq!(task.on(ReadEvent::Read(0)), ReadAction::CallSocketDisconnected);
    assert_eq!(task.closing, Some(CloseReason::SocketClosed));
    assert_eq!(task.phase, ReadPhase::Reporting);
}

#[test]
fn a_disconnect_stops_the_waiting_reader() {
    let mut task = Task::start();
    task.connection.disconnect_socket();
    assert!(task.wake_ups.try_recv().is_ok());
    assert_eq!(task.on(ReadEvent::WriteAvail), ReadAction::ShutdownWriter(7));
    assert_eq!(task.closing, Some(CloseReason::DisconnectRequested));
    assert_eq!(task.on(ReadEvent::WriterShutDown), ReadAction::Finish);
    assert_eq!(task.phase, ReadPhase::Finished);
}

#[test]
fn a_disconnect_stops_the_reader_with_data() {
    let mut task = Task::start();
    task.connection.disconnect_socket();
    assert_eq!(task.on(ReadEvent::Read(12)), ReadAction::ShutdownWriter(7));
    assert_eq!(task.closing, Some(CloseReason::DisconnectRequested));
    assert_eq!(task.on(ReadEvent::WriterShutDown), ReadAction::Finish);
}

#[test]
fn a_disconnect_stops_the_blocked_reader() {
    for event in vec![ReadEvent::WriteAvail, ReadEvent::Unblocked] {
        let mut task = Task::start();
        task.connection.read_paused = true;
        assert_eq!(task.on(ReadEvent::Read(12)), ReadAction::WaitBlocked);
        task.connection.disconnect_socket();
        assert_eq!(task.on(event), ReadAction::ShutdownWriter(7));
        assert_eq!(task.closing, Some(CloseReason::DisconnectRequested));
        assert_eq!(task.on(ReadEvent::WriterShutDown), ReadAction::Finish);
    }
}

#[test]
fn a_disconnect_while_shutting_down_is_not_reported() {
    let mut task = Task::start();
    assert_eq!(task.on(ReadEvent::Read(0)), ReadAction::ShutdownWriter(7));
    task.connection.disconnect_socket();
    assert_eq!(task.on(ReadEvent::WriterShutDown), ReadAction::Finish);
}

#[test]
fn held_back_data_passes_a_late_disconnect() {
    let mut task = Task::start();
    task.connection.read_paused = true;
    task.on(ReadEvent::Read(9));
    assert_eq!(task.on(ReadEvent::WriteAvail), ReadAction::CallWriteBufferSpaceAvail);
    task.connection.disconnect_socket();
    assert_eq!(
        task.on(ReadEvent::SpaceHandled { ok: true }),
        ReadAction::CallReadEvent { len: 9 }
    );
    assert_eq!(task.on(HANDLED), ReadAction::NotifyEvent);
    assert_eq!(task.on(TOLD), ReadAction::Wait);
    assert!(task.wake_ups.try_recv().is_ok());
    assert_eq!(task.on(ReadEvent::WriteAvail), ReadAction::ShutdownWriter(7));
    assert_eq!(task.on(ReadEvent::WriterShutDown), ReadAction::Finish);
}

#[test]
fn an_error_on_data_is_told_to_the_user_but_not_reported_back() {
    let mut task = Task::start();
    task.on(ReadEvent::Read(5));
    assert_eq!(task.on(READ_ERROR), ReadAction::NotifyEvent);
    assert_eq!(task.closing, None);
    assert_eq!(task.phase, ReadPhase::Notifying { then: AfterNotice::GiveUp });
    assert!(!task.connection.need_disconnect_event);
    assert!(!task.connection.disconnect);
    assert_eq!(task.connection.writer, Some(7));
    let told = task.connection.notify_event();
    assert_eq!(told, TrySend::Sent);
    assert!(task.events.try_recv().is_ok());
    assert_eq!(task.on(ReadEvent::Notified(told)), ReadAction::ShutdownWriter(7));
    assert_eq!(task.closing, Some(CloseReason::PeerManagerError));
    assert_eq!(task.on(ReadEvent::WriterShutDown), ReadAction::Finish);
}

#[test]
fn an_error_with_a_full_queue_of_events_closes() {
    let mut task = Task::start();
    task.on(ReadEvent::Read(5));
    assert_eq!(task.on(READ_ERROR), ReadAction::NotifyEvent);
    assert_eq!(task.on(ReadEvent::Notified(TrySend::Full)), ReadAction::ShutdownWriter(7));
    assert_eq!(task.on(ReadEvent::WriterShutDown), ReadAction::Finish);
}

#[test]
fn an_error_with_nobody_listening_for_events_closes() {
    let mut task = Task::start();
    task.on(ReadEvent::Read(5));
    assert_eq!(task.on(READ_ERROR), ReadAction::NotifyEvent);
    assert_eq!(task.on(ReadEvent::Notified(TrySend::Closed)), ReadAction::ShutdownWriter(7));
    assert_eq!(task.closing, Some(CloseReason::PeerManagerError));
    assert_eq!(task.connection.writer, None);
    assert_eq!(task.on(ReadEvent::WriterShutDown), ReadAction::Finish);
    assert_eq!(task.phase, ReadPhase::Finished);
}

#[test]
fn an_error_on_room_to_write_is_told_to_the_user_but_not_reported_back() {
    let mut task = Task::start();
    task.on(ReadEvent::WriteAvail);
    assert_eq!(task.on(ReadEvent::SpaceHandled { ok: false }), ReadAction::NotifyEvent);
    assert!(!task.connection.need_disconnect_event);
    assert_eq!(task.on(TOLD), ReadAction::ShutdownWriter(7));
    assert_eq!(task.closing, Some(CloseReason::PeerManagerError));
    assert_eq!(task.on(ReadEvent::WriterShutDown), ReadAction::Finish);

    let mut task = Task::start();
    task.connection.read_paused = true;
    task.on(ReadEvent::Read(9));
    task.on(ReadEvent::WriteAvail);
    assert_eq!(task.on(ReadEvent::SpaceHandled { ok: false }), ReadAction::NotifyEvent);
    assert_eq!(task.on(TOLD), ReadAction::ShutdownWriter(7));
    assert_eq!(task.on(ReadEvent::WriterShutDown), ReadAction::Finish);
}

#[test]
fn held_back_bytes_are_handed_over_unchanged() {
    let (event_notify, _events) = mpsc::channel(2);
    let (mut connection, _wake_ups) =
        Connection::new(&mut ConnectionIds::new(), event_notify, 7u8);
    let mut task = ReadTask::new();
    assert_eq!(task.phase, ReadPhase::Idle);
    assert_eq!(task.data(3), &[0, 0, 0]);
    connection.read_paused = true;
    task.buf[..4].copy_from_slice(&[4, 3, 2, 1]);
    let step = task.step(&mut connection, ReadEvent::Read(4));
    assert_eq!(step.action, ReadAction::WaitBlocked);
    connection.start_send(0, true);
    let step = task.step(&mut connection, ReadEvent::Unblocked);
    assert_eq!(step.action, ReadAction::CallReadEvent { len: 4 });
    assert_eq!(task.data(4), &[4, 3, 2, 1]);
    assert_eq!(task.data(0), &[0u8; 0]);
    assert_eq!(task.data(READ_BUFFER_LEN).len(), 8192);
}

#[test]
fn events_come_where_they_can() {
    let phase = ReadPhase::start();
    assert!(phase.accepts(&ReadEvent::Read(0)));
    assert!(phase.accepts(&ReadEvent::Read(8192)));
    assert!(!phase.accepts(&ReadEvent::Read(8193)));
    assert!(phase.accepts(&ReadEvent::ReadFailed));
    assert!(phase.accepts(&ReadEvent::WriteAvail));
    assert!(!phase.accepts(&ReadEvent::Unblocked));
    assert!(!phase.accepts(&HANDLED));
    assert!(ReadPhase::Blocked { len: 1 }.accepts(&ReadEvent::Unblocked));
    assert!(!ReadPhase::Blocked { len: 1 }.accepts(&ReadEvent::Read(1)));
    assert!(!ReadPhase::Finished.accepts(&ReadEvent::WriteAvail));
}
