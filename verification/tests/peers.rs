//! Two peer managers talk to each other over a pair of wires that are kept in memory.
use lightning::ln::features::InitFeatures;
use lightning::ln::msgs::{
    AcceptChannel, AnnouncementSignatures, ChannelAnnouncement, ChannelMessageHandler,
    ChannelReestablish, ChannelUpdate, ClosingSigned, CommitmentSigned, ErrorAction, ErrorMessage,
    FundingCreated, FundingLocked, FundingSigned, HTLCFailChannelUpdate, Init, LightningError,
    NodeAnnouncement, OpenChannel, RevokeAndACK, RoutingMessageHandler, Shutdown, UpdateAddHTLC,
    UpdateFailHTLC, UpdateFailMalformedHTLC, UpdateFee, UpdateFulfillHTLC,
};
use lightning::ln::peer_handler;
use lightning::ln::peer_handler::{MessageHandler, PeerManager};
use lightning::util::events::{MessageSendEvent, MessageSendEventsProvider};
use lightning_net_tokio::connection::{Connection, ConnectionIds};
use lightning_net_tokio::descriptor;
use lightning_net_tokio::reading::{ReadAction, ReadEvent, ReadPhase, ReadTask, READ_BUFFER_LEN};
use lightning_net_tokio::sending::{SendStep, WriteOutcome};
use lightning_net_tokio::setup::{initial_send_ended, setup_inbound, setup_outbound, SetupStep};
use secp256k1::{PublicKey, Secp256k1, SecretKey};
use std::sync::{Arc, Mutex};
use tokio::sync::{mpsc, oneshot};

struct TestLogger();
impl lightning::util::logger::Logger for TestLogger {
    fn log(&self, record: &lightning::util::logger::Record) {
        println!("{:<5} [{}, {}] {}", record.level.to_string(), record.file, record.line, record.args);
    }
}

struct MsgHandler {
    disconnect_keys: Mutex<Vec<PublicKey>>,
    connected_peers: Mutex<Vec<PublicKey>>,
}

impl MsgHandler {
    fn new() -> Arc<MsgHandler> {
        Arc::new(MsgHandler {
            disconnect_keys: Mutex::new(Vec::new()),
            connected_peers: Mutex::new(Vec::new()),
        })
    }

    fn knows(&self, key: &PublicKey) -> bool {
        self.connected_peers.lock().unwrap().contains(key)
    }
}

impl RoutingMessageHandler for MsgHandler {
    fn handle_node_announcement(&self, _: &NodeAnnouncement) -> Result<bool, LightningError> {
        Ok(false)
    }
    fn handle_channel_announcement(&self, _: &ChannelAnnouncement) -> Result<bool, LightningError> {
        Ok(false)
    }
    fn handle_channel_update(&self, _: &ChannelUpdate) -> Result<bool, LightningError> {
        Ok(false)
    }
    fn handle_htlc_fail_channel_update(&self, _: &HTLCFailChannelUpdate) {}
    fn get_next_channel_announcements(
        &self,
        _: u64,
        _: u8,
    ) -> Vec<(ChannelAnnouncement, Option<ChannelUpdate>, Option<ChannelUpdate>)> {
        Vec::new()
    }
    fn get_next_node_announcements(&self, _: Option<&PublicKey>, _: u8) -> Vec<NodeAnnouncement> {
        Vec::new()
    }
    fn should_request_full_sync(&self, _: &PublicKey) -> bool {
        false
    }
}

impl ChannelMessageHandler for MsgHandler {
    fn handle_open_channel(&self, _: &PublicKey, _: InitFeatures, _: &OpenChannel) {}
    fn handle_accept_channel(&self, _: &PublicKey, _: InitFeatures, _: &AcceptChannel) {}
    fn handle_funding_created(&self, _: &PublicKey, _: &FundingCreated) {}
    fn handle_funding_signed(&self, _: &PublicKey, _: &FundingSigned) {}
    fn handle_funding_locked(&self, _: &PublicKey, _: &FundingLocked) {}
    fn handle_shutdown(&self, _: &PublicKey, _: &Shutdown) {}
    fn handle_closing_signed(&self, _: &PublicKey, _: &ClosingSigned) {}
    fn handle_update_add_htlc(&self, _: &PublicKey, _: &UpdateAddHTLC) {}
    fn handle_update_fulfill_htlc(&self, _: &PublicKey, _: &UpdateFulfillHTLC) {}
    fn handle_update_fail_htlc(&self, _: &PublicKey, _: &UpdateFailHTLC) {}
    fn handle_update_fail_malformed_htlc(&self, _: &PublicKey, _: &UpdateFailMalformedHTLC) {}
    fn handle_commitment_signed(&self, _: &PublicKey, _: &CommitmentSigned) {}
    fn handle_revoke_and_ack(&self, _: &PublicKey, _: &RevokeAndACK) {}
    fn handle_update_fee(&self, _: &PublicKey, _: &UpdateFee) {}
    fn handle_announcement_signatures(&self, _: &PublicKey, _: &AnnouncementSignatures) {}
    fn peer_disconnected(&self, their_node_id: &PublicKey, _no_connection_possible: bool) {
        self.connected_peers.lock().unwrap().retain(|key| key != their_node_id);
    }
    fn peer_connected(&self, their_node_id: &PublicKey, _msg: &Init) {
        self.connected_peers.lock().unwrap().push(their_node_id.clone());
    }
    fn handle_channel_reestablish(&self, _: &PublicKey, _: &ChannelReestablish) {}
    fn handle_error(&self, _: &PublicKey, _: &ErrorMessage) {}
}

impl MessageSendEventsProvider for MsgHandler {
    fn get_and_clear_pending_msg_events(&self) -> Vec<MessageSendEvent> {
        self.disconnect_keys
            .lock()
            .unwrap()
            .drain(..)
            .map(|node_id| MessageSendEvent::HandleError {
                node_id,
                action: ErrorAction::DisconnectPeer { msg: None },
            })
            .collect()
    }
}

/// What one side has written and the other has not read yet.
struct Wire {
    bytes: Vec<u8>,
    /// How much a single write takes.
    per_write: usize,
    /// How much there is room for.
    room: usize,
    closed: bool,
    waiting: Option<SharedConnection>,
}

type SharedWire = Arc<Mutex<Wire>>;
type SharedConnection = Arc<Mutex<Connection<SharedWire>>>;

fn wire(per_write: usize, room: usize) -> SharedWire {
    Arc::new(Mutex::new(Wire { bytes: Vec::new(), per_write, room, closed: false, waiting: None }))
}

#[derive(Clone, PartialEq, Eq, Hash)]
struct Descriptor(descriptor::SocketDescriptor<SharedConnection>);

impl Descriptor {
    fn new(conn: &SharedConnection) -> Descriptor {
        let us = conn.lock().unwrap();
        Descriptor(descriptor::SocketDescriptor::new(Arc::clone(conn), &us))
    }
}

impl peer_handler::SocketDescriptor for Descriptor {
    fn send_data(&mut self, data: &[u8], resume_read: bool) -> usize {
        let mut us = self.0.conn.lock().unwrap();
        let mut step = us.start_send(data.len(), resume_read);
        loop {
            match step {
                SendStep::Done { written } => return written,
                SendStep::Write { from } => {
                    let wire = Arc::clone(us.writer.as_ref().unwrap());
                    let mut wire = wire.lock().unwrap();
                    let free = wire.room - wire.bytes.len();
                    let n = wire.per_write.min(free).min(data.len() - from);
                    let outcome = if n == 0 {
                        wire.waiting = Some(Arc::clone(&self.0.conn));
                        WriteOutcome::Pending
                    } else {
                        wire.bytes.extend_from_slice(&data[from..from + n]);
                        WriteOutcome::Wrote(n)
                    };
                    assert!(outcome.is_possible(data.len() - from));
                    step = us.continue_send(data.len(), from, outcome);
                }
            }
        }
    }

    fn disconnect_socket(&mut self) {
        self.0.conn.lock().unwrap().disconnect_socket();
    }
}

type Manager = PeerManager<Descriptor, Arc<MsgHandler>>;

/// One side of the conversation.
struct Side {
    manager: Manager,
    conn: SharedConnection,
    incoming: SharedWire,
    wake_ups: mpsc::Receiver<()>,
    task: ReadTask,
    action: Option<ReadAction<SharedWire>>,
    blocker: Option<oneshot::Receiver<()>>,
}

impl Side {
    fn new(
        ids: &mut ConnectionIds,
        manager: Manager,
        event_notify: mpsc::Sender<()>,
        outgoing: &SharedWire,
        incoming: &SharedWire,
    ) -> Side {
        let (connection, wake_ups) = Connection::new(ids, event_notify, Arc::clone(outgoing));
        Side {
            manager,
            conn: Arc::new(Mutex::new(connection)),
            incoming: Arc::clone(incoming),
            wake_ups,
            task: ReadTask::new(),
            action: Some(ReadAction::Wait),
            blocker: None,
        }
    }

    fn read(&mut self) -> Option<ReadEvent> {
        let waiting;
        let len;
        {
            let mut wire = self.incoming.lock().unwrap();
            if wire.bytes.is_empty() && !wire.closed {
                return None;
            }
            len = wire.bytes.len().min(READ_BUFFER_LEN);
            self.task.buf[..len].copy_from_slice(&wire.bytes[..len]);
            wire.bytes.drain(..len);
            waiting = wire.waiting.take();
        }
        if let Some(conn) = waiting {
            conn.lock().unwrap().wake_socket_waker_by_ref();
        }
        Some(ReadEvent::Read(len))
    }

    /// Goes on for as long as there is something to do, and tells whether there was.
    fn run(&mut self) -> bool {
        let mut busy = false;
        loop {
            let event = match self.action.take().unwrap() {
                ReadAction::Wait => {
                    self.action = Some(ReadAction::Wait);
                    if self.wake_ups.try_recv().is_ok() {
                        ReadEvent::WriteAvail
                    } else if let Some(event) = self.read() {
                        event
                    } else {
                        return busy;
                    }
                }
                ReadAction::WaitBlocked => {
                    self.action = Some(ReadAction::WaitBlocked);
                    if self.wake_ups.try_recv().is_ok() {
                        ReadEvent::WriteAvail
                    } else if self.blocker.as_mut().unwrap().try_recv().is_ok() {
                        ReadEvent::Unblocked
                    } else {
                        return busy;
                    }
                }
                ReadAction::CallWriteBufferSpaceAvail => {
                    let mut descriptor = Descriptor::new(&self.conn);
                    let ok = self.manager.write_buffer_space_avail(&mut descriptor).is_ok();
                    ReadEvent::SpaceHandled { ok }
                }
                ReadAction::CallReadEvent { len } => {
                    let mut descriptor = Descriptor::new(&self.conn);
                    let res = self.manager.read_event(&mut descriptor, self.task.data(len));
                    ReadEvent::ReadHandled { pause_read: res.ok() }
                }
                ReadAction::NotifyEvent => {
                    ReadEvent::Notified(self.conn.lock().unwrap().notify_event())
                }
                ReadAction::ShutdownWriter(writer) => {
                    writer.lock().unwrap().closed = true;
                    ReadEvent::WriterShutDown
                }
                ReadAction::CallSocketDisconnected => {
                    self.manager.socket_disconnected(&Descriptor::new(&self.conn));
                    ReadEvent::Reported
                }
                ReadAction::Finish => {
                    self.action = Some(ReadAction::Finish);
                    return busy;
                }
                ReadAction::Abort => panic!("nobody listens for events"),
            };
            busy = true;
            assert!(self.task.phase.accepts(&event));
            let step = self.task.step(&mut self.conn.lock().unwrap(), event);
            self.action = Some(step.action);
            self.blocker = step.blocker;
        }
    }
}

fn converse(per_write: usize, room: usize) {
    let a_handler = MsgHandler::new();
    let a_key = SecretKey::from_slice(&[1; 32]).unwrap();
    let a_manager = PeerManager::new(
        MessageHandler {
            chan_handler: Arc::clone(&a_handler),
            route_handler: Arc::clone(&a_handler) as Arc<dyn RoutingMessageHandler>,
        },
        a_key.clone(),
        &[1; 32],
        Arc::new(TestLogger()),
    );

    let b_key = SecretKey::from_slice(&[1; 32]).unwrap();
    let b_handler = MsgHandler::new();
    let b_manager = PeerManager::new(
        MessageHandler {
            chan_handler: Arc::clone(&b_handler),
            route_handler: Arc::clone(&b_handler) as Arc<dyn RoutingMessageHandler>,
        },
        b_key.clone(),
        &[2; 32],
        Arc::new(TestLogger()),
    );

    let secp_ctx = Secp256k1::new();
    let a_pub = PublicKey::from_secret_key(&secp_ctx, &a_key);
    let b_pub = PublicKey::from_secret_key(&secp_ctx, &b_key);
    let (sender, mut receiver) = mpsc::channel(2);
    let (to_b, to_a) = (wire(per_write, room), wire(per_write, room));
    let mut ids = ConnectionIds::new();
    let mut a = Side::new(&mut ids, a_manager, sender.clone(), &to_b, &to_a);
    let mut b = Side::new(&mut ids, b_manager, sender, &to_a, &to_b);

    let opening = a.manager.new_outbound_connection(b_pub, Descriptor::new(&a.conn));
    assert_eq!(setup_outbound(opening.is_ok()), SetupStep::SendInitial { resume_read: true });
    let opening = opening.unwrap();
    let mut descriptor = Descriptor::new(&a.conn);
    let written = peer_handler::SocketDescriptor::send_data(&mut descriptor, &opening, true);
    assert_eq!(initial_send_ended(opening.len(), written), SetupStep::StartReading);
    let answer = b.manager.new_inbound_connection(Descriptor::new(&b.conn));
    assert_eq!(setup_inbound(answer.is_ok()), SetupStep::StartReading);

    while a.run() | b.run() {}
    assert!(b_handler.knows(&a_pub));
    assert!(a_handler.knows(&b_pub));
    assert!(receiver.try_recv().is_ok());

    a_handler.disconnect_keys.lock().unwrap().push(b_pub);
    a.manager.process_events();
    while a.run() | b.run() {}
    assert!(!b_handler.knows(&a_pub));
    assert!(!a_handler.knows(&b_pub));

    assert_eq!(a.task.phase, ReadPhase::Finished);
    assert_eq!(b.task.phase, ReadPhase::Finished);
}

#[test]
fn basic_connection_test() {
    converse(1_000_000, 1_000_000);
}

#[test]
fn basic_connection_over_narrow_wires() {
    converse(7, 50);
}

fn hear_nonsense(listening: bool) {
    let handler = MsgHandler::new();
    let manager = PeerManager::new(
        MessageHandler {
            chan_handler: Arc::clone(&handler),
            route_handler: Arc::clone(&handler) as Arc<dyn RoutingMessageHandler>,
        },
        SecretKey::from_slice(&[1; 32]).unwrap(),
        &[2; 32],
        Arc::new(TestLogger()),
    );
    let (sender, receiver) = mpsc::channel(2);
    let mut receiver = if listening { Some(receiver) } else { None };
    let (outgoing, incoming) = (wire(1_000, 1_000), wire(1_000, 1_000));
    let mut side = Side::new(&mut ConnectionIds::new(), manager, sender, &outgoing, &incoming);
    let answer = side.manager.new_inbound_connection(Descriptor::new(&side.conn));
    assert_eq!(setup_inbound(answer.is_ok()), SetupStep::StartReading);

    incoming.lock().unwrap().bytes.extend_from_slice(&[9; 50]);
    assert!(side.run());
    assert_eq!(side.task.phase, ReadPhase::Finished);
    assert!(!side.conn.lock().unwrap().need_disconnect_event);
    assert!(side.conn.lock().unwrap().writer.is_none());
    assert!(outgoing.lock().unwrap().closed);
    if let Some(receiver) = receiver.as_mut() {
        assert!(receiver.try_recv().is_ok());
        assert!(receiver.try_recv().is_err());
    }
}

#[test]
fn a_peer_that_talks_nonsense_is_dropped_and_the_user_told() {
    hear_nonsense(true);
}

#[test]
fn a_peer_that_talks_nonsense_is_dropped_with_nobody_listening() {
    hear_nonsense(false);
}
