//! The task that reads the socket of a connection, as a machine that is fed with what happened
//! and says what to do next.
//!
//! The caller waits, reads, and calls the peer manager, each time as it is told, and reports back
//! how that ended. Between two steps the lock on the connection is free, so that sends and
//! disconnects take place whenever the task waits or is inside the peer manager.
use crate::channels;
use crate::channels::oneshot_channel;
use crate::channels::TrySend;
use crate::connection::Connection;
use crate::connection::ConnectionView;
use tokio::sync::oneshot;
use vstd::prelude::*;

verus! {

/// How many bytes are read at a time: nice and big, but never so big as to cause trouble with the
/// stack.
pub const READ_BUFFER_LEN: usize = 8192;

/// What comes once the user has been told that there may be events.
#[derive(Clone, Copy, Debug, PartialEq, Eq, Structural)]
pub enum AfterNotice {
    /// Reading goes on.
    ReadOn,
    /// The connection is closed, as the peer manager gave up on the peer.
    GiveUp,
    /// Nothing.
    Finish,
}

/// Where the reading task stands.
#[derive(Clone, Copy, Debug, PartialEq, Eq)]
pub enum ReadPhase {
    /// Waiting for data from the socket, or for a wake-up.
    Idle,
    /// So many bytes have been read, and wait for reading to be resumed, or for a wake-up.
    Blocked {
        /// How many bytes have been read.
        len: usize,
    },
    /// The peer manager is being told that there is room to write.
    Flushing {
        /// How many bytes have been read and wait for that to end, if any.
        pending: Option<usize>,
    },
    /// The peer manager is being handed what was read.
    Delivering,
    /// The user is being told that there may be events.
    Notifying {
        /// What comes next.
        then: AfterNotice,
    },
    /// The socket is being shut down.
    Closing,
    /// The peer manager is being told that the socket is closed.
    Reporting,
    /// There is nothing more to do.
    Finished,
    /// The user has stopped listening for events, which must not happen while the peer manager
    /// has not given up on the peer.
    Aborted,
}

/// What happened.
#[derive(Clone, Copy, Debug, PartialEq, Eq)]
pub enum ReadEvent {
    /// A wake-up came in.
    WriteAvail,
    /// So many bytes were read. None means that the peer closed the connection.
    Read(usize),
    /// Reading from the socket failed.
    ReadFailed,
    /// Reading was resumed.
    Unblocked,
    /// The peer manager took notice of the room to write, unless it failed.
    SpaceHandled {
        /// Whether it took notice without an error.
        ok: bool,
    },
    /// The peer manager handled what was read, unless it failed.
    ReadHandled {
        /// Whether it wants reading to be paused, or nothing if it failed.
        pause_read: Option<bool>,
    },
    /// The attempt to tell the user of events ended like this.
    Notified(TrySend),
    /// The socket was shut down, or was closed already.
    WriterShutDown,
    /// The peer manager knows that the socket is closed.
    Reported,
}

/// What the reading task has to do next.
#[derive(Debug, PartialEq, Eq)]
pub enum ReadAction<W> {
    /// Wait for data from the socket or for a wake-up, whichever comes first.
    Wait,
    /// Wait for reading to be resumed or for a wake-up, whichever comes first.
    WaitBlocked,
    /// Tell the peer manager that there is room to write.
    CallWriteBufferSpaceAvail,
    /// Hand the peer manager so many bytes of what was read.
    CallReadEvent {
        /// How many bytes.
        len: usize,
    },
    /// Tell the user that there may be events.
    NotifyEvent,
    /// Shut the socket down.
    ShutdownWriter(W),
    /// Tell the peer manager that the socket is closed.
    CallSocketDisconnected,
    /// Nothing more.
    Finish,
    /// Panic: the user must not stop listening for events.
    Abort,
}

/// Why the reading task stops reading.
#[derive(Clone, Copy, Debug, PartialEq, Eq)]
pub enum CloseReason {
    /// The peer manager asked for the socket to be disconnected.
    DisconnectRequested,
    /// The peer manager gave up on the peer with an error.
    PeerManagerError,
    /// The peer closed the connection.
    SocketClosed,
    /// Reading from the socket failed.
    SocketFailed,
}

/// One step of the reading task.
pub struct ReadStep<W> {
    /// What to do.
    pub action: ReadAction<W>,
    /// Why the task stops reading, if this is where it stops.
    pub closing: Option<CloseReason>,
    /// What to wait for, if the action is to wait for reading to be resumed.
    pub blocker: Option<oneshot::Receiver<()>>,
}

/// What the reading task decides: where it then stands, how it leaves the connection, what it
/// does next, and why it stops reading if it does.
pub struct ReadDecision<W> {
    pub phase: ReadPhase,
    pub conn: ConnectionView<W>,
    pub action: ReadAction<W>,
    pub closing: Option<CloseReason>,
}

impl<W> ReadDecision<W> {
    /// Goes on.
    pub open spec fn proceed(
        phase: ReadPhase,
        conn: ConnectionView<W>,
        action: ReadAction<W>,
    ) -> Self {
        ReadDecision { phase, conn, action, closing: None }
    }

    /// What comes once the socket is shut down: the peer manager is told of it, unless it does
    /// not have to be.
    pub open spec fn shut_down(conn: ConnectionView<W>) -> Self {
        if conn.need_disconnect_event {
            Self::proceed(ReadPhase::Reporting, conn, ReadAction::CallSocketDisconnected)
        } else {
            Self::proceed(ReadPhase::Finished, conn, ReadAction::Finish)
        }
    }

    /// Stops reading: the socket is shut down if it still is there.
    pub open spec fn close(conn: ConnectionView<W>, reason: CloseReason) -> Self {
        let end = match conn.writer {
            Some(writer) => Self::proceed(
                ReadPhase::Closing,
                ConnectionView { writer: None, ..conn },
                ReadAction::ShutdownWriter(writer),
            ),
            None => Self::shut_down(conn),
        };
        ReadDecision { closing: Some(reason), ..end }
    }

    /// Tells the user that there may be events.
    pub open spec fn notify(conn: ConnectionView<W>, then: AfterNotice) -> Self {
        Self::proceed(ReadPhase::Notifying { then }, conn, ReadAction::NotifyEvent)
    }

    /// Stops reading because the peer manager gave up on the peer. It knows that, and is not
    /// told of the closing; but the user is told first, as giving up may result in events. The
    /// connection is then closed even if the user has stopped listening.
    pub open spec fn give_up(conn: ConnectionView<W>) -> Self {
        Self::notify(
            ConnectionView { need_disconnect_event: false, ..conn },
            AfterNotice::GiveUp,
        )
    }

    /// Does as `otherwise` says, unless the peer manager asked for the socket to be disconnected.
    pub open spec fn unless_disconnected(conn: ConnectionView<W>, otherwise: Self) -> Self {
        if conn.disconnect {
            Self::close(conn, CloseReason::DisconnectRequested)
        } else {
            otherwise
        }
    }

    /// Hands what was read to the peer manager.
    pub open spec fn deliver(conn: ConnectionView<W>, len: usize) -> Self {
        Self::proceed(ReadPhase::Delivering, conn, ReadAction::CallReadEvent { len })
    }

    /// Tells the peer manager that there is room to write.
    pub open spec fn flush(conn: ConnectionView<W>, pending: Option<usize>) -> Self {
        Self::proceed(
            ReadPhase::Flushing { pending },
            conn,
            ReadAction::CallWriteBufferSpaceAvail,
        )
    }

    /// What the reading task decides where it stands at `phase` and `event` happened. `blocker`
    /// is where a send finds the task if it has to wait for reading to be resumed.
    pub open spec fn of(
        phase: ReadPhase,
        conn: ConnectionView<W>,
        event: ReadEvent,
        blocker: Option<oneshot::Sender<()>>,
    ) -> Self {
        match (phase, event) {
            (ReadPhase::Idle, ReadEvent::WriteAvail) => Self::unless_disconnected(
                conn,
                Self::flush(conn, None),
            ),
            (ReadPhase::Idle, ReadEvent::ReadFailed) => Self::close(
                conn,
                CloseReason::SocketFailed,
            ),
            (ReadPhase::Idle, ReadEvent::Read(len)) => if len == 0 {
                Self::close(conn, CloseReason::SocketClosed)
            } else if conn.read_paused {
                Self::unless_disconnected(
                    conn,
                    Self::proceed(
                        ReadPhase::Blocked { len },
                        ConnectionView { read_blocker: blocker, ..conn },
                        ReadAction::WaitBlocked,
                    ),
                )
            } else {
                Self::unless_disconnected(conn, Self::deliver(conn, len))
            },
            (ReadPhase::Blocked { len }, ReadEvent::Unblocked) => Self::unless_disconnected(
                conn,
                Self::deliver(conn, len),
            ),
            (ReadPhase::Blocked { len }, ReadEvent::WriteAvail) => Self::unless_disconnected(
                conn,
                Self::flush(conn, Some(len)),
            ),
            (ReadPhase::Flushing { pending }, ReadEvent::SpaceHandled { ok }) => if !ok {
                Self::give_up(conn)
            } else {
                match pending {
                    Some(len) => Self::deliver(conn, len),
                    None => Self::proceed(ReadPhase::Idle, conn, ReadAction::Wait),
                }
            },
            (ReadPhase::Delivering, ReadEvent::ReadHandled { pause_read }) => match pause_read {
                Some(pause) => Self::notify(
                    ConnectionView { read_paused: conn.read_paused || pause, ..conn },
                    AfterNotice::ReadOn,
                ),
                None => Self::give_up(conn),
            },
            (ReadPhase::Closing, ReadEvent::WriterShutDown) => Self::shut_down(conn),
            (ReadPhase::Reporting, ReadEvent::Reported) => Self::notify(
                conn,
                AfterNotice::Finish,
            ),
            (ReadPhase::Notifying { then }, ReadEvent::Notified(outcome)) => if then
                == AfterNotice::GiveUp {
                Self::close(conn, CloseReason::PeerManagerError)
            } else if outcome == TrySend::Closed {
                Self::proceed(ReadPhase::Aborted, conn, ReadAction::Abort)
            } else if then == AfterNotice::Finish {
                Self::proceed(ReadPhase::Finished, conn, ReadAction::Finish)
            } else {
                Self::proceed(ReadPhase::Idle, conn, ReadAction::Wait)
            },
            _ => arbitrary(),
        }
    }
}

impl ReadPhase {
    /// Whether `event` is something that can happen at this point. No more can be read at a time
    /// than there is room for.
    pub open spec fn awaits(self, event: ReadEvent) -> bool {
        match self {
            ReadPhase::Idle => match event {
                ReadEvent::WriteAvail => true,
                ReadEvent::Read(len) => len <= READ_BUFFER_LEN,
                ReadEvent::ReadFailed => true,
                _ => false,
            },
            ReadPhase::Blocked { .. } => event is WriteAvail || event is Unblocked,
            ReadPhase::Flushing { .. } => event is SpaceHandled,
            ReadPhase::Delivering => event is ReadHandled,
            ReadPhase::Notifying { .. } => event is Notified,
            ReadPhase::Closing => event is WriterShutDown,
            ReadPhase::Reporting => event is Reported,
            ReadPhase::Finished | ReadPhase::Aborted => false,
        }
    }

    /// How much was read but not yet handed to the peer manager, if it still will be unless the
    /// connection is closed.
    pub open spec fn in_hand(self) -> Option<usize> {
        match self {
            ReadPhase::Blocked { len } => Some(len),
            ReadPhase::Flushing { pending } => pending,
            _ => None,
        }
    }

    /// What is held back is something, and fits the buffer.
    pub open spec fn well_formed(self) -> bool {
        self.in_hand() matches Some(len) ==> 0 < len <= READ_BUFFER_LEN
    }

    /// Where the reading task starts: it waits.
    pub fn start() -> (phase: Self)
        ensures
            phase == ReadPhase::Idle,
            phase.well_formed(),
    {
        ReadPhase::Idle
    }

    /// Whether `event` is something that can happen at this point.
    pub fn accepts(&self, event: &ReadEvent) -> (accepted: bool)
        ensures
            accepted == self.awaits(*event),
    {
        match (self, event) {
            (ReadPhase::Idle, ReadEvent::WriteAvail) => true,
            (ReadPhase::Idle, ReadEvent::Read(len)) => *len <= READ_BUFFER_LEN,
            (ReadPhase::Idle, ReadEvent::ReadFailed) => true,
            (ReadPhase::Blocked { .. }, ReadEvent::WriteAvail) => true,
            (ReadPhase::Blocked { .. }, ReadEvent::Unblocked) => true,
            (ReadPhase::Flushing { .. }, ReadEvent::SpaceHandled { .. }) => true,
            (ReadPhase::Delivering, ReadEvent::ReadHandled { .. }) => true,
            (ReadPhase::Notifying { .. }, ReadEvent::Notified(_)) => true,
            (ReadPhase::Closing, ReadEvent::WriterShutDown) => true,
            (ReadPhase::Reporting, ReadEvent::Reported) => true,
            _ => false,
        }
    }

    /// Takes one step: `event` happened.
    ///
    /// If the task has to wait for reading to be resumed, it leaves in the connection what a
    /// send has to signal, and the step holds the other end.
    pub fn step<W>(&mut self, conn: &mut Connection<W>, event: ReadEvent) -> (step: ReadStep<W>)
        requires
            old(self).awaits(event),
        ensures
            step.decided(*old(self), old(conn)@, event, *final(self), final(conn)@),
            old(conn)@.well_formed() ==> final(conn)@.well_formed(),
            old(self).well_formed() ==> final(self).well_formed(),
            old(self).well_formed() ==> (step.action matches ReadAction::CallReadEvent { len } ==> 0
                < len <= READ_BUFFER_LEN),
            final(conn).event_notify == old(conn).event_notify,
            final(conn).write_avail == old(conn).write_avail,
    {
        match event {
            ReadEvent::WriteAvail => {
                if conn.disconnect {
                    return self.close(conn, CloseReason::DisconnectRequested);
                }
                let pending: Option<usize> = match *self {
                    ReadPhase::Blocked { len } => Some(len),
                    _ => None,
                };
                *self = ReadPhase::Flushing { pending };
                ReadStep::only(ReadAction::CallWriteBufferSpaceAvail)
            },
            ReadEvent::Read(len) => {
                if len == 0 {
                    return self.close(conn, CloseReason::SocketClosed);
                }
                if conn.disconnect {
                    return self.close(conn, CloseReason::DisconnectRequested);
                }
                if conn.read_paused {
                    let (sender, blocker) = oneshot_channel();
                    conn.read_blocker = Some(sender);
                    *self = ReadPhase::Blocked { len };
                    ReadStep {
                        action: ReadAction::WaitBlocked,
                        closing: None,
                        blocker: Some(blocker),
                    }
                } else {
                    self.deliver(len)
                }
            },
            ReadEvent::ReadFailed => self.close(conn, CloseReason::SocketFailed),
            ReadEvent::Unblocked => {
                if conn.disconnect {
                    return self.close(conn, CloseReason::DisconnectRequested);
                }
                match *self {
                    ReadPhase::Blocked { len } => self.deliver(len),
                    _ => ReadStep::only(ReadAction::Wait),
                }
            },
            ReadEvent::SpaceHandled { ok } => {
                if !ok {
                    conn.need_disconnect_event = false;
                    return self.notify(AfterNotice::GiveUp);
                }
                match *self {
                    ReadPhase::Flushing { pending: Some(len) } => self.deliver(len),
                    _ => {
                        *self = ReadPhase::Idle;
                        ReadStep::only(ReadAction::Wait)
                    },
                }
            },
            ReadEvent::ReadHandled { pause_read } => match pause_read {
                Some(pause) => {
                    if pause {
                        conn.read_paused = true;
                    }
                    self.notify(AfterNotice::ReadOn)
                },
                None => {
                    conn.need_disconnect_event = false;
                    self.notify(AfterNotice::GiveUp)
                },
            },
            ReadEvent::Notified(outcome) => match (outcome, *self) {
                // The connection is closed whether or not anybody listens.
                (_, ReadPhase::Notifying { then: AfterNotice::GiveUp }) => {
                    self.close(conn, CloseReason::PeerManagerError)
                },
                (TrySend::Closed, _) => {
                    *self = ReadPhase::Aborted;
                    ReadStep::only(ReadAction::Abort)
                },
                // A full queue does not matter: the user has yet to look, and will find what
                // there is now.
                (_, ReadPhase::Notifying { then: AfterNotice::Finish }) => {
                    *self = ReadPhase::Finished;
                    ReadStep::only(ReadAction::Finish)
                },
                _ => {
                    *self = ReadPhase::Idle;
                    ReadStep::only(ReadAction::Wait)
                },
            },
            ReadEvent::WriterShutDown => self.shut_down(conn),
            ReadEvent::Reported => self.notify(AfterNotice::Finish),
        }
    }

    /// Hands what was read to the peer manager.
    fn deliver<W>(&mut self, len: usize) -> (step: ReadStep<W>)
        ensures
            *final(self) == ReadPhase::Delivering,
            step.action == (ReadAction::<W>::CallReadEvent { len }),
            step.closing is None,
            step.blocker is None,
    {
        *self = ReadPhase::Delivering;
        ReadStep::only(ReadAction::CallReadEvent { len })
    }

    /// Tells the user that there may be events.
    fn notify<W>(&mut self, then: AfterNotice) -> (step: ReadStep<W>)
        ensures
            *final(self) == (ReadPhase::Notifying { then }),
            step.action == ReadAction::<W>::NotifyEvent,
            step.closing is None,
            step.blocker is None,
    {
        *self = ReadPhase::Notifying { then };
        ReadStep::only(ReadAction::NotifyEvent)
    }

    /// Stops reading.
    fn close<W>(&mut self, conn: &mut Connection<W>, reason: CloseReason) -> (step: ReadStep<W>)
        ensures
            step.is(ReadDecision::close(old(conn)@, reason), *final(self), final(conn)@),
            step.blocker is None,
            final(conn).event_notify == old(conn).event_notify,
            final(conn).write_avail == old(conn).write_avail,
    {
        let mut step = match conn.writer.take() {
            Some(writer) => {
                *self = ReadPhase::Closing;
                ReadStep::only(ReadAction::ShutdownWriter(writer))
            },
            None => self.shut_down(conn),
        };
        step.closing = Some(reason);
        step
    }

    /// Goes on once the socket is shut down.
    fn shut_down<W>(&mut self, conn: &Connection<W>) -> (step: ReadStep<W>)
        ensures
            step.is(ReadDecision::shut_down(conn@), *final(self), conn@),
            step.blocker is None,
    {
        if conn.need_disconnect_event {
            *self = ReadPhase::Reporting;
            ReadStep::only(ReadAction::CallSocketDisconnected)
        } else {
            *self = ReadPhase::Finished;
            ReadStep::only(ReadAction::Finish)
        }
    }
}

impl<W> ReadStep<W> {
    /// Whether this step, with the task left at `phase` and the connection as `conn`, carries out
    /// `decision`.
    pub open spec fn is(
        self,
        decision: ReadDecision<W>,
        phase: ReadPhase,
        conn: ConnectionView<W>,
    ) -> bool {
        &&& phase == decision.phase
        &&& conn == decision.conn
        &&& self.action == decision.action
        &&& self.closing == decision.closing
    }

    /// Whether this is the step that follows where the task stood at `phase` with the connection
    /// as `conn`, and `event` happened; with the task and the connection left as
    /// `next_phase` and `next_conn`. There is something to wait for just if the task has to wait
    /// for reading to be resumed, and it is then the other end of what is left in the connection.
    pub open spec fn decided(
        self,
        phase: ReadPhase,
        conn: ConnectionView<W>,
        event: ReadEvent,
        next_phase: ReadPhase,
        next_conn: ConnectionView<W>,
    ) -> bool {
        &&& self.is(
            ReadDecision::of(phase, conn, event, next_conn.read_blocker),
            next_phase,
            next_conn,
        )
        &&& match self.blocker {
            Some(receiver) => {
                &&& self.action == ReadAction::<W>::WaitBlocked
                &&& next_conn.read_blocker matches Some(sender)
                &&& channels::oneshot_feeds(sender, receiver)
            },
            None => self.action != ReadAction::<W>::WaitBlocked,
        }
    }

    /// A step that just does something.
    fn only(action: ReadAction<W>) -> (step: Self)
        ensures
            step.action == action,
            step.closing is None,
            step.blocker is None,
    {
        ReadStep { action, closing: None, blocker: None }
    }
}

/// The reading task: where it stands, and what it read last.
pub struct ReadTask {
    /// Where the task stands.
    pub phase: ReadPhase,
    /// What is read from the socket is put here, from the front on. It stays until more is read,
    /// which is not before it was handed to the peer manager.
    pub buf: [u8; READ_BUFFER_LEN],
}

impl ReadTask {
    /// A task that waits, and has read nothing.
    pub fn new() -> (task: Self)
        ensures
            task.phase == ReadPhase::Idle,
            task.phase.well_formed(),
            task.buf@ == Seq::new(READ_BUFFER_LEN as nat, |i: int| 0u8),
    {
        let task = ReadTask { phase: ReadPhase::start(), buf: [0u8; READ_BUFFER_LEN] };
        assert(task.buf@ =~= Seq::new(READ_BUFFER_LEN as nat, |i: int| 0u8));
        task
    }

    /// Takes one step: `event` happened. What was read is left alone.
    pub fn step<W>(&mut self, conn: &mut Connection<W>, event: ReadEvent) -> (step: ReadStep<W>)
        requires
            old(self).phase.awaits(event),
        ensures
            step.decided(old(self).phase, old(conn)@, event, final(self).phase, final(conn)@),
            final(self).buf@ == old(self).buf@,
            old(conn)@.well_formed() ==> final(conn)@.well_formed(),
            old(self).phase.well_formed() ==> final(self).phase.well_formed(),
            old(self).phase.well_formed() ==> (step.action matches ReadAction::CallReadEvent {
                len,
            } ==> 0 < len <= READ_BUFFER_LEN),
            final(conn).event_notify == old(conn).event_notify,
            final(conn).write_avail == old(conn).write_avail,
    {
        self.phase.step(conn, event)
    }

    /// What to hand to the peer manager when told to hand it `len` bytes: the first ones of what
    /// was read.
    pub fn data(&self, len: usize) -> (data: &[u8])
        requires
            len <= READ_BUFFER_LEN,
        ensures
            data@ == self.buf@.take(len as int),
    {
        let data = vstd::slice::slice_subrange(self.buf.as_slice(), 0, len);
        assert(data@ =~= self.buf@.take(len as int));
        data
    }
}

} // verus!
