//! The state of one connection, as shared by the task that reads its socket and by the
//! descriptors through which the peer manager writes to it.
use crate::channels;
use crate::channels::{mpsc_channel, mpsc_try_send, TrySend};
use tokio::sync::mpsc;
use tokio::sync::oneshot;
use vstd::prelude::*;

verus! {

/// How many wake-ups of the reading task can be queued.
///
/// One is enough: if a write was not full, there will be a notice once the socket has room
/// again. That notice is taken off the queue before the peer manager is told of the room, so
/// there is a place for the next one should the write that follows not be full either.
pub const WRITE_AVAIL_DEPTH: usize = 1;

/// Hands out the numbers by which connections are told apart.
#[derive(Debug)]
pub struct ConnectionIds {
    /// The number that the next connection gets.
    pub next: u64,
}

/// The number after `id`, going back to zero after the last one.
pub open spec fn id_after(id: u64) -> u64 {
    if id == u64::MAX {
        0
    } else {
        (id + 1) as u64
    }
}

impl ConnectionIds {
    /// Numbers from zero on.
    pub fn new() -> (ids: Self)
        ensures
            ids.next == 0,
    {
        ConnectionIds { next: 0 }
    }

    /// The next number.
    pub fn take(&mut self) -> (id: u64)
        ensures
            id == old(self).next,
            final(self).next == id_after(id),
    {
        let id: u64 = self.next;
        self.next = id.wrapping_add(1);
        id
    }
}

/// What both the reading task and the descriptors of one connection look at and change.
///
/// `W` is the half of the socket that is written to.
pub struct Connection<W> {
    /// The half of the socket that is written to, until it is time to shut down.
    pub writer: Option<W>,
    /// Tells the user that there may be events to handle.
    pub event_notify: mpsc::Sender<()>,
    /// Wakes the reading task, to have it look at `disconnect` or tell the peer manager that
    /// there is room to write.
    pub write_avail: mpsc::Sender<()>,
    /// When we are told to pause reading, because writes are backing up, `read_paused` is set.
    /// If the reading task thereafter reads some data, it puts a sender here and waits for it.
    /// A send that resumes reading sends into it and takes `read_paused` back.
    pub read_blocker: Option<oneshot::Sender<()>>,
    /// Whether data that is read has to wait before it is handed to the peer manager.
    pub read_paused: bool,
    /// Whether the peer manager has to be told once the socket is closed. It does not where it
    /// asked for the disconnect itself, nor where it gave up on the peer with an error.
    pub need_disconnect_event: bool,
    /// Whether the peer manager asked for the socket to be disconnected.
    pub disconnect: bool,
    /// The number by which this connection is told apart from the others.
    pub id: u64,
}

/// A connection without its two queue handles.
pub struct ConnectionView<W> {
    pub writer: Option<W>,
    pub read_blocker: Option<oneshot::Sender<()>>,
    pub read_paused: bool,
    pub need_disconnect_event: bool,
    pub disconnect: bool,
    pub id: u64,
}

impl<W> View for Connection<W> {
    type V = ConnectionView<W>;

    open spec fn view(&self) -> ConnectionView<W> {
        ConnectionView {
            writer: self.writer,
            read_blocker: self.read_blocker,
            read_paused: self.read_paused,
            need_disconnect_event: self.need_disconnect_event,
            disconnect: self.disconnect,
            id: self.id,
        }
    }
}

impl<W> ConnectionView<W> {
    /// A connection as it is made: open, reading, and to be reported once it is closed.
    pub open spec fn fresh(writer: W, id: u64) -> Self {
        ConnectionView {
            writer: Some(writer),
            read_blocker: None,
            read_paused: false,
            need_disconnect_event: true,
            disconnect: false,
            id,
        }
    }

    /// A disconnect that the peer manager asked for is not reported back to it.
    pub open spec fn well_formed(self) -> bool {
        self.disconnect ==> !self.need_disconnect_event
    }

    /// The connection once the peer manager has asked for it to be disconnected.
    pub open spec fn disconnected(self) -> Self {
        ConnectionView {
            need_disconnect_event: false,
            disconnect: true,
            read_paused: true,
            ..self
        }
    }
}

/// Whether `after` is a handle of the same queue as `before`, through which nothing but one more
/// attempt was made, which ended with `outcome`.
pub open spec fn tried_once(
    before: mpsc::Sender<()>,
    after: mpsc::Sender<()>,
    outcome: TrySend,
) -> bool {
    &&& channels::mpsc_attempts(after) == channels::mpsc_attempts(before).push(outcome)
    &&& channels::mpsc_depth(after) == channels::mpsc_depth(before)
    &&& forall|receiver: mpsc::Receiver<()>| #[trigger]
        channels::mpsc_feeds(after, receiver) == channels::mpsc_feeds(before, receiver)
}

impl<W> Connection<W> {
    /// Makes a connection that writes to `writer` and tells the user of events through
    /// `event_notify`, with the receiving half of the queue that wakes its reading task.
    pub fn new(
        ids: &mut ConnectionIds,
        event_notify: mpsc::Sender<()>,
        writer: W,
    ) -> (made: (Connection<W>, mpsc::Receiver<()>))
        ensures
            made.0@ == ConnectionView::fresh(writer, old(ids).next),
            made.0.id == old(ids).next,
            made.0.writer == Some(writer),
            made.0@.well_formed(),
            made.0.event_notify == event_notify,
            channels::mpsc_feeds(made.0.write_avail, made.1),
            channels::mpsc_depth(made.0.write_avail) == WRITE_AVAIL_DEPTH,
            channels::mpsc_attempts(made.0.write_avail) == Seq::<TrySend>::empty(),
            final(ids).next == id_after(old(ids).next),
    {
        let (write_avail, receiver) = mpsc_channel(WRITE_AVAIL_DEPTH);
        let id: u64 = ids.take();
        (
            Connection {
                writer: Some(writer),
                event_notify,
                write_avail,
                read_blocker: None,
                read_paused: false,
                need_disconnect_event: true,
                disconnect: false,
                id,
            },
            receiver,
        )
    }

    /// Marks the connection as to be disconnected, and wakes the reading task to have it see to
    /// that. Nothing more is read meanwhile, and the disconnect is not reported back.
    ///
    /// A wake-up that finds one already queued, or the reading task gone, is not needed.
    pub fn disconnect_socket(&mut self) -> (woken: TrySend)
        ensures
            final(self)@ == old(self)@.disconnected(),
            final(self)@.well_formed(),
            final(self).event_notify == old(self).event_notify,
            tried_once(old(self).write_avail, final(self).write_avail, woken),
    {
        self.need_disconnect_event = false;
        self.disconnect = true;
        self.read_paused = true;
        mpsc_try_send(&mut self.write_avail)
    }

    /// Tells the user that there may be events to handle.
    pub fn notify_event(&mut self) -> (told: TrySend)
        ensures
            final(self)@ == old(self)@,
            final(self).write_avail == old(self).write_avail,
            tried_once(old(self).event_notify, final(self).event_notify, told),
    {
        mpsc_try_send(&mut self.event_notify)
    }

    /// Wakes the reading task because the socket has room to write again.
    ///
    /// A wake-up that finds one already queued is not needed: most likely two writes in a row
    /// were not full, and the peer manager has to be told of the room only once. Nor is one that
    /// finds the reading task gone.
    pub fn wake_socket_waker_by_ref(&mut self) -> (woken: TrySend)
        ensures
            final(self)@ == old(self)@,
            final(self).event_notify == old(self).event_notify,
            tried_once(old(self).write_avail, final(self).write_avail, woken),
    {
        mpsc_try_send(&mut self.write_avail)
    }
}

/// The number that comes `steps` after `id`.
pub open spec fn id_after_steps(id: u64, steps: nat) -> u64
    decreases steps,
{
    if steps == 0 {
        id
    } else {
        id_after(id_after_steps(id, (steps - 1) as nat))
    }
}

/// Numbers count up, and begin again at zero once all have been used.
proof fn ids_count_up(id: u64, steps: nat)
    ensures
        id_after_steps(id, steps) == (id + steps) % 0x1_0000_0000_0000_0000,
    decreases steps,
{
    if steps > 0 {
        ids_count_up(id, (steps - 1) as nat);
    }
}

/// No two connections have the same number, unless all the other numbers were used in between.
pub proof fn ids_differ(first: u64, i: nat, j: nat)
    requires
        i < j,
        j - i < 0x1_0000_0000_0000_0000,
    ensures
        id_after_steps(first, i) != id_after_steps(first, j),
{
    ids_count_up(first, i);
    ids_count_up(first, j);
}

} // verus!
