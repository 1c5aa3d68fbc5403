//! Sending data to the peer: what is done before the first write, and after each one.
//!
//! The writes themselves are made by the caller, who holds the lock on the connection from the
//! first step to the last.
use crate::channels;
use crate::channels::oneshot_send;
use crate::connection::Connection;
use crate::connection::ConnectionView;
use tokio::sync::oneshot;
use vstd::prelude::*;

verus! {

/// How one attempt to write to the socket ended.
#[derive(Clone, Copy, Debug, PartialEq, Eq, Structural)]
pub enum WriteOutcome {
    /// So many bytes were taken.
    Wrote(usize),
    /// The write failed, most likely because the socket is closed already.
    Failed {
        /// Whether the failure was that the write would have had to wait.
        would_block: bool,
    },
    /// There is no room. A wake-up follows once there is.
    Pending,
}

/// What is to be done next to send some data.
#[derive(Clone, Copy, Debug, PartialEq, Eq, Structural)]
pub enum SendStep {
    /// Write the data from this position on.
    Write {
        /// How many bytes have been written so far.
        from: usize,
    },
    /// Nothing more: so many bytes were sent.
    Done {
        /// How many bytes have been written in all.
        written: usize,
    },
}

impl WriteOutcome {
    /// Whether a write of `remaining` bytes can end like this: one that takes bytes takes at
    /// least one, and none that it was not given; and one that has to wait is pending, not
    /// failed.
    pub open spec fn possible(self, remaining: nat) -> bool {
        match self {
            WriteOutcome::Wrote(n) => 0 < n <= remaining,
            WriteOutcome::Failed { would_block } => !would_block,
            WriteOutcome::Pending => true,
        }
    }

    /// Whether a write of `remaining` bytes can end like this.
    pub fn is_possible(self, remaining: usize) -> (possible: bool)
        ensures
            possible == self.possible(remaining as nat),
    {
        match self {
            WriteOutcome::Wrote(n) => 0 < n && n <= remaining,
            WriteOutcome::Failed { would_block } => !would_block,
            WriteOutcome::Pending => true,
        }
    }
}

/// What follows a write that ended with `outcome`, after `written` out of `len` bytes.
pub open spec fn after_write(len: nat, written: nat, outcome: WriteOutcome) -> SendStep {
    match outcome {
        WriteOutcome::Wrote(n) => if written + n == len {
            SendStep::Done { written: len as usize }
        } else {
            SendStep::Write { from: (written + n) as usize }
        },
        _ => SendStep::Done { written: written as usize },
    }
}

impl<W> ConnectionView<W> {
    /// The connection with reading resumed, and nobody waiting for that any more.
    pub open spec fn resumed(self) -> Self {
        ConnectionView { read_blocker: None, read_paused: false, ..self }
    }

    /// The connection once a send has begun: reading is resumed if that was asked for, unless
    /// the connection is shut down.
    pub open spec fn sending(self, resume_read: bool) -> Self {
        if self.writer is Some && resume_read {
            self.resumed()
        } else {
            self
        }
    }

    /// Whom a send wakes as it begins.
    pub open spec fn woken_by_send(self, resume_read: bool) -> Option<oneshot::Sender<()>> {
        if self.writer is Some && resume_read {
            self.read_blocker
        } else {
            None
        }
    }

    /// What a send of `len` bytes does first: nothing if the connection is shut down or there is
    /// nothing to send, and else a write.
    pub open spec fn first_step(self, len: nat) -> SendStep {
        if self.writer is Some && len > 0 {
            SendStep::Write { from: 0 }
        } else {
            SendStep::Done { written: 0 }
        }
    }

    /// The connection after a write: one that found no room pauses reading, as we are now
    /// waiting for the peer to make progress.
    pub open spec fn written(self, outcome: WriteOutcome) -> Self {
        match outcome {
            WriteOutcome::Pending => ConnectionView { read_paused: true, ..self },
            _ => self,
        }
    }
}

impl<W> Connection<W> {
    /// Decides how a send of `len` bytes begins, and takes out whom it has to wake.
    pub fn begin_send(&mut self, len: usize, resume_read: bool) -> (begun: (
        Option<oneshot::Sender<()>>,
        SendStep,
    ))
        ensures
            final(self)@ == old(self)@.sending(resume_read),
            old(self)@.well_formed() ==> final(self)@.well_formed(),
            begun.0 == old(self)@.woken_by_send(resume_read),
            begun.1 == old(self)@.first_step(len as nat),
            final(self).event_notify == old(self).event_notify,
            final(self).write_avail == old(self).write_avail,
    {
        if self.writer.is_none() {
            // The writer is taken when it is time to shut down.
            return (None, SendStep::Done { written: 0 });
        }
        let mut blocker: Option<oneshot::Sender<()>> = None;
        if resume_read {
            blocker = self.read_blocker.take();
            self.read_paused = false;
        }
        if len == 0 {
            (blocker, SendStep::Done { written: 0 })
        } else {
            (blocker, SendStep::Write { from: 0 })
        }
    }

    /// Begins a send of `len` bytes, and wakes the reading task if it is waiting for reading to
    /// be resumed and `resume_read` is set.
    ///
    /// The reading task may have stopped waiting because there was room to write, so it does not
    /// matter whether the wake-up reaches it.
    pub fn start_send(&mut self, len: usize, resume_read: bool) -> (step: SendStep)
        ensures
            final(self)@ == old(self)@.sending(resume_read),
            old(self)@.well_formed() ==> final(self)@.well_formed(),
            step == old(self)@.first_step(len as nat),
            old(self)@.woken_by_send(resume_read) matches Some(sender) ==> exists|
                outcome: Result<(), ()>,
            | #[trigger] channels::oneshot_sent(sender, outcome),
            final(self).event_notify == old(self).event_notify,
            final(self).write_avail == old(self).write_avail,
    {
        let (blocker, step) = self.begin_send(len, resume_read);
        if let Some(sender) = blocker {
            let _ = oneshot_send(sender);
        }
        step
    }

    /// Goes on with a send of `len` bytes, of which `written` were written before a write that
    /// ended with `outcome`.
    pub fn continue_send(&mut self, len: usize, written: usize, outcome: WriteOutcome) -> (step:
        SendStep)
        requires
            written < len,
            outcome.possible((len - written) as nat),
        ensures
            final(self)@ == old(self)@.written(outcome),
            old(self)@.well_formed() ==> final(self)@.well_formed(),
            step == after_write(len as nat, written as nat, outcome),
            final(self).event_notify == old(self).event_notify,
            final(self).write_avail == old(self).write_avail,
    {
        match outcome {
            WriteOutcome::Wrote(n) => {
                let total: usize = written + n;
                if total == len {
                    SendStep::Done { written: total }
                } else {
                    SendStep::Write { from: total }
                }
            },
            WriteOutcome::Failed { .. } => {
                // Return what we have, and let the reading task see to the closing.
                SendStep::Done { written }
            },
            WriteOutcome::Pending => {
                self.read_paused = true;
                SendStep::Done { written }
            },
        }
    }
}

/// Where a send of `len` bytes stands after writes that ended like this, one after the other.
pub open spec fn after_writes(len: nat, outcomes: Seq<WriteOutcome>) -> SendStep
    decreases outcomes.len(),
{
    if outcomes.len() == 0 {
        SendStep::Write { from: 0 }
    } else {
        match after_writes(len, outcomes.drop_last()) {
            SendStep::Write { from } => after_write(len, from as nat, outcomes.last()),
            done => done,
        }
    }
}

/// Whether the writes of a send of `len` bytes can end like this: each is one that was still to
/// be made, and ended as a write of what was left can.
pub open spec fn possible_writes(len: nat, outcomes: Seq<WriteOutcome>) -> bool
    decreases outcomes.len(),
{
    outcomes.len() > 0 ==> {
        &&& possible_writes(len, outcomes.drop_last())
        &&& after_writes(len, outcomes.drop_last()) matches SendStep::Write { from }
        &&& outcomes.last().possible((len - from) as nat)
    }
}

/// How many bytes were taken by writes that ended like this.
pub open spec fn taken(outcomes: Seq<WriteOutcome>) -> nat
    decreases outcomes.len(),
{
    if outcomes.len() == 0 {
        0
    } else {
        taken(outcomes.drop_last()) + match outcomes.last() {
            WriteOutcome::Wrote(n) => n as nat,
            _ => 0,
        }
    }
}

/// The connection after writes that ended like this.
pub open spec fn conn_after_writes<W>(
    conn: ConnectionView<W>,
    outcomes: Seq<WriteOutcome>,
) -> ConnectionView<W>
    decreases outcomes.len(),
{
    if outcomes.len() == 0 {
        conn
    } else {
        conn_after_writes(conn, outcomes.drop_last()).written(outcomes.last())
    }
}

/// A send says how many bytes were sent: all that the writes took, and no more than there were.
/// It goes on as long as each write takes some of the data and some is left, which is after
/// fewer writes than there are bytes; it ends once all is written, or with the first write that
/// fails or finds no room. All was sent just if neither happened.
pub proof fn a_send_counts_what_was_written(len: usize, outcomes: Seq<WriteOutcome>)
    requires
        len > 0,
        possible_writes(len as nat, outcomes),
    ensures
        match after_writes(len as nat, outcomes) {
            SendStep::Write { from } => {
                &&& from == taken(outcomes)
                &&& outcomes.len() <= from < len
                &&& forall|i: int| 0 <= i < outcomes.len() ==> (#[trigger] outcomes[i]) is Wrote
            },
            SendStep::Done { written } => {
                &&& written == taken(outcomes)
                &&& 0 < outcomes.len() <= len
                &&& written <= len
                &&& forall|i: int|
                    0 <= i < outcomes.len() - 1 ==> (#[trigger] outcomes[i]) is Wrote
                &&& written == len <==> outcomes.last() is Wrote
            },
        },
    decreases outcomes.len(),
{
    if outcomes.len() > 0 {
        let rest = outcomes.drop_last();
        a_send_counts_what_was_written(len, rest);
        assert forall|i: int| 0 <= i < outcomes.len() - 1 implies (
        #[trigger] outcomes[i]) is Wrote by {
            assert(rest[i] == outcomes[i]);
        }
    }
}

/// The bytes of `data` that writes which ended like this took: each was offered what was not
/// written yet, and took from the front of that.
pub open spec fn bytes_taken(data: Seq<u8>, outcomes: Seq<WriteOutcome>) -> Seq<u8>
    decreases outcomes.len(),
{
    if outcomes.len() == 0 {
        Seq::empty()
    } else {
        let before = outcomes.drop_last();
        bytes_taken(data, before) + match (after_writes(data.len(), before), outcomes.last()) {
            (SendStep::Write { from }, WriteOutcome::Wrote(n)) => data.skip(from as int).take(
                n as int,
            ),
            _ => Seq::empty(),
        }
    }
}

/// What a send has written is the front of the data, as many bytes as it says: none is left out,
/// written twice or out of order.
pub proof fn a_send_writes_the_front_of_the_data(data: Seq<u8>, outcomes: Seq<WriteOutcome>)
    requires
        0 < data.len() <= usize::MAX,
        possible_writes(data.len(), outcomes),
    ensures
        taken(outcomes) <= data.len(),
        bytes_taken(data, outcomes) == data.take(taken(outcomes) as int),
    decreases outcomes.len(),
{
    a_send_counts_what_was_written(data.len() as usize, outcomes);
    if outcomes.len() > 0 {
        let before = outcomes.drop_last();
        a_send_writes_the_front_of_the_data(data, before);
        a_send_counts_what_was_written(data.len() as usize, before);
    }
    assert(bytes_taken(data, outcomes) =~= data.take(taken(outcomes) as int));
}

/// A send that did not get through can be taken up where it ended: a second send, of what is left,
/// goes on from there, and if it gets through, all of the data was written in order.
pub proof fn a_second_send_completes_the_first(
    data: Seq<u8>,
    first: Seq<WriteOutcome>,
    second: Seq<WriteOutcome>,
)
    requires
        0 < data.len() <= usize::MAX,
        possible_writes(data.len(), first),
        taken(first) < data.len(),
        possible_writes((data.len() - taken(first)) as nat, second),
    ensures
        bytes_taken(data, first) + bytes_taken(data.skip(taken(first) as int), second)
            == data.take((taken(first) + taken(second)) as int),
        taken(first) + taken(second) == data.len() ==> bytes_taken(data, first) + bytes_taken(
            data.skip(taken(first) as int),
            second,
        ) == data,
{
    let rest = data.skip(taken(first) as int);
    a_send_writes_the_front_of_the_data(data, first);
    a_send_writes_the_front_of_the_data(rest, second);
    assert(bytes_taken(data, first) + bytes_taken(rest, second) =~= data.take(
        (taken(first) + taken(second)) as int,
    ));
}

/// A send that was not full because there was no room leaves reading paused. Any other leaves the
/// connection as it was.
pub proof fn a_send_without_room_pauses_reading<W>(
    conn: ConnectionView<W>,
    len: usize,
    outcomes: Seq<WriteOutcome>,
)
    requires
        len > 0,
        possible_writes(len as nat, outcomes),
    ensures
        conn_after_writes(conn, outcomes) == if outcomes.len() > 0 && outcomes.last() is Pending {
            ConnectionView { read_paused: true, ..conn }
        } else {
            conn
        },
    decreases outcomes.len(),
{
    if outcomes.len() > 0 {
        let rest = outcomes.drop_last();
        a_send_without_room_pauses_reading(conn, len, rest);
        a_send_counts_what_was_written(len, rest);
        if rest.len() > 0 {
            assert(rest[rest.len() - 1] is Wrote);
        }
    }
}

} // verus!
