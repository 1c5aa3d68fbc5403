//! What each operation is for, said of the calls themselves: what a call needs, and what its
//! results have to do with what went in.
//!
//! A step of the reading task is spoken of by where the task stood and how the connection was
//! before and after it. Between two steps the connection may change, through sends and requests
//! to disconnect.
use crate::channels;
use crate::channels::TrySend;
use crate::configurations::ChannelLimits;
use crate::configurations::UserConfigurations;
use crate::connection;
use crate::connection::Connection;
use crate::connection::ConnectionIds;
use crate::connection::ConnectionView;
use crate::descriptor::SocketDescriptor;
use crate::reading::CloseReason;
use crate::reading::ReadAction;
use crate::reading::ReadEvent;
use crate::reading::ReadPhase;
use crate::reading::ReadStep;
use crate::reading::ReadTask;
use crate::reading::READ_BUFFER_LEN;
use crate::sending;
use crate::sending::SendStep;
use crate::sending::WriteOutcome;
use crate::setup;
use crate::setup::ConnectOutcome;
use crate::setup::SetupStep;
use tokio::sync::mpsc;
use tokio::sync::oneshot;
use vstd::prelude::*;
use vstd::std_specs::cmp::PartialEqSpec;

verus! {

/// A new connection writes to the writer that it was given and tells the user through the handle
/// that it was given. Its number is the very one that stood next in the counter, and the counter
/// moves on by one. It reads, nobody waits, and its closing is to be reported. There is room for
/// one wake-up, and none is queued.
pub proof fn a_connection_is_made_of_what_it_is_given<W>()
    ensures
        forall|
            ids: &mut ConnectionIds,
            event_notify: mpsc::Sender<()>,
            writer: W,
            made: (Connection<W>, mpsc::Receiver<()>),
        |
            #![trigger call_ensures(Connection::<W>::new, (ids, event_notify, writer), made)]
            call_ensures(Connection::<W>::new, (ids, event_notify, writer), made) ==> {
                &&& made.0.id == ids.next
                &&& final(ids).next as int == (ids.next + 1) % 0x1_0000_0000_0000_0000
                &&& made.0.writer == Some(writer)
                &&& made.0.event_notify == event_notify
                &&& made.0.read_blocker is None
                &&& !made.0.read_paused
                &&& made.0.need_disconnect_event
                &&& !made.0.disconnect
                &&& channels::mpsc_feeds(made.0.write_avail, made.1)
                &&& channels::mpsc_depth(made.0.write_avail) == 1
                &&& channels::mpsc_attempts(made.0.write_avail).len() == 0
            },
{
}

/// Two connections made from one counter, `i` and `j` connections after it stood at `first`, have
/// different numbers, and their descriptors are not equal; unless all the numbers that there are
/// were used in between. Two descriptors of one connection are equal, whatever way they take to
/// it.
pub proof fn connections_as_made_are_told_apart<V, W, C>(first: u64, i: nat, j: nat)
    requires
        i < j,
        j - i < 0x1_0000_0000_0000_0000,
    ensures
        forall|
            ids_a: &mut ConnectionIds,
            notify_a: mpsc::Sender<()>,
            writer_a: V,
            a: (Connection<V>, mpsc::Receiver<()>),
            ids_b: &mut ConnectionIds,
            notify_b: mpsc::Sender<()>,
            writer_b: W,
            b: (Connection<W>, mpsc::Receiver<()>),
        |
            #![trigger call_ensures(Connection::<V>::new, (ids_a, notify_a, writer_a), a), call_ensures(Connection::<W>::new, (ids_b, notify_b, writer_b), b)]
            call_ensures(Connection::<V>::new, (ids_a, notify_a, writer_a), a) && call_ensures(
                Connection::<W>::new,
                (ids_b, notify_b, writer_b),
                b,
            ) && ids_a.next == connection::id_after_steps(first, i) && ids_b.next
                == connection::id_after_steps(first, j) ==> a.0.id != b.0.id,
        forall|
            conn_a: C,
            a: Connection<V>,
            of_a: SocketDescriptor<C>,
            conn_b: C,
            b: Connection<V>,
            of_b: SocketDescriptor<C>,
        |
            #![trigger call_ensures(SocketDescriptor::<C>::new::<V>, (conn_a, &a), of_a), call_ensures(SocketDescriptor::<C>::new::<V>, (conn_b, &b), of_b)]
            call_ensures(SocketDescriptor::<C>::new::<V>, (conn_a, &a), of_a) && call_ensures(
                SocketDescriptor::<C>::new::<V>,
                (conn_b, &b),
                of_b,
            ) ==> {
                &&& of_a.conn == conn_a
                &&& of_a.id == a.id
                &&& (of_a.eq_spec(&of_b) <==> a.id == b.id)
            },
{
    connection::ids_differ(first, i, j);
}

/// A cloned descriptor is equal to the one that it was cloned from.
pub proof fn a_clone_is_equal<C: Clone>()
    ensures
        forall|descriptor: SocketDescriptor<C>, copy: SocketDescriptor<C>| #[trigger]
            call_ensures(SocketDescriptor::<C>::clone, (&descriptor,), copy) ==> {
                &&& descriptor.eq_spec(&copy)
                &&& copy.id == descriptor.id
                &&& cloned(descriptor.conn, copy.conn)
            },
{
}

/// The counter stands at zero at first, gives out the number it stands at, and moves on to the
/// next one: after `n` numbers it stands `n` further.
pub proof fn the_counter_counts(first: u64, n: nat)
    ensures
        forall|ids: ConnectionIds| #[trigger] call_ensures(ConnectionIds::new, (), ids) ==> ids.next
            == 0,
        forall|ids: &mut ConnectionIds, id: u64| #[trigger]
            call_ensures(ConnectionIds::take, (ids,), id) ==> {
                &&& id == ids.next
                &&& final(ids).next as int == (id + 1) % 0x1_0000_0000_0000_0000
            },
        connection::id_after_steps(first, n) as int == (first + n) % 0x1_0000_0000_0000_0000,
    decreases n,
{
    if n > 0 {
        the_counter_counts(first, (n - 1) as nat);
    }
}

/// A request to disconnect is marked as such, holds back what is read, is not going to be
/// reported, and wakes the reading task once. Nothing else changes.
pub proof fn a_disconnect_request_marks_and_wakes<W>()
    ensures
        forall|conn: &mut Connection<W>, woken: TrySend| #[trigger]
            call_ensures(Connection::<W>::disconnect_socket, (conn,), woken) ==> {
                &&& final(conn).disconnect
                &&& !final(conn).need_disconnect_event
                &&& final(conn).read_paused
                &&& final(conn).writer == conn.writer
                &&& final(conn).read_blocker == conn.read_blocker
                &&& final(conn).id == conn.id
                &&& final(conn).event_notify == conn.event_notify
                &&& channels::mpsc_attempts(final(conn).write_avail) == channels::mpsc_attempts(
                    conn.write_avail,
                ).push(woken)
            },
{
}

/// Telling the user makes one attempt through the handle for that, and waking the reading task
/// makes one through the other. Nothing else changes, and the handles stay with their queues.
pub proof fn signals_go_where_they_belong<W>()
    ensures
        forall|conn: &mut Connection<W>, told: TrySend| #[trigger]
            call_ensures(Connection::<W>::notify_event, (conn,), told) ==> {
                &&& channels::mpsc_attempts(final(conn).event_notify) == channels::mpsc_attempts(
                    conn.event_notify,
                ).push(told)
                &&& final(conn).write_avail == conn.write_avail
                &&& same_but_for_handles(*conn, *final(conn))
                &&& forall|receiver: mpsc::Receiver<()>| #[trigger]
                    channels::mpsc_feeds(final(conn).event_notify, receiver)
                        == channels::mpsc_feeds(conn.event_notify, receiver)
            },
        forall|conn: &mut Connection<W>, woken: TrySend| #[trigger]
            call_ensures(Connection::<W>::wake_socket_waker_by_ref, (conn,), woken) ==> {
                &&& channels::mpsc_attempts(final(conn).write_avail) == channels::mpsc_attempts(
                    conn.write_avail,
                ).push(woken)
                &&& final(conn).event_notify == conn.event_notify
                &&& same_but_for_handles(*conn, *final(conn))
                &&& forall|receiver: mpsc::Receiver<()>| #[trigger]
                    channels::mpsc_feeds(final(conn).write_avail, receiver)
                        == channels::mpsc_feeds(conn.write_avail, receiver)
            },
        forall|conn: &mut Connection<W>, woken: TrySend| #[trigger]
            call_ensures(Connection::<W>::disconnect_socket, (conn,), woken) ==> (forall|
                receiver: mpsc::Receiver<()>,
            | #[trigger]
                channels::mpsc_feeds(final(conn).write_avail, receiver) == channels::mpsc_feeds(
                    conn.write_avail,
                    receiver,
                )),
{
}

/// Whether two states of a connection differ in nothing but their queue handles.
pub open spec fn same_but_for_handles<W>(a: Connection<W>, b: Connection<W>) -> bool {
    &&& a.writer == b.writer
    &&& a.read_blocker == b.read_blocker
    &&& a.read_paused == b.read_paused
    &&& a.need_disconnect_event == b.need_disconnect_event
    &&& a.disconnect == b.disconnect
    &&& a.id == b.id
}

/// A send can always begin, and on an open connection one of some data begins with a write of all
/// of it, from the first byte on. One of no data, or on a connection that is shut down, sends
/// nothing.
pub proof fn a_send_begins_at_the_first_byte<W>()
    ensures
        forall|conn: &mut Connection<W>, len: usize, resume_read: bool| #[trigger]
            call_requires(Connection::<W>::begin_send, (conn, len, resume_read)),
        forall|conn: &mut Connection<W>, len: usize, resume_read: bool| #[trigger]
            call_requires(Connection::<W>::start_send, (conn, len, resume_read)),
        forall|
            conn: &mut Connection<W>,
            len: usize,
            resume_read: bool,
            begun: (Option<oneshot::Sender<()>>, SendStep),
        | #[trigger]
            call_ensures(Connection::<W>::begin_send, (conn, len, resume_read), begun) ==> {
                &&& conn.writer is Some && len > 0 ==> begun.1 == (SendStep::Write { from: 0 })
                &&& conn.writer is None || len == 0 ==> begun.1 == (SendStep::Done { written: 0 })
            },
        forall|conn: &mut Connection<W>, len: usize, resume_read: bool, step: SendStep| #[trigger]
            call_ensures(Connection::<W>::start_send, (conn, len, resume_read), step) ==> {
                &&& conn.writer is Some && len > 0 ==> step == (SendStep::Write { from: 0 })
                &&& conn.writer is None || len == 0 ==> step == (SendStep::Done { written: 0 })
            },
{
}

/// Only a send that is asked to resumes reading, and only on an open connection. It then takes out
/// whom it wakes and lifts the pause. Nobody who waits is lost: they either still are to be found
/// in the connection, or were taken out and signalled. Nothing else changes.
pub proof fn a_send_resumes_reading_only_if_asked<W>()
    ensures
        forall|
            conn: &mut Connection<W>,
            len: usize,
            resume_read: bool,
            begun: (Option<oneshot::Sender<()>>, SendStep),
        | #[trigger]
            call_ensures(Connection::<W>::begin_send, (conn, len, resume_read), begun) ==> {
                &&& resumed_just_if(*conn, *final(conn), conn.writer is Some && resume_read)
                &&& final(conn).read_blocker is Some ==> begun.0 is None
                &&& final(conn).read_blocker is None ==> begun.0 == conn.read_blocker
            },
        forall|conn: &mut Connection<W>, len: usize, resume_read: bool, step: SendStep| #[trigger]
            call_ensures(Connection::<W>::start_send, (conn, len, resume_read), step) ==> {
                &&& resumed_just_if(*conn, *final(conn), conn.writer is Some && resume_read)
                &&& conn.read_blocker is Some && final(conn).read_blocker is None ==> exists|
                    outcome: Result<(), ()>,
                | #[trigger] channels::oneshot_sent(conn.read_blocker->0, outcome)
            },
{
}

/// Whether reading was resumed between two states of a connection if it should have been, and
/// nothing changed otherwise.
pub open spec fn resumed_just_if<W>(a: Connection<W>, b: Connection<W>, resumed: bool) -> bool {
    &&& a.writer == b.writer
    &&& a.need_disconnect_event == b.need_disconnect_event
    &&& a.disconnect == b.disconnect
    &&& a.id == b.id
    &&& a.event_notify == b.event_notify
    &&& a.write_avail == b.write_avail
    &&& resumed ==> !b.read_paused && b.read_blocker is None
    &&& !resumed ==> a.read_paused == b.read_paused && a.read_blocker == b.read_blocker
}

/// A send can go on after any write that took some of what was left, failed, or found no room. It
/// counts what was taken: it is done once that is all, and goes on where it is less; after a
/// write that took nothing it is done with what it had. Reading is paused just after one that
/// found no room, and nothing else changes.
pub proof fn a_write_moves_a_send_on<W>()
    ensures
        forall|conn: &mut Connection<W>, len: usize, written: usize, outcome: WriteOutcome|
            #![trigger call_requires(Connection::<W>::continue_send, (conn, len, written, outcome))]
            written < len && (match outcome {
                WriteOutcome::Wrote(n) => 0 < n && written + n <= len,
                WriteOutcome::Failed { would_block } => !would_block,
                WriteOutcome::Pending => true,
            }) ==> call_requires(
                Connection::<W>::continue_send,
                (conn, len, written, outcome),
            ),
        forall|
            conn: &mut Connection<W>,
            len: usize,
            written: usize,
            outcome: WriteOutcome,
            step: SendStep,
        | #[trigger]
            call_ensures(Connection::<W>::continue_send, (conn, len, written, outcome), step)
                && written < len ==> {
                &&& outcome matches WriteOutcome::Wrote(n) ==> {
                    &&& (written + n < len ==> step == (SendStep::Write {
                        from: (written + n) as usize,
                    }))
                    &&& (written + n == len ==> step == (SendStep::Done { written: len }))
                }
                &&& !(outcome is Wrote) ==> step == (SendStep::Done { written })
                &&& final(conn).read_paused == (conn.read_paused || outcome is Pending)
                &&& final(conn).read_blocker == conn.read_blocker
                &&& final(conn).writer == conn.writer
                &&& final(conn).need_disconnect_event == conn.need_disconnect_event
                &&& final(conn).disconnect == conn.disconnect
                &&& final(conn).id == conn.id
                &&& final(conn).event_notify == conn.event_notify
                &&& final(conn).write_avail == conn.write_avail
            },
{
}

/// What can be tested of a write is just what going on with a send needs.
pub proof fn a_write_is_tested_for_what_is_needed(
    len: usize,
    written: usize,
    outcome: WriteOutcome,
    possible: bool,
)
    requires
        written < len,
        call_ensures(WriteOutcome::is_possible, (outcome, (len - written) as usize), possible),
    ensures
        possible <==> match outcome {
            WriteOutcome::Wrote(n) => 0 < n && written + n <= len,
            WriteOutcome::Failed { would_block } => !would_block,
            WriteOutcome::Pending => true,
        },
{
}

/// Where a send of `len` bytes stands after writes that ended like this: it begins as a send on
/// this connection does, and goes on after each write.
pub open spec fn whole_send<W>(
    conn: ConnectionView<W>,
    len: nat,
    outcomes: Seq<WriteOutcome>,
) -> SendStep
    decreases outcomes.len(),
{
    if outcomes.len() == 0 {
        conn.first_step(len)
    } else {
        match whole_send(conn, len, outcomes.drop_last()) {
            SendStep::Write { from } => sending::after_write(len, from as nat, outcomes.last()),
            done => done,
        }
    }
}

/// How many bytes a send has written so far, or has written in all.
pub open spec fn progress(step: SendStep) -> nat {
    match step {
        SendStep::Write { from } => from as nat,
        SendStep::Done { written } => written as nat,
    }
}

/// A whole send, from its first step to its last, reports how many bytes its writes took. On an
/// open connection, one of some data first comes to a write; it ends once all is written or a
/// write takes nothing, and not before.
pub proof fn a_whole_send_reports_what_was_taken<W>(
    conn: ConnectionView<W>,
    len: usize,
    outcomes: Seq<WriteOutcome>,
)
    requires
        conn.writer is Some,
        len > 0,
        sending::possible_writes(len as nat, outcomes),
    ensures
        whole_send(conn, len as nat, outcomes) == sending::after_writes(len as nat, outcomes),
        progress(whole_send(conn, len as nat, outcomes)) == sending::taken(outcomes) <= len,
        whole_send(conn, len as nat, outcomes) is Done <==> {
            ||| sending::taken(outcomes) == len
            ||| outcomes.len() > 0 && !(outcomes.last() is Wrote)
        },
    decreases outcomes.len(),
{
    sending::a_send_counts_what_was_written(len, outcomes);
    if outcomes.len() > 0 {
        a_whole_send_reports_what_was_taken(conn, len, outcomes.drop_last());
        sending::a_send_counts_what_was_written(len, outcomes.drop_last());
    }
}

/// However the data is cut up, if each write takes some of it and together they take no more than
/// there is, a send can go like this, and what it has sent is what they took.
pub proof fn a_send_goes_through_in_any_pieces<W>(
    conn: ConnectionView<W>,
    len: usize,
    outcomes: Seq<WriteOutcome>,
)
    requires
        conn.writer is Some,
        len > 0,
        forall|i: int|
            0 <= i < outcomes.len() ==> (#[trigger] outcomes[i] matches WriteOutcome::Wrote(n) && n
                > 0),
        sending::taken(outcomes) <= len,
    ensures
        sending::possible_writes(len as nat, outcomes),
        whole_send(conn, len as nat, outcomes) == if sending::taken(outcomes) == len {
            SendStep::Done { written: len }
        } else {
            SendStep::Write { from: sending::taken(outcomes) as usize }
        },
    decreases outcomes.len(),
{
    if outcomes.len() > 0 {
        let rest = outcomes.drop_last();
        assert forall|i: int| 0 <= i < rest.len() implies (
        #[trigger] rest[i] matches WriteOutcome::Wrote(n) && n > 0) by {
            assert(rest[i] == outcomes[i]);
        }
        assert(outcomes[outcomes.len() - 1] is Wrote);
        a_send_goes_through_in_any_pieces(conn, len, rest);
        a_whole_send_reports_what_was_taken(conn, len, rest);
    }
}

/// A step of the reading task is decided by where the task stands, the connection, and what
/// happened. Neither of its two forms touches the queue handles, and a task keeps what it read.
pub proof fn steps_are_decided<W>()
    ensures
        forall|phase: &mut ReadPhase, conn: &mut Connection<W>, event: ReadEvent|
            #![trigger call_requires(ReadPhase::step::<W>, (phase, conn, event))]
            phase.awaits(event) ==> call_requires(ReadPhase::step::<W>, (phase, conn, event)),
        forall|task: &mut ReadTask, conn: &mut Connection<W>, event: ReadEvent|
            #![trigger call_requires(ReadTask::step::<W>, (task, conn, event))]
            task.phase.awaits(event) ==> call_requires(ReadTask::step::<W>, (task, conn, event)),
        forall|phase: &mut ReadPhase, conn: &mut Connection<W>, event: ReadEvent, step: ReadStep<W>|
         #[trigger]
            call_ensures(ReadPhase::step::<W>, (phase, conn, event), step) ==> {
                &&& step.decided(*phase, conn@, event, *final(phase), final(conn)@)
                &&& final(conn).event_notify == conn.event_notify
                &&& final(conn).write_avail == conn.write_avail
            },
        forall|task: &mut ReadTask, conn: &mut Connection<W>, event: ReadEvent, step: ReadStep<W>|
         #[trigger]
            call_ensures(ReadTask::step::<W>, (task, conn, event), step) ==> {
                &&& step.decided(task.phase, conn@, event, final(task).phase, final(conn)@)
                &&& final(task).buf@ == task.buf@
                &&& final(conn).event_notify == conn.event_notify
                &&& final(conn).write_avail == conn.write_avail
            },
        forall|task: ReadTask, len: usize|
            #![trigger call_requires(ReadTask::data, (&task, len))]
            len <= READ_BUFFER_LEN ==> call_requires(ReadTask::data, (&task, len)),
        forall|task: ReadTask, len: usize, data: &[u8]| #[trigger]
            call_ensures(ReadTask::data, (&task, len), data) ==> data@ == task.buf@.take(
                len as int,
            ),
        forall|task: ReadTask| #[trigger]
            call_ensures(ReadTask::new, (), task) ==> task.phase is Idle,
        forall|phase: ReadPhase| #[trigger]
            call_ensures(ReadPhase::start, (), phase) ==> phase is Idle,
        forall|phase: ReadPhase, event: ReadEvent, accepted: bool| #[trigger]
            call_ensures(ReadPhase::accepts, (&phase, &event), accepted) ==> accepted
                == phase.awaits(event),
{
}

/// What is looked at of a connection is what it holds.
pub proof fn a_view_shows_the_connection<W>(conn: Connection<W>)
    ensures
        conn@.writer == conn.writer,
        conn@.read_blocker == conn.read_blocker,
        conn@.read_paused == conn.read_paused,
        conn@.need_disconnect_event == conn.need_disconnect_event,
        conn@.disconnect == conn.disconnect,
        conn@.id == conn.id,
{
}

/// If reading is not paused and no disconnect was asked for, what an idle task reads is handed to
/// the peer manager at once: all of it, and nothing else is done or changed.
pub proof fn unpaused_data_is_handed_over_at_once<W>(
    conn: ConnectionView<W>,
    len: usize,
    step: ReadStep<W>,
    next_phase: ReadPhase,
    next_conn: ConnectionView<W>,
)
    requires
        len > 0,
        !conn.read_paused,
        !conn.disconnect,
        step.decided(ReadPhase::Idle, conn, ReadEvent::Read(len), next_phase, next_conn),
    ensures
        step.action == (ReadAction::<W>::CallReadEvent { len }),
        step.closing is None,
        step.blocker is None,
        next_phase is Delivering,
        next_conn == conn,
{
}

/// If reading is paused and no disconnect was asked for, what an idle task reads is held back, all
/// of it, and the task waits for the other end of what it leaves in the connection.
pub proof fn paused_data_is_held_back<W>(
    conn: ConnectionView<W>,
    len: usize,
    step: ReadStep<W>,
    next_phase: ReadPhase,
    next_conn: ConnectionView<W>,
)
    requires
        len > 0,
        conn.read_paused,
        !conn.disconnect,
        step.decided(ReadPhase::Idle, conn, ReadEvent::Read(len), next_phase, next_conn),
    ensures
        step.action is WaitBlocked,
        step.closing is None,
        next_phase == (ReadPhase::Blocked { len }),
        next_conn.read_blocker matches Some(sender) && step.blocker matches Some(receiver)
            && channels::oneshot_feeds(sender, receiver),
        next_conn == (ConnectionView { read_blocker: next_conn.read_blocker, ..conn }),
{
}

/// A task waits to be unblocked only if it just read some data while reading was paused, and no
/// disconnect was asked for.
pub proof fn a_task_waits_only_while_reading_is_paused<W>(
    phase: ReadPhase,
    conn: ConnectionView<W>,
    event: ReadEvent,
    step: ReadStep<W>,
    next_phase: ReadPhase,
    next_conn: ConnectionView<W>,
)
    requires
        phase.awaits(event),
        step.decided(phase, conn, event, next_phase, next_conn),
        step.action is WaitBlocked || step.blocker is Some || next_phase is Blocked
            || next_conn.read_blocker != conn.read_blocker,
    ensures
        phase is Idle,
        event matches ReadEvent::Read(len) && len > 0,
        conn.read_paused,
        !conn.disconnect,
        step.action is WaitBlocked,
        step.blocker is Some,
{
}

/// Once reading is resumed, a task hands over what it held back, unless a disconnect was asked
/// for, even if reading was paused again meanwhile.
pub proof fn resumed_data_is_handed_over<W>(
    conn: ConnectionView<W>,
    len: usize,
    step: ReadStep<W>,
    next_phase: ReadPhase,
    next_conn: ConnectionView<W>,
)
    requires
        !conn.disconnect,
        step.decided(
            ReadPhase::Blocked { len },
            conn,
            ReadEvent::Unblocked,
            next_phase,
            next_conn,
        ),
    ensures
        step.action == (ReadAction::<W>::CallReadEvent { len }),
        step.closing is None,
        next_phase is Delivering,
        next_conn == conn,
{
}

/// A task that is woken, whether it waits for data or holds some back, tells the peer manager that
/// there is room to write, unless a disconnect was asked for. It keeps what it holds back, and
/// hands it over once the peer manager has taken notice; if it holds nothing back it waits again.
pub proof fn a_wake_up_reaches_the_peer_manager<W>(
    phase: ReadPhase,
    conn: ConnectionView<W>,
    step: ReadStep<W>,
    next_phase: ReadPhase,
    next_conn: ConnectionView<W>,
    later: ConnectionView<W>,
    second: ReadStep<W>,
    second_phase: ReadPhase,
    second_conn: ConnectionView<W>,
)
    requires
        phase is Idle || phase is Blocked,
        !conn.disconnect,
        step.decided(phase, conn, ReadEvent::WriteAvail, next_phase, next_conn),
        second.decided(
            next_phase,
            later,
            ReadEvent::SpaceHandled { ok: true },
            second_phase,
            second_conn,
        ),
    ensures
        step.action is CallWriteBufferSpaceAvail,
        step.closing is None,
        next_conn == conn,
        second.closing is None,
        second_conn == later,
        match phase {
            ReadPhase::Blocked { len } => {
                &&& second.action == (ReadAction::<W>::CallReadEvent { len })
                &&& second_phase is Delivering
            },
            _ => second.action is Wait && second_phase is Idle,
        },
{
}

/// The peer manager is told of room to write only when the task was woken and no disconnect was
/// asked for.
pub proof fn only_a_wake_up_tells_of_room<W>(
    phase: ReadPhase,
    conn: ConnectionView<W>,
    event: ReadEvent,
    step: ReadStep<W>,
    next_phase: ReadPhase,
    next_conn: ConnectionView<W>,
)
    requires
        phase.awaits(event),
        step.decided(phase, conn, event, next_phase, next_conn),
        step.action is CallWriteBufferSpaceAvail,
    ensures
        event is WriteAvail,
        !conn.disconnect,
{
}

/// What it means that a step stops the reading task: a reason is given, the writer is taken out
/// and shut down, and nothing else changes. Where it was gone already, what comes after a shutdown
/// comes at once: the peer manager is told, if it has to be.
pub open spec fn stops<W>(
    conn: ConnectionView<W>,
    reason: CloseReason,
    step: ReadStep<W>,
    next_phase: ReadPhase,
    next_conn: ConnectionView<W>,
) -> bool {
    &&& step.closing == Some(reason)
    &&& step.blocker is None
    &&& next_conn.writer is None
    &&& next_conn.read_blocker == conn.read_blocker
    &&& next_conn.read_paused == conn.read_paused
    &&& next_conn.need_disconnect_event == conn.need_disconnect_event
    &&& next_conn.disconnect == conn.disconnect
    &&& next_conn.id == conn.id
    &&& match conn.writer {
        Some(writer) => step.action == ReadAction::ShutdownWriter(writer) && next_phase is Closing,
        None => if conn.need_disconnect_event {
            step.action is CallSocketDisconnected && next_phase is Reporting
        } else {
            step.action is Finish && next_phase is Finished
        },
    }
}

/// An idle task stops reading in the very step in which it learns that the stream has ended or
/// that reading failed, whatever the state of the connection.
pub proof fn the_end_of_the_stream_stops_the_task<W>(
    conn: ConnectionView<W>,
    event: ReadEvent,
    step: ReadStep<W>,
    next_phase: ReadPhase,
    next_conn: ConnectionView<W>,
)
    requires
        event == ReadEvent::Read(0) || event is ReadFailed,
        step.decided(ReadPhase::Idle, conn, event, next_phase, next_conn),
    ensures
        event is Read ==> stops(conn, CloseReason::SocketClosed, step, next_phase, next_conn),
        event is ReadFailed ==> stops(
            conn,
            CloseReason::SocketFailed,
            step,
            next_phase,
            next_conn,
        ),
{
}

/// A task that is woken, unblocked or has read some data stops reading in that very step if a
/// disconnect was asked for, and hands nothing over.
pub proof fn a_disconnect_stops_the_task<W>(
    phase: ReadPhase,
    conn: ConnectionView<W>,
    event: ReadEvent,
    step: ReadStep<W>,
    next_phase: ReadPhase,
    next_conn: ConnectionView<W>,
)
    requires
        conn.disconnect,
        phase is Idle || phase is Blocked,
        phase.awaits(event),
        event != ReadEvent::Read(0),
        !(event is ReadFailed),
        step.decided(phase, conn, event, next_phase, next_conn),
    ensures
        stops(conn, CloseReason::DisconnectRequested, step, next_phase, next_conn),
{
}

/// When the peer manager has handled some data, the user is told, and then the task waits for
/// more. Reading is paused if the peer manager asked for that, and a pause that there was stays.
/// It does not matter that the user has not looked yet; but they must still listen.
pub proof fn handled_data_is_told_and_reading_goes_on<W>(
    conn: ConnectionView<W>,
    pause: bool,
    step: ReadStep<W>,
    next_phase: ReadPhase,
    next_conn: ConnectionView<W>,
    later: ConnectionView<W>,
    outcome: TrySend,
    second: ReadStep<W>,
    second_phase: ReadPhase,
    second_conn: ConnectionView<W>,
)
    requires
        step.decided(
            ReadPhase::Delivering,
            conn,
            ReadEvent::ReadHandled { pause_read: Some(pause) },
            next_phase,
            next_conn,
        ),
        second.decided(
            next_phase,
            later,
            ReadEvent::Notified(outcome),
            second_phase,
            second_conn,
        ),
    ensures
        step.action is NotifyEvent,
        step.closing is None,
        next_conn.read_paused == (conn.read_paused || pause),
        next_conn == (ConnectionView { read_paused: next_conn.read_paused, ..conn }),
        second.closing is None,
        second_conn == later,
        outcome is Closed ==> second.action is Abort && second_phase is Aborted,
        !(outcome is Closed) ==> second.action is Wait && second_phase is Idle,
{
}

/// When the peer manager gives up on the peer, over data or over room to write, the user is told,
/// and then the task stops reading, whether or not the user still listens. The closing does not
/// have to be reported any more.
pub proof fn an_error_is_told_and_stops_the_task<W>(
    phase: ReadPhase,
    conn: ConnectionView<W>,
    event: ReadEvent,
    step: ReadStep<W>,
    next_phase: ReadPhase,
    next_conn: ConnectionView<W>,
    later: ConnectionView<W>,
    outcome: TrySend,
    second: ReadStep<W>,
    second_phase: ReadPhase,
    second_conn: ConnectionView<W>,
)
    requires
        (phase is Delivering && event == (ReadEvent::ReadHandled { pause_read: None })) || (phase
            is Flushing && event == (ReadEvent::SpaceHandled { ok: false })),
        step.decided(phase, conn, event, next_phase, next_conn),
        second.decided(
            next_phase,
            later,
            ReadEvent::Notified(outcome),
            second_phase,
            second_conn,
        ),
    ensures
        step.action is NotifyEvent,
        step.closing is None,
        next_conn == (ConnectionView { need_disconnect_event: false, ..conn }),
        stops(later, CloseReason::PeerManagerError, second, second_phase, second_conn),
{
}

/// Once the socket is shut down, the peer manager is told if it has to be; then the user is told,
/// and that is all. If it does not have to be told, the task finishes at once.
pub proof fn a_shutdown_is_reported_if_need_be<W>(
    conn: ConnectionView<W>,
    step: ReadStep<W>,
    next_phase: ReadPhase,
    next_conn: ConnectionView<W>,
)
    requires
        step.decided(
            ReadPhase::Closing,
            conn,
            ReadEvent::WriterShutDown,
            next_phase,
            next_conn,
        ),
    ensures
        next_conn == conn,
        step.closing is None,
        conn.need_disconnect_event ==> step.action is CallSocketDisconnected
            && next_phase is Reporting,
        !conn.need_disconnect_event ==> step.action is Finish && next_phase is Finished,
{
}

/// After the peer manager was told of the closing, the user is told, and the task finishes.
pub proof fn a_report_is_told_and_ends_the_task<W>(
    conn: ConnectionView<W>,
    step: ReadStep<W>,
    next_phase: ReadPhase,
    next_conn: ConnectionView<W>,
    later: ConnectionView<W>,
    outcome: TrySend,
    second: ReadStep<W>,
    second_phase: ReadPhase,
    second_conn: ConnectionView<W>,
)
    requires
        step.decided(ReadPhase::Reporting, conn, ReadEvent::Reported, next_phase, next_conn),
        second.decided(
            next_phase,
            later,
            ReadEvent::Notified(outcome),
            second_phase,
            second_conn,
        ),
    ensures
        step.action is NotifyEvent,
        step.closing is None,
        next_conn == conn,
        second.closing is None,
        second_conn == later,
        outcome is Closed ==> second.action is Abort && second_phase is Aborted,
        !(outcome is Closed) ==> second.action is Finish && second_phase is Finished,
{
}

/// No step of the reading task changes the number of a connection, asks for a disconnect, lifts a
/// pause, or makes a closing be reported that was not to be. A writer leaves the connection only
/// to be shut down. Reading is paused only because the peer manager asked for it. The task aborts
/// only if nobody listens for events.
pub proof fn steps_leave_the_rest_alone<W>(
    phase: ReadPhase,
    conn: ConnectionView<W>,
    event: ReadEvent,
    step: ReadStep<W>,
    next_phase: ReadPhase,
    next_conn: ConnectionView<W>,
)
    requires
        phase.awaits(event),
        step.decided(phase, conn, event, next_phase, next_conn),
    ensures
        next_conn.id == conn.id,
        next_conn.disconnect == conn.disconnect,
        next_conn.need_disconnect_event ==> conn.need_disconnect_event,
        conn.need_disconnect_event && !next_conn.need_disconnect_event ==> event
            == (ReadEvent::SpaceHandled { ok: false }) || event == (ReadEvent::ReadHandled {
            pause_read: None,
        }),
        next_conn.writer != conn.writer ==> {
            &&& next_conn.writer is None
            &&& conn.writer matches Some(writer)
            &&& step.action == ReadAction::ShutdownWriter(writer)
        },
        step.action matches ReadAction::ShutdownWriter(writer) ==> conn.writer == Some(writer)
            && next_conn.writer is None,
        conn.read_paused ==> next_conn.read_paused,
        next_conn.read_paused && !conn.read_paused ==> event == (ReadEvent::ReadHandled {
            pause_read: Some(true),
        }),
        step.action is Abort ==> event == ReadEvent::Notified(TrySend::Closed),
        step.action is CallSocketDisconnected ==> conn.need_disconnect_event,
{
}

/// Whatever the reading task is told to do, it can then take whatever comes of it, and nothing
/// else: a wait ends with a wake-up, with as much data as there is room for, or with a failure;
/// and each call, however it ends, with its end.
pub proof fn the_task_can_take_whatever_comes<W>(
    phase: ReadPhase,
    conn: ConnectionView<W>,
    event: ReadEvent,
    step: ReadStep<W>,
    next_phase: ReadPhase,
    next_conn: ConnectionView<W>,
    next: ReadEvent,
)
    requires
        phase.awaits(event),
        step.decided(phase, conn, event, next_phase, next_conn),
    ensures
        next_phase.awaits(next) <==> match step.action {
            ReadAction::Wait => {
                ||| next is WriteAvail
                ||| next is ReadFailed
                ||| next matches ReadEvent::Read(len) && len <= READ_BUFFER_LEN
            },
            ReadAction::WaitBlocked => next is WriteAvail || next is Unblocked,
            ReadAction::CallWriteBufferSpaceAvail => next is SpaceHandled,
            ReadAction::CallReadEvent { .. } => next is ReadHandled,
            ReadAction::NotifyEvent => next is Notified,
            ReadAction::ShutdownWriter(_) => next is WriterShutDown,
            ReadAction::CallSocketDisconnected => next is Reported,
            ReadAction::Finish => false,
            ReadAction::Abort => false,
        },
{
}

/// At the start, the reading task can take a wake-up, as much data as there is room for, or a
/// failure, and nothing else.
pub proof fn the_task_starts_by_waiting(event: ReadEvent)
    ensures
        ReadPhase::Idle.awaits(event) <==> {
            ||| event is WriteAvail
            ||| event is ReadFailed
            ||| event matches ReadEvent::Read(len) && len <= READ_BUFFER_LEN
        },
        READ_BUFFER_LEN == 8192,
{
}

/// A connection is dropped without a word just if the peer manager did not accept it. Else, on one
/// that a peer made, we read; and on one that we made, we send first, which resumes reading, and
/// then read if all of the message went out. If not, the peer manager is told.
pub proof fn connections_get_under_way(
    accepted: bool,
    inbound: SetupStep,
    outbound: SetupStep,
    len: usize,
    written: usize,
    sent: SetupStep,
)
    requires
        call_ensures(setup::setup_inbound, (accepted,), inbound),
        call_ensures(setup::setup_outbound, (accepted,), outbound),
        call_ensures(setup::initial_send_ended, (len, written), sent),
    ensures
        inbound is Abandon <==> !accepted,
        outbound is Abandon <==> !accepted,
        accepted ==> inbound is StartReading,
        accepted ==> outbound == (SetupStep::SendInitial { resume_read: true }),
        written == len ==> sent is StartReading,
        written != len ==> sent is ReportDisconnect,
{
}

/// Connecting gives a socket just if there was one in time, and then that one.
pub proof fn connecting_gives_the_socket<S>(
    outcome: ConnectOutcome<S>,
    stream: Option<S>,
    socket: S,
)
    requires
        call_ensures(setup::connect_outbound::<S>, (outcome,), stream),
    ensures
        stream == Some(socket) <==> outcome == ConnectOutcome::Connected(socket),
        stream is Some <==> outcome is Connected,
{
}

/// The limits of a user who has set none, by themselves or among the settings, rule nothing out.
pub proof fn new_settings_rule_nothing_out(
    limits: ChannelLimits,
    settings: UserConfigurations,
    amount: u64,
    count: u16,
)
    requires
        call_ensures(ChannelLimits::new, (), limits),
        call_ensures(UserConfigurations::new, (), settings),
    ensures
        settings.channel_limits == limits,
        limits.funding_satoshis <= amount <= limits.htlc_minimum_msat,
        limits.max_htlc_value_in_flight_msat <= amount <= limits.channel_reserve_satoshis,
        limits.dust_limit_satoshis <= amount,
        limits.max_accepted_htlcs <= count,
{
}

} // verus!
