//! What holds of a connection whatever happens to it.
use crate::connection::ConnectionView;
use crate::connection::WRITE_AVAIL_DEPTH;
use crate::history;
use crate::history::History;
use crate::history::Turn;
use crate::reading::AfterNotice;
use crate::reading::ReadAction;
use crate::reading::ReadEvent;
use crate::reading::ReadPhase;
use crate::reading::ReadStep;
use crate::reading::READ_BUFFER_LEN;
use crate::sending::SendStep;
use tokio::sync::oneshot;
use vstd::prelude::*;

verus! {

/// Each step that the reading task takes is a turn that a history allows, and what it then has to
/// hand to the peer manager is the front of its buffer. `buf` is what is in the buffer; only
/// reading from the socket changes that. It is left to tokio that a wake-up comes out of the queue
/// only if one is in it, that the task is told of resumed reading only if a send has signalled it,
/// and that nothing was sent yet into a channel that was just made.
pub proof fn steps_are_turns<W>(
    history: History<W>,
    event: ReadEvent,
    buf: Seq<u8>,
    step: ReadStep<W>,
    phase: ReadPhase,
    conn: ConnectionView<W>,
) -> (blocker: oneshot::Sender<()>)
    requires
        history.phase.awaits(event),
        event is Read || buf == history.buf,
        event is Read ==> buf.len() == READ_BUFFER_LEN,
        event is WriteAvail ==> history.queued > 0,
        event is Unblocked ==> {
            &&& history.awaited matches Some(sender)
            &&& history.signalled.contains(sender)
        },
        step.decided(history.phase, history.conn, event, phase, conn),
        step.action is WaitBlocked ==> {
            &&& conn.read_blocker matches Some(sender)
            &&& !history.signalled.contains(sender)
        },
    ensures
        history.allows(Turn::Read { event, blocker, filled: buf }),
        history.decision(event, blocker).action == step.action,
        history.reads(event, blocker, buf).phase == phase,
        history.reads(event, blocker, buf).conn == conn,
        history.reads(event, blocker, buf).buf == buf,
        history.reads(event, blocker, buf).delivered == match step.action {
            ReadAction::CallReadEvent { len } => history.delivered.push(buf.take(len as int)),
            _ => history.delivered,
        },
        step.action is WaitBlocked ==> conn.read_blocker == Some(blocker),
{
    match conn.read_blocker {
        Some(blocker) => blocker,
        None => arbitrary(),
    }
}

/// Some things never come back: a connection keeps its number, a request to disconnect is never
/// taken back, a socket that was shut down stays shut down, and once the peer manager does not
/// have to be told of the closing it never has to be.
pub proof fn what_is_over_stays_over<W>(history: History<W>, turns: Seq<Turn>)
    requires
        history.allows_all(turns),
    ensures
        history.after(turns).conn.id == history.conn.id,
        history.conn.disconnect ==> history.after(turns).conn.disconnect,
        history.conn.writer is None ==> history.after(turns).conn.writer is None,
        !history.conn.need_disconnect_event ==> !history.after(turns).conn.need_disconnect_event,
    decreases turns.len(),
{
    if turns.len() > 0 {
        what_is_over_stays_over(history, turns.drop_last());
    }
}

/// In every state that a connection can get into, a disconnect that the peer manager asked for is
/// not going to be reported back to it.
pub proof fn connections_stay_well_formed<W>(history: History<W>, turns: Seq<Turn>)
    requires
        history.conn.well_formed(),
        history.allows_all(turns),
    ensures
        history.after(turns).conn.well_formed(),
    decreases turns.len(),
{
    if turns.len() > 0 {
        connections_stay_well_formed(history, turns.drop_last());
    }
}

/// Once a connection is shut down, sends do nothing: whatever happened since, they write nothing,
/// change nothing and wake nobody.
pub proof fn sends_after_shutdown_do_nothing<W>(
    history: History<W>,
    turns: Seq<Turn>,
    len: nat,
    resume_read: bool,
)
    requires
        history.conn.writer is None,
        history.allows_all(turns),
    ensures
        history.after(turns).conn.first_step(len) == (SendStep::Done { written: 0 }),
        history.after(turns).conn.sending(resume_read) == history.after(turns).conn,
        history.after(turns).conn.woken_by_send(resume_read) is None,
{
    what_is_over_stays_over(history, turns);
}

/// Whether the reading task has stopped reading.
pub open spec fn stopped(phase: ReadPhase) -> bool {
    match phase {
        ReadPhase::Closing => true,
        ReadPhase::Reporting => true,
        ReadPhase::Notifying { then } => then != AfterNotice::ReadOn,
        ReadPhase::Finished => true,
        ReadPhase::Aborted => true,
        _ => false,
    }
}

/// What is read from the socket is handed to the peer manager in order, each piece once and none
/// left out. As long as the connection is not closed, all of it has been, but for a piece that is
/// held back; when it is closed, at most one piece has not been. All of it has been where the
/// connection was closed because the stream ended or reading failed: that is, where the peer
/// manager neither asked for a disconnect nor gave up on the peer.
pub proof fn pieces_are_delivered_in_order<W>(writer: W, id: u64, turns: Seq<Turn>)
    requires
        History::start(writer, id).allows_all(turns),
    ensures
        ({
            let history = History::start(writer, id).after(turns);
            &&& !stopped(history.phase) ==> history.read == match history.phase.in_hand() {
                Some(len) => history.delivered.push(history.buf.take(len as int)),
                None => history.delivered,
            }
            &&& stopped(history.phase) ==> {
                ||| history.read == history.delivered
                ||| history.read.len() > 0 && history.read.drop_last() == history.delivered
            }
            &&& stopped(history.phase) && !history.conn.disconnect && history.failures == 0
                ==> history.read == history.delivered
        }),
    decreases turns.len(),
{
    if turns.len() > 0 {
        pieces_are_delivered_in_order(writer, id, turns.drop_last());
        let before = History::start(writer, id).after(turns.drop_last());
        if let Some(len) = before.phase.in_hand() {
            assert(before.delivered.push(before.buf.take(len as int)).drop_last()
                =~= before.delivered);
        }
        if let Turn::Read { event: ReadEvent::Read(len), filled, .. } = turns.last() {
            assert(before.read.push(filled.take(len as int)).drop_last() =~= before.read);
        }
    }
}

/// Each piece that is handed to the peer manager has at least one byte, and no more than are read
/// at a time.
pub proof fn pieces_fit_the_buffer<W>(writer: W, id: u64, turns: Seq<Turn>)
    requires
        History::start(writer, id).allows_all(turns),
    ensures
        ({
            let history = History::start(writer, id).after(turns);
            &&& history.phase.well_formed()
            &&& history.buf.len() == READ_BUFFER_LEN
            &&& forall|i: int|
                0 <= i < history.delivered.len() ==> 0 < (#[trigger] history.delivered[i]).len()
                    <= READ_BUFFER_LEN
        }),
    decreases turns.len(),
{
    if turns.len() > 0 {
        pieces_fit_the_buffer(writer, id, turns.drop_last());
    }
}

/// The bytes that are handed to the peer manager are the bytes that were read from the socket, up
/// to some point: none is lost, repeated, moved or made up. They are all of them where the
/// connection was closed because the stream ended or reading failed.
pub proof fn bytes_are_delivered_in_order<W>(writer: W, id: u64, turns: Seq<Turn>)
    requires
        History::start(writer, id).allows_all(turns),
    ensures
        ({
            let history = History::start(writer, id).after(turns);
            &&& history::joined(history.delivered).is_prefix_of(history::joined(history.read))
            &&& stopped(history.phase) && !history.conn.disconnect && history.failures == 0
                ==> history::joined(history.delivered) == history::joined(history.read)
        }),
{
    pieces_are_delivered_in_order(writer, id, turns);
    let history = History::start(writer, id).after(turns);
    if history.read != history.delivered {
        if let Some(len) = history.phase.in_hand() {
            assert(history.delivered.push(history.buf.take(len as int)).drop_last()
                =~= history.delivered);
        }
        assert(history.read.drop_last() == history.delivered);
    }
}

/// Whether the reading task will not call the peer manager again: because it has told it of the
/// closing or has finished; or because it does not have to tell it of the closing and has stopped
/// reading, or is about to as the socket is to be disconnected. It does hand over what it holds
/// back while the peer manager takes notice of room to write.
pub open spec fn quiet<W>(history: History<W>) -> bool {
    ||| history.phase is Reporting || history.phase is Finished || history.phase is Aborted
    ||| history.phase == (ReadPhase::Notifying { then: AfterNotice::Finish })
    ||| !history.conn.need_disconnect_event && stopped(history.phase)
    ||| {
        &&& !history.conn.need_disconnect_event
        &&& history.conn.disconnect
        &&& !(history.phase is Flushing && history.phase.in_hand() is Some)
    }
}

/// A quiet reading task stays quiet, and does not call the peer manager.
proof fn quiet_stays_quiet<W>(history: History<W>, turns: Seq<Turn>)
    requires
        quiet(history),
        history.allows_all(turns),
    ensures
        quiet(history.after(turns)),
        history.after(turns).calls == history.calls,
    decreases turns.len(),
{
    if turns.len() > 0 {
        quiet_stays_quiet(history, turns.drop_last());
    }
}

/// After a request to disconnect the socket, the reading task does not call the peer manager
/// again, and in particular does not tell it of the closing. The exception is a task that holds
/// some data back while the peer manager takes notice of room to write: it still hands that over.
pub proof fn no_calls_after_disconnect<W>(history: History<W>, turns: Seq<Turn>)
    requires
        !(history.phase is Flushing && history.phase.in_hand() is Some),
        history.then_turn(Turn::Disconnect).allows_all(turns),
    ensures
        history.then_turn(Turn::Disconnect).after(turns).calls == history.calls,
{
    quiet_stays_quiet(history.then_turn(Turn::Disconnect), turns);
}

/// A task that is woken, reads some data or is unblocked after a request to disconnect the socket
/// stops reading.
pub proof fn a_disconnect_is_noticed<W>(
    history: History<W>,
    event: ReadEvent,
    blocker: oneshot::Sender<()>,
    filled: Seq<u8>,
)
    requires
        history.conn.disconnect,
        history.phase is Idle || history.phase is Blocked,
        history.allows(Turn::Read { event, blocker, filled }),
    ensures
        stopped(history.reads(event, blocker, filled).phase),
        history.decision(event, blocker).closing is Some,
{
}

/// Once the peer manager has given up on the peer with an error, the reading task stops reading
/// and does not call the peer manager again, nor tell it of the closing. It does tell the user.
pub proof fn no_calls_after_error<W>(
    history: History<W>,
    event: ReadEvent,
    blocker: oneshot::Sender<()>,
    filled: Seq<u8>,
    turns: Seq<Turn>,
)
    requires
        event == (ReadEvent::SpaceHandled { ok: false }) || event == (ReadEvent::ReadHandled {
            pause_read: None,
        }),
        history.allows(Turn::Read { event, blocker, filled }),
        history.reads(event, blocker, filled).allows_all(turns),
    ensures
        stopped(history.reads(event, blocker, filled).phase),
        history.decision(event, blocker).action is NotifyEvent,
        history.reads(event, blocker, filled).after(turns).calls == history.calls,
{
    quiet_stays_quiet(history.reads(event, blocker, filled), turns);
}

/// Where the reading task can stand once the peer manager has given up on the peer.
proof fn giving_up_leads_to_the_end<W>(history: History<W>, turns: Seq<Turn>)
    requires
        !history.conn.need_disconnect_event,
        history.phase == (ReadPhase::Notifying { then: AfterNotice::GiveUp }),
        history.allows_all(turns),
    ensures
        ({
            let later = history.after(turns);
            &&& !later.conn.need_disconnect_event
            &&& {
                ||| later.phase == (ReadPhase::Notifying { then: AfterNotice::GiveUp })
                ||| later.phase is Closing && later.conn.writer is None
                ||| later.phase is Finished && later.conn.writer is None
            }
        }),
    decreases turns.len(),
{
    if turns.len() > 0 {
        giving_up_leads_to_the_end(history, turns.drop_last());
    }
}

/// Once the peer manager has given up on the peer with an error, the reading task never aborts,
/// whether or not the user still listens for events: it tells the user, shuts the socket down and
/// finishes. When it has told the user, the connection has no writer any more.
pub proof fn an_error_ends_in_a_shutdown<W>(
    history: History<W>,
    event: ReadEvent,
    blocker: oneshot::Sender<()>,
    filled: Seq<u8>,
    turns: Seq<Turn>,
)
    requires
        event == (ReadEvent::SpaceHandled { ok: false }) || event == (ReadEvent::ReadHandled {
            pause_read: None,
        }),
        history.allows(Turn::Read { event, blocker, filled }),
        history.reads(event, blocker, filled).allows_all(turns),
    ensures
        ({
            let later = history.reads(event, blocker, filled).after(turns);
            &&& !(later.phase is Aborted)
            &&& {
                ||| later.phase == (ReadPhase::Notifying { then: AfterNotice::GiveUp })
                ||| later.phase is Closing && later.conn.writer is None
                ||| later.phase is Finished && later.conn.writer is None
            }
        }),
{
    giving_up_leads_to_the_end(history.reads(event, blocker, filled), turns);
}

/// A reading task that has finished has shut the socket down.
pub proof fn a_finished_task_has_shut_down<W>(writer: W, id: u64, turns: Seq<Turn>)
    requires
        History::start(writer, id).allows_all(turns),
    ensures
        ({
            let history = History::start(writer, id).after(turns);
            history.phase is Finished ==> history.conn.writer is None
        }),
{
    reports_follow_the_phase(writer, id, turns);
}

/// The peer manager is told of the closing only if it neither asked for the socket to be
/// disconnected nor gave up on the peer.
pub proof fn a_known_closing_is_not_reported<W>(
    writer: W,
    id: u64,
    turns: Seq<Turn>,
    event: ReadEvent,
    blocker: oneshot::Sender<()>,
    filled: Seq<u8>,
)
    requires
        History::start(writer, id).allows_all(turns),
        History::start(writer, id).after(turns).allows(Turn::Read { event, blocker, filled }),
    ensures
        ({
            let history = History::start(writer, id).after(turns);
            history.decision(event, blocker).action is CallSocketDisconnected
                ==> !history.conn.disconnect && history.failures == 0
        }),
{
    closing_needs_a_report_unless_known(writer, id, turns);
}

/// The peer manager has to be told of the closing just as long as it neither asked for the socket
/// to be disconnected nor gave up on the peer.
pub proof fn closing_needs_a_report_unless_known<W>(writer: W, id: u64, turns: Seq<Turn>)
    requires
        History::start(writer, id).allows_all(turns),
    ensures
        ({
            let history = History::start(writer, id).after(turns);
            history.conn.need_disconnect_event <==> !history.conn.disconnect && history.failures
                == 0
        }),
    decreases turns.len(),
{
    if turns.len() > 0 {
        closing_needs_a_report_unless_known(writer, id, turns.drop_last());
    }
}

/// The peer manager is told of the closing at most once, and not before the socket is shut down.
/// Where the reading task has finished without telling it, it had asked for the socket to be
/// disconnected, or had given up on the peer.
pub proof fn closing_is_reported_once<W>(writer: W, id: u64, turns: Seq<Turn>)
    requires
        History::start(writer, id).allows_all(turns),
    ensures
        ({
            let history = History::start(writer, id).after(turns);
            &&& history.reports <= 1
            &&& history.reports == 1 ==> history.conn.writer is None
            &&& history.phase is Finished && history.reports == 0 ==> history.conn.disconnect
                || history.failures > 0
        }),
{
    reports_follow_the_phase(writer, id, turns);
    closing_needs_a_report_unless_known(writer, id, turns);
}

/// How often the peer manager was told of the closing, by where the reading task stands.
proof fn reports_follow_the_phase<W>(writer: W, id: u64, turns: Seq<Turn>)
    requires
        History::start(writer, id).allows_all(turns),
    ensures
        ({
            let history = History::start(writer, id).after(turns);
            &&& stopped(history.phase) ==> {
                ||| history.conn.writer is None
                ||| history.phase is Aborted
                ||| history.phase == (ReadPhase::Notifying { then: AfterNotice::GiveUp })
            }
            &&& history.reports == 1 ==> history.conn.writer is None
            &&& match history.phase {
                ReadPhase::Reporting => history.reports == 1,
                ReadPhase::Notifying { then } => history.reports == if then
                    == AfterNotice::Finish {
                    1nat
                } else {
                    0nat
                },
                ReadPhase::Finished => history.reports == 1 || {
                    &&& history.reports == 0
                    &&& !history.conn.need_disconnect_event
                },
                ReadPhase::Aborted => history.reports <= 1,
                _ => history.reports == 0,
            }
        }),
    decreases turns.len(),
{
    if turns.len() > 0 {
        reports_follow_the_phase(writer, id, turns.drop_last());
    }
}

/// After the peer manager was told of the closing it is not called again.
pub proof fn no_calls_after_report<W>(history: History<W>, turns: Seq<Turn>)
    requires
        history.phase is Reporting,
        history.allows_all(turns),
    ensures
        history.after(turns).calls == history.calls,
{
    quiet_stays_quiet(history, turns);
}

/// The user is told each time that something happened which may result in events, and at no other
/// time: each time that the peer manager handled some data, gave up on the peer, or took notice
/// of the closing.
pub proof fn the_user_is_told_of_events<W>(history: History<W>, turns: Seq<Turn>)
    requires
        history.allows_all(turns),
    ensures
        history.after(turns).notices - history.notices == (history.after(turns).handled
            - history.handled) + (history.after(turns).failures - history.failures),
    decreases turns.len(),
{
    if turns.len() > 0 {
        the_user_is_told_of_events(history, turns.drop_last());
    }
}

/// A reading task that waits for reading to be resumed can always be told: either what a send has
/// to signal still is in the connection, or a send has signalled it. It is never dropped unused.
pub proof fn no_waiting_reader_is_forgotten<W>(writer: W, id: u64, turns: Seq<Turn>)
    requires
        History::start(writer, id).allows_all(turns),
    ensures
        ({
            let history = History::start(writer, id).after(turns);
            history.phase is Blocked ==> {
                &&& history.awaited matches Some(sender)
                &&& history.conn.read_blocker == Some(sender) || history.signalled.contains(sender)
            }
        }),
    decreases turns.len(),
{
    if turns.len() > 0 {
        no_waiting_reader_is_forgotten(writer, id, turns.drop_last());
    }
}

/// As long as the reading task has not stopped reading, the connection has its writer.
pub proof fn a_reading_connection_can_be_written_to<W>(writer: W, id: u64, turns: Seq<Turn>)
    requires
        History::start(writer, id).allows_all(turns),
    ensures
        ({
            let history = History::start(writer, id).after(turns);
            !stopped(history.phase) ==> history.conn.writer == Some(writer)
        }),
    decreases turns.len(),
{
    if turns.len() > 0 {
        a_reading_connection_can_be_written_to(writer, id, turns.drop_last());
    }
}

/// As long as the reading task has not stopped reading, a send that resumes reading wakes it if it
/// waits for that and was not woken already; and what is read from then on does not have to wait.
pub proof fn a_resuming_send_wakes_the_reader<W>(writer: W, id: u64, turns: Seq<Turn>)
    requires
        History::start(writer, id).allows_all(turns),
        !stopped(History::start(writer, id).after(turns).phase),
    ensures
        ({
            let history = History::start(writer, id).after(turns).then_turn(
                Turn::Send { resume_read: true },
            );
            &&& !history.conn.read_paused
            &&& history.conn.read_blocker is None
            &&& history.phase is Blocked ==> {
                &&& history.awaited matches Some(sender)
                &&& history.signalled.contains(sender)
            }
        }),
{
    no_waiting_reader_is_forgotten(writer, id, turns);
    a_reading_connection_can_be_written_to(writer, id, turns);
}

/// Whether this turn is a send that resumes reading.
pub open spec fn resumes(turn: Turn) -> bool {
    turn == (Turn::Send { resume_read: true })
}

/// Whether this turn is a step of the reading task because of a wake-up.
pub open spec fn is_wake_up(turn: Turn) -> bool {
    turn matches Turn::Read { event, .. } && event is WriteAvail
}

/// Reading stays paused until a send resumes it.
pub proof fn a_pause_lasts<W>(history: History<W>, turns: Seq<Turn>)
    requires
        history.conn.read_paused,
        history.allows_all(turns),
        forall|i: int| 0 <= i < turns.len() ==> !resumes(#[trigger] turns[i]),
    ensures
        history.after(turns).conn.read_paused,
    decreases turns.len(),
{
    if turns.len() > 0 {
        let rest = turns.drop_last();
        assert forall|i: int| 0 <= i < rest.len() implies !resumes(#[trigger] rest[i]) by {
            assert(rest[i] == turns[i]);
        }
        a_pause_lasts(history, rest);
        assert(!resumes(turns[turns.len() - 1]));
    }
}

/// While reading is paused, nothing that is read is handed to the peer manager: not before a send
/// resumes reading, or the reading task is woken for another reason.
pub proof fn paused_data_waits<W>(history: History<W>, turns: Seq<Turn>)
    requires
        history.conn.read_paused,
        history.phase is Idle,
        history.allows_all(turns),
        forall|i: int|
            0 <= i < turns.len() ==> !resumes(#[trigger] turns[i]) && !is_wake_up(turns[i]),
    ensures
        history.after(turns).delivered == history.delivered,
{
    paused_data_is_held_back(history, turns);
}

/// Where the reading task stands while reading is paused and it is not woken.
proof fn paused_data_is_held_back<W>(history: History<W>, turns: Seq<Turn>)
    requires
        history.conn.read_paused,
        history.phase is Idle,
        history.allows_all(turns),
        forall|i: int|
            0 <= i < turns.len() ==> !resumes(#[trigger] turns[i]) && !is_wake_up(turns[i]),
    ensures
        ({
            let later = history.after(turns);
            &&& later.conn.read_paused
            &&& later.delivered == history.delivered
            &&& later.phase is Idle || later.phase is Blocked || stopped(later.phase)
            &&& later.phase is Blocked ==> {
                &&& later.awaited matches Some(sender)
                &&& !later.signalled.contains(sender)
            }
        }),
    decreases turns.len(),
{
    if turns.len() > 0 {
        let rest = turns.drop_last();
        assert forall|i: int| 0 <= i < rest.len() implies !resumes(#[trigger] rest[i])
            && !is_wake_up(rest[i]) by {
            assert(rest[i] == turns[i]);
        }
        paused_data_is_held_back(history, rest);
        assert(!resumes(turns[turns.len() - 1]) && !is_wake_up(turns[turns.len() - 1]));
    }
}

/// A queue of this depth is enough. When the peer manager is told that there is room to write,
/// there is a place for another wake-up, should the write that follows not be full; and a
/// wake-up that finds no place comes upon one that is yet to be looked at.
pub proof fn the_queue_of_wake_ups_is_deep_enough<W>(
    writer: W,
    id: u64,
    turns: Seq<Turn>,
    event: ReadEvent,
    blocker: oneshot::Sender<()>,
    filled: Seq<u8>,
)
    requires
        History::start(writer, id).allows_all(turns),
        History::start(writer, id).after(turns).allows(Turn::Read { event, blocker, filled }),
    ensures
        ({
            let history = History::start(writer, id).after(turns);
            &&& history.decision(event, blocker).action is CallWriteBufferSpaceAvail
                ==> history.reads(event, blocker, filled).queued < WRITE_AVAIL_DEPTH
            &&& history.then_turn(Turn::Wake).queued > 0
        }),
{
    the_queue_of_wake_ups_keeps_to_its_depth(writer, id, turns);
}

/// No more wake-ups are queued than there is room for.
proof fn the_queue_of_wake_ups_keeps_to_its_depth<W>(writer: W, id: u64, turns: Seq<Turn>)
    requires
        History::start(writer, id).allows_all(turns),
    ensures
        History::start(writer, id).after(turns).queued <= WRITE_AVAIL_DEPTH,
    decreases turns.len(),
{
    if turns.len() > 0 {
        the_queue_of_wake_ups_keeps_to_its_depth(writer, id, turns.drop_last());
    }
}

/// From a request to disconnect the socket until the reading task stops reading, a wake-up is
/// queued for it: it does not sleep through the request.
pub proof fn a_disconnect_wakes_the_reader<W>(writer: W, id: u64, turns: Seq<Turn>)
    requires
        History::start(writer, id).allows_all(turns),
    ensures
        ({
            let history = History::start(writer, id).after(turns);
            history.conn.disconnect && !stopped(history.phase) ==> history.queued > 0
        }),
    decreases turns.len(),
{
    if turns.len() > 0 {
        a_disconnect_wakes_the_reader(writer, id, turns.drop_last());
    }
}

/// The peer manager is told of room to write once for each wake-up that the reading task takes off
/// the queue while no disconnect was asked for, and at no other time.
pub proof fn each_wake_up_is_passed_on<W>(history: History<W>, turns: Seq<Turn>)
    requires
        history.allows_all(turns),
    ensures
        history.after(turns).flushes - history.flushes == history.after(turns).wake_ups
            - history.wake_ups,
    decreases turns.len(),
{
    if turns.len() > 0 {
        each_wake_up_is_passed_on(history, turns.drop_last());
    }
}

/// What an idle task reads while reading is not paused and no disconnect was asked for is the next
/// thing that is handed to the peer manager, in the same turn.
pub proof fn unpaused_data_does_not_wait<W>(
    history: History<W>,
    len: usize,
    blocker: oneshot::Sender<()>,
    filled: Seq<u8>,
)
    requires
        history.phase is Idle,
        len > 0,
        !history.conn.read_paused,
        !history.conn.disconnect,
        history.allows(Turn::Read { event: ReadEvent::Read(len), blocker, filled }),
    ensures
        history.reads(ReadEvent::Read(len), blocker, filled).delivered == history.delivered.push(
            filled.take(len as int),
        ),
{
}

} // verus!
