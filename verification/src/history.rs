//! What can happen to a connection over time, and what holds throughout.
//!
//! The reading task, the sends of the peer manager and its request to disconnect take turns in
//! any order. A [`History`] keeps a record of the turns so far, which the laws speak of.
use crate::connection::ConnectionView;
use crate::connection::WRITE_AVAIL_DEPTH;
use crate::reading::ReadAction;
use crate::reading::ReadDecision;
use crate::reading::ReadEvent;
use crate::reading::ReadPhase;
use crate::reading::READ_BUFFER_LEN;
use crate::sending::WriteOutcome;
use tokio::sync::oneshot;
use vstd::prelude::*;

verus! {

/// One turn.
pub enum Turn {
    /// The reading task takes a step.
    Read {
        /// What happened.
        event: ReadEvent,
        /// Where a send finds the task, should it now wait for reading to be resumed.
        blocker: oneshot::Sender<()>,
        /// What then is in the buffer of the task, if data was read.
        filled: Seq<u8>,
    },
    /// A send begins.
    Send {
        /// Whether it resumes reading.
        resume_read: bool,
    },
    /// A write of a send ends.
    Write {
        /// How it ended.
        outcome: WriteOutcome,
    },
    /// The socket has room to write again.
    Wake,
    /// The peer manager asks for the socket to be disconnected.
    Disconnect,
}

/// A connection, where its reading task stands, and a record of what happened so far.
pub struct History<W> {
    pub phase: ReadPhase,
    pub conn: ConnectionView<W>,
    /// How many wake-ups of the reading task are queued. That a queue works like this (a wake-up
    /// goes in where there is room, stays until it is taken out, and is then gone) is how tokio
    /// describes it, and is taken for granted here: no contract ties this count to the handle
    /// `write_avail` of a connection.
    pub queued: nat,
    /// Where a send finds the reading task, as of the last time it had to wait.
    pub awaited: Option<oneshot::Sender<()>>,
    /// What sends have sent into.
    pub signalled: Set<oneshot::Sender<()>>,
    /// What is in the buffer of the reading task.
    pub buf: Seq<u8>,
    /// What was read from the socket, piece by piece.
    pub read: Seq<Seq<u8>>,
    /// What was handed to the peer manager, piece by piece.
    pub delivered: Seq<Seq<u8>>,
    /// How often the reading task called the peer manager.
    pub calls: nat,
    /// How often it was woken while no disconnect was asked for.
    pub wake_ups: nat,
    /// How often it told the peer manager that there is room to write.
    pub flushes: nat,
    /// How often it told the peer manager that the socket is closed.
    pub reports: nat,
    /// How often the peer manager gave up on the peer with an error.
    pub failures: nat,
    /// How often the peer manager handled some data, or took notice of the closing.
    pub handled: nat,
    /// How often the user was told that there may be events.
    pub notices: nat,
}

/// The pieces, one after the other.
pub open spec fn joined(pieces: Seq<Seq<u8>>) -> Seq<u8>
    decreases pieces.len(),
{
    if pieces.len() == 0 {
        Seq::empty()
    } else {
        joined(pieces.drop_last()) + pieces.last()
    }
}

impl<W> History<W> {
    /// A new connection whose reading task has just been started.
    pub open spec fn start(writer: W, id: u64) -> Self {
        History {
            phase: ReadPhase::Idle,
            conn: ConnectionView::fresh(writer, id),
            queued: 0,
            awaited: None,
            signalled: Set::empty(),
            buf: Seq::new(READ_BUFFER_LEN as nat, |i: int| 0u8),
            read: Seq::empty(),
            delivered: Seq::empty(),
            calls: 0,
            wake_ups: 0,
            flushes: 0,
            reports: 0,
            failures: 0,
            handled: 0,
            notices: 0,
        }
    }

    /// How many wake-ups are queued after one more. One for which there is no room is not needed.
    pub open spec fn queued_after_wake(self) -> nat {
        if self.queued < WRITE_AVAIL_DEPTH {
            self.queued + 1
        } else {
            self.queued
        }
    }

    /// Whether this turn can come next. What the reading task leaves for a send to find is new;
    /// the task can only be told that reading was resumed if a send has sent into it, and can
    /// only be woken if a wake-up is queued.
    pub open spec fn allows(self, turn: Turn) -> bool {
        match turn {
            Turn::Read { event, blocker, filled } => {
                &&& self.phase.awaits(event)
                &&& event is Read ==> filled.len() == READ_BUFFER_LEN
                &&& self.decision(event, blocker).action is WaitBlocked ==> !self.signalled.contains(
                    blocker,
                )
                &&& event is WriteAvail ==> self.queued > 0
                &&& event is Unblocked ==> {
                    &&& self.awaited matches Some(sender)
                    &&& self.signalled.contains(sender)
                }
            },
            _ => true,
        }
    }

    /// What the reading task decides.
    pub open spec fn decision(self, event: ReadEvent, blocker: oneshot::Sender<()>) -> ReadDecision<
        W,
    > {
        ReadDecision::of(self.phase, self.conn, event, Some(blocker))
    }

    /// The history with one more turn of the reading task.
    pub open spec fn reads(
        self,
        event: ReadEvent,
        blocker: oneshot::Sender<()>,
        filled: Seq<u8>,
    ) -> Self {
        let decision = self.decision(event, blocker);
        let buf = if event is Read {
            filled
        } else {
            self.buf
        };
        History {
            phase: decision.phase,
            conn: decision.conn,
            queued: if event is WriteAvail {
                (self.queued - 1) as nat
            } else {
                self.queued
            },
            awaited: if decision.action is WaitBlocked {
                Some(blocker)
            } else {
                self.awaited
            },
            signalled: self.signalled,
            buf,
            read: match event {
                ReadEvent::Read(len) if len > 0 => self.read.push(buf.take(len as int)),
                _ => self.read,
            },
            delivered: match decision.action {
                ReadAction::CallReadEvent { len } => self.delivered.push(
                    buf.take(len as int),
                ),
                _ => self.delivered,
            },
            calls: if decision.action is CallWriteBufferSpaceAvail
                || decision.action is CallReadEvent || decision.action is CallSocketDisconnected {
                self.calls + 1
            } else {
                self.calls
            },
            wake_ups: if event is WriteAvail && !self.conn.disconnect {
                self.wake_ups + 1
            } else {
                self.wake_ups
            },
            flushes: if decision.action is CallWriteBufferSpaceAvail {
                self.flushes + 1
            } else {
                self.flushes
            },
            reports: if decision.action is CallSocketDisconnected {
                self.reports + 1
            } else {
                self.reports
            },
            failures: match event {
                ReadEvent::SpaceHandled { ok: false } => self.failures + 1,
                ReadEvent::ReadHandled { pause_read: None } => self.failures + 1,
                _ => self.failures,
            },
            handled: match event {
                ReadEvent::ReadHandled { pause_read: Some(_) } => self.handled + 1,
                ReadEvent::Reported => self.handled + 1,
                _ => self.handled,
            },
            notices: if decision.action is NotifyEvent {
                self.notices + 1
            } else {
                self.notices
            },
        }
    }

    /// The history with one more turn.
    pub open spec fn then_turn(self, turn: Turn) -> Self {
        match turn {
            Turn::Read { event, blocker, filled } => self.reads(event, blocker, filled),
            Turn::Send { resume_read } => History {
                conn: self.conn.sending(resume_read),
                signalled: match self.conn.woken_by_send(resume_read) {
                    Some(sender) => self.signalled.insert(sender),
                    None => self.signalled,
                },
                ..self
            },
            Turn::Write { outcome } => History { conn: self.conn.written(outcome), ..self },
            Turn::Wake => History { queued: self.queued_after_wake(), ..self },
            Turn::Disconnect => History {
                conn: self.conn.disconnected(),
                queued: self.queued_after_wake(),
                ..self
            },
        }
    }

    /// The history with some more turns.
    pub open spec fn after(self, turns: Seq<Turn>) -> Self
        decreases turns.len(),
    {
        if turns.len() == 0 {
            self
        } else {
            self.after(turns.drop_last()).then_turn(turns.last())
        }
    }

    /// Whether these turns can come next, one after the other.
    pub open spec fn allows_all(self, turns: Seq<Turn>) -> bool
        decreases turns.len(),
    {
        turns.len() > 0 ==> {
            &&& self.allows_all(turns.drop_last())
            &&& self.after(turns.drop_last()).allows(turns.last())
        }
    }
}

} // verus!
