//! How a connection gets under way.
use vstd::prelude::*;

verus! {

/// How many seconds an attempt to connect to a peer may take.
pub const CONNECT_TIMEOUT_SECS: u64 = 10;

/// What is to be done next to get a connection under way.
#[derive(Clone, Copy, Debug, PartialEq, Eq, Structural)]
pub enum SetupStep {
    /// Start the reading task.
    StartReading,
    /// Send the message with which the peer manager opens the connection.
    SendInitial {
        /// Whether the send resumes reading.
        resume_read: bool,
    },
    /// Tell the peer manager that the socket is closed, and drop the connection.
    ReportDisconnect,
    /// Drop the connection without a word: the peer manager does not know it.
    Abandon,
}

/// How an attempt to connect to a peer ended.
#[derive(Debug, PartialEq, Eq)]
pub enum ConnectOutcome<S> {
    /// There is a socket.
    Connected(S),
    /// There is none.
    Failed,
    /// It took too long.
    TimedOut,
}

/// What to do with a connection that a peer made to us, which the peer manager has `accepted` or
/// not. The peer speaks first, so we begin by reading.
pub fn setup_inbound(accepted: bool) -> (step: SetupStep)
    ensures
        step == (if accepted {
            SetupStep::StartReading
        } else {
            SetupStep::Abandon
        }),
{
    if accepted {
        SetupStep::StartReading
    } else {
        // The peer manager is not told of the closing, as it asks for.
        SetupStep::Abandon
    }
}

/// What to do with a connection that we made to a peer, which the peer manager has `accepted` or
/// not. We speak first.
pub fn setup_outbound(accepted: bool) -> (step: SetupStep)
    ensures
        step == (if accepted {
            SetupStep::SendInitial { resume_read: true }
        } else {
            SetupStep::Abandon
        }),
{
    if accepted {
        SetupStep::SendInitial { resume_read: true }
    } else {
        // The peer manager is not told of the closing, as it asks for.
        SetupStep::Abandon
    }
}

/// What to do once `written` out of the `len` bytes of the opening message have been sent. There
/// should be room for such a small message in any socket; if there is not, we give up.
pub fn initial_send_ended(len: usize, written: usize) -> (step: SetupStep)
    ensures
        step == (if written == len {
            SetupStep::StartReading
        } else {
            SetupStep::ReportDisconnect
        }),
{
    if written != len {
        SetupStep::ReportDisconnect
    } else {
        SetupStep::StartReading
    }
}

/// The socket to go on with, if connecting to the peer gave one in time.
pub fn connect_outbound<S>(outcome: ConnectOutcome<S>) -> (stream: Option<S>)
    ensures
        stream == (match outcome {
            ConnectOutcome::Connected(socket) => Some(socket),
            ConnectOutcome::Failed => None,
            ConnectOutcome::TimedOut => None,
        }),
{
    match outcome {
        ConnectOutcome::Connected(socket) => Some(socket),
        _ => None,
    }
}

} // verus!
