//! The tokio channels through which the tasks of a connection signal one another.
//!
//! What tokio does is not proved here: the two kinds of channel are declared to the verifier as
//! opaque types, and each of the four calls that this library makes on them stands behind a
//! small function whose contract is believed. The other half of a channel is in the hands of
//! another task, so nothing is claimed of what a call returns beyond the shapes it can have.
use tokio::sync::mpsc;
use tokio::sync::oneshot;
use vstd::prelude::*;

verus! {

/// Declares the sending half of a bounded queue, `tokio::sync::mpsc::Sender`.
#[verifier::external_type_specification]
#[verifier::external_body]
#[verifier::reject_recursive_types(T)]
pub struct ExMpscSender<T>(tokio::sync::mpsc::Sender<T>);

/// Declares the receiving half of a bounded queue, `tokio::sync::mpsc::Receiver`.
#[verifier::external_type_specification]
#[verifier::external_body]
#[verifier::reject_recursive_types(T)]
pub struct ExMpscReceiver<T>(tokio::sync::mpsc::Receiver<T>);

/// Declares the sending half of a single-use channel, `tokio::sync::oneshot::Sender`.
#[verifier::external_type_specification]
#[verifier::external_body]
#[verifier::reject_recursive_types(T)]
pub struct ExOneshotSender<T>(tokio::sync::oneshot::Sender<T>);

/// Declares the receiving half of a single-use channel, `tokio::sync::oneshot::Receiver`.
#[verifier::external_type_specification]
#[verifier::external_body]
#[verifier::reject_recursive_types(T)]
pub struct ExOneshotReceiver<T>(tokio::sync::oneshot::Receiver<T>);

/// Declares what a single-use channel yields where its sending half is dropped unused,
/// `tokio::sync::oneshot::error::RecvError`: the receiving half, as a future, names it.
#[verifier::external_type_specification]
#[verifier::external_body]
pub struct ExOneshotRecvError(tokio::sync::oneshot::error::RecvError);

/// How an attempt to put a signal into a queue ended.
#[derive(Clone, Copy, Debug, PartialEq, Eq, Structural)]
pub enum TrySend {
    /// The signal is in the queue.
    Sent,
    /// The queue already held as many signals as it has room for.
    Full,
    /// The receiving half is gone.
    Closed,
}

/// The attempts made so far through this handle, oldest first, each with how it ended.
pub uninterp spec fn mpsc_attempts(sender: mpsc::Sender<()>) -> Seq<TrySend>;

/// How many signals the queue behind this handle was made to hold.
pub uninterp spec fn mpsc_depth(sender: mpsc::Sender<()>) -> nat;

/// Whether what is sent through `sender` comes out of `receiver`.
pub uninterp spec fn mpsc_feeds(sender: mpsc::Sender<()>, receiver: mpsc::Receiver<()>) -> bool;

/// Whether what is sent through `sender` comes out of `receiver`.
pub uninterp spec fn oneshot_feeds(
    sender: oneshot::Sender<()>,
    receiver: oneshot::Receiver<()>,
) -> bool;

/// Whether a signal was sent through `sender`, and the attempt ended with `outcome`: taken, or
/// given back because the receiving half is gone.
pub uninterp spec fn oneshot_sent(
    sender: oneshot::Sender<()>,
    outcome: Result<(), ()>,
) -> bool;

/// Calls `tokio::sync::mpsc::channel`, which makes a queue with room for `buffer` signals and
/// returns its two halves: what goes into the one comes out of the other, and nothing was sent
/// yet. It panics on a room of zero, or of more than a quarter of the range of `usize`.
#[verifier::external_body]
pub(crate) fn mpsc_channel(buffer: usize) -> (halves: (mpsc::Sender<()>, mpsc::Receiver<()>))
    requires
        0 < buffer <= usize::MAX / 4,
    ensures
        mpsc_feeds(halves.0, halves.1),
        mpsc_depth(halves.0) == buffer,
        mpsc_attempts(halves.0) == Seq::<TrySend>::empty(),
{
    mpsc::channel(buffer)
}

/// Calls `tokio::sync::mpsc::Sender::try_send` with one signal. The call never waits: it either
/// puts the signal into the queue, or finds the queue full, or finds the receiver gone. Which of
/// the three depends on the task that receives. The handle still belongs to the same queue, and
/// one more attempt was made through it.
#[verifier::external_body]
pub(crate) fn mpsc_try_send(sender: &mut mpsc::Sender<()>) -> (outcome: TrySend)
    ensures
        mpsc_attempts(*final(sender)) == mpsc_attempts(*old(sender)).push(outcome),
        mpsc_depth(*final(sender)) == mpsc_depth(*old(sender)),
        forall|receiver: mpsc::Receiver<()>| #[trigger]
            mpsc_feeds(*final(sender), receiver) == mpsc_feeds(*old(sender), receiver),
{
    match sender.try_send(()) {
        Ok(()) => TrySend::Sent,
        Err(mpsc::error::TrySendError::Full(())) => TrySend::Full,
        Err(mpsc::error::TrySendError::Closed(())) => TrySend::Closed,
    }
}

/// Calls `tokio::sync::oneshot::channel`, which makes a single-use channel and returns its two
/// halves: what goes into the one comes out of the other.
#[verifier::external_body]
pub(crate) fn oneshot_channel() -> (halves: (oneshot::Sender<()>, oneshot::Receiver<()>))
    ensures
        oneshot_feeds(halves.0, halves.1),
{
    oneshot::channel()
}

/// Calls `tokio::sync::oneshot::Sender::send`, which uses the handle up and hands a signal to
/// the receiving half, or gives the signal back where that half is gone. Which of the two
/// depends on the task that receives.
#[verifier::external_body]
pub(crate) fn oneshot_send(sender: oneshot::Sender<()>) -> (outcome: Result<(), ()>)
    ensures
        oneshot_sent(sender, outcome),
{
    sender.send(())
}

} // verus!
