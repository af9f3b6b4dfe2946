//! Trusted view of the std mpsc channel that carries commands from handles
//! to the engine.
//!
//! The channel is shared mutable state between threads, so nothing can be
//! promised about what a single call observes; what is stated here is only
//! what holds of every outcome, and that disconnection, once seen, is
//! permanent: a `Receiver` comes back only while some `Sender` is alive, and
//! a `Sender` delivers only while the `Receiver` is alive, and neither half
//! can reappear once dropped.
use vstd::prelude::*;

use crate::OrbSoundSystemError;
use crate::handle::SoundCommand;

verus! {

#[verifier::external_type_specification]
#[verifier::external_body]
#[verifier::reject_recursive_types(T)]
pub struct ExSender<T>(std::sync::mpsc::Sender<T>);

#[verifier::external_type_specification]
#[verifier::external_body]
#[verifier::reject_recursive_types(T)]
pub struct ExReceiver<T>(std::sync::mpsc::Receiver<T>);

/// Whether this sender's receiving half is already gone, so that nothing
/// sent through it will ever be delivered.
pub uninterp spec fn sender_down(s: std::sync::mpsc::Sender<SoundCommand>) -> bool;

/// Every command this sender has successfully enqueued, oldest first.  The
/// channel delivers them to the receiver in exactly this order (FIFO per
/// sender); commands from different senders interleave arbitrarily.
pub uninterp spec fn sent_log(s: std::sync::mpsc::Sender<SoundCommand>) -> Seq<SoundCommand>;

/// Whether every sending half of this receiver's channel is already gone,
/// so that no further command will ever arrive.
pub uninterp spec fn receiver_disconnected(r: std::sync::mpsc::Receiver<SoundCommand>) -> bool;

/// What one non-blocking read of the command channel can yield.
pub enum RecvOutcome {
    /// A command was waiting.
    Cmd(SoundCommand),
    /// The channel was empty, but some sender may still be alive.
    Empty,
    /// Every sender is gone and the channel is drained.
    Disconnected,
}

/// Relies on `std::sync::mpsc::Sender::send`: on success the command is
/// enqueued behind everything this sender enqueued before; it fails exactly
/// when the receiver has been dropped, that condition is permanent, and a
/// failed command is not enqueued.
#[verifier::external_body]
pub(crate) fn send_on(
    s: &mut std::sync::mpsc::Sender<SoundCommand>,
    command: SoundCommand,
) -> (r: Result<(), OrbSoundSystemError>)
    ensures
        r is Ok ==> !sender_down(*old(s)) && sent_log(*final(s)) == sent_log(*old(s)).push(
            command,
        ),
        r matches Err(e) ==> e is SystemIsDown && sender_down(*final(s)) && sent_log(*final(s))
            == sent_log(*old(s)),
{
    s.send(command).map_err(|_| OrbSoundSystemError::SystemIsDown)
}

/// Relies on `std::sync::mpsc::Sender::clone`: the clone feeds the same
/// channel as the original, so delivery fails for one exactly when it
/// fails for the other; the clone itself has enqueued nothing yet.
#[verifier::external_body]
pub(crate) fn clone_sender(s: &std::sync::mpsc::Sender<SoundCommand>) -> (t: std::sync::mpsc::Sender<
    SoundCommand,
>)
    ensures
        sender_down(t) == sender_down(*s),
        sent_log(t) == Seq::<SoundCommand>::empty(),
{
    s.clone()
}

/// Relies on `std::sync::mpsc::Receiver::try_recv`: it never blocks, and it
/// reports disconnection only once every sender is gone and the queue is
/// drained, after which it reports nothing else ever again.
#[verifier::external_body]
pub(crate) fn try_recv_on(r: &mut std::sync::mpsc::Receiver<SoundCommand>) -> (out: RecvOutcome)
    ensures
        !(out is Disconnected) ==> !receiver_disconnected(*old(r)),
        out is Disconnected ==> receiver_disconnected(*final(r)),
{
    match r.try_recv() {
        Ok(command) => RecvOutcome::Cmd(command),
        Err(std::sync::mpsc::TryRecvError::Empty) => RecvOutcome::Empty,
        Err(std::sync::mpsc::TryRecvError::Disconnected) => RecvOutcome::Disconnected,
    }
}

} // verus!
