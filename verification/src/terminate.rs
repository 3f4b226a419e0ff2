//! The single-shot cross-thread termination channel: a `LoopTerminator` fires
//! the signal (or fires it implicitly by being dropped), a `LoopTerminatee`
//! polls for it without blocking, and `NopLoopTerminatee` is the null object
//! for loops meant to run for the whole process lifetime.

use vstd::prelude::*;
use std::sync::mpsc::Receiver;
use std::sync::mpsc::Sender;
use std::sync::mpsc::TryRecvError;
use std::sync::mpsc::channel;

verus! {

#[verifier::external_type_specification]
#[verifier::external_body]
#[verifier::reject_recursive_types(T)]
pub struct ExSender<T>(Sender<T>);

#[verifier::external_type_specification]
#[verifier::external_body]
#[verifier::reject_recursive_types(T)]
pub struct ExReceiver<T>(Receiver<T>);

/// What one non-blocking poll of the termination channel observed.
#[derive(Clone, Copy, PartialEq, Eq, Structural, Debug)]
pub enum SignalPoll {
    /// The termination signal was delivered.
    Received,
    /// No signal yet, and the sending side still exists.
    Pending,
    /// The sending side is gone without a signal ever arriving.
    Disconnected,
}

/// Relies on `std::sync::mpsc::channel`: returns a connected
/// sender/receiver pair for the one-shot termination signal.
#[verifier::external_body]
fn signal_channel() -> (Sender<()>, Receiver<()>) {
    channel::<()>()
}

/// Relies on `std::sync::mpsc::Sender::send`: queues the unit signal for the
/// receiving side.  The only way the send can fail is a receiver that is
/// already gone — then the loop it would stop has stopped already, so the
/// outcome is dropped rather than surfaced.  `send` itself does not panic.
#[verifier::external_body]
fn send_signal(s: &Sender<()>) {
    let _ = s.send(());
}

/// Relies on `std::sync::mpsc::Receiver::try_recv`: a non-blocking poll that
/// reports a delivered signal, an empty queue, or a dropped sender, one
/// variant each.
#[verifier::external_body]
fn poll_signal(r: &Receiver<()>) -> SignalPoll {
    match r.try_recv() {
        Ok(()) => SignalPoll::Received,
        Err(TryRecvError::Empty) => SignalPoll::Pending,
        Err(TryRecvError::Disconnected) => SignalPoll::Disconnected,
    }
}

/// The loop must stop once the signal arrived, and also once the sender is
/// gone: disconnection fails towards terminating, never towards running
/// forever.
pub open spec fn termination_decision(p: SignalPoll) -> bool {
    p is Received || p is Disconnected
}

/// Turns one poll observation into the stop/continue decision.
pub fn decide_termination(p: SignalPoll) -> (r: bool)
    ensures
        r == termination_decision(p),
{
    match p {
        SignalPoll::Received => true,
        SignalPoll::Pending => false,
        SignalPoll::Disconnected => true,
    }
}

/// Model of the sending side's state as the receiving side can observe it:
/// whether the one-shot signal was ever sent, and whether the sender still
/// exists.
pub open spec fn terminated_in_model(sent: bool, sender_alive: bool) -> bool {
    sent || !sender_alive
}

/// What a poll of the single-shot channel observes in a given model state.
/// The channel holds at most one message, so a sent signal is observed as
/// `Received`; with no signal, a living sender reads as `Pending` and a
/// dropped one as `Disconnected`.
pub open spec fn poll_in_model(sent: bool, sender_alive: bool) -> SignalPoll {
    if sent {
        SignalPoll::Received
    } else if sender_alive {
        SignalPoll::Pending
    } else {
        SignalPoll::Disconnected
    }
}

/// Law: polling reports termination exactly when the model says so — false
/// before any signal while the terminator lives, true once `terminate` fired,
/// and true once the terminator was dropped without firing.
pub proof fn lemma_termination_signal(sent: bool, sender_alive: bool)
    ensures
        termination_decision(poll_in_model(sent, sender_alive)) == terminated_in_model(
            sent,
            sender_alive,
        ),
        !sent && sender_alive ==> !termination_decision(poll_in_model(sent, sender_alive)),
        sent ==> termination_decision(poll_in_model(sent, sender_alive)),
        !sender_alive ==> termination_decision(poll_in_model(sent, sender_alive)),
{
}

/// The sending half of the termination channel.
#[derive(Debug)]
pub struct LoopTerminator {
    sender: Sender<()>,
}

/// The receiving half: polled once per tick by the event loop.  It latches
/// the first positive observation, because *terminated* is a terminal state:
/// the underlying channel consumes its one message, so without the latch a
/// second poll after a consumed signal would read as not-terminated again.
#[derive(Debug)]
pub struct LoopTerminatee {
    receiver: Receiver<()>,
    observed: bool,
}

/// Null object for loops that are never terminated cooperatively.
#[derive(Debug)]
pub struct NopLoopTerminatee {}

impl LoopTerminator {
    /// Builds the connected terminator/terminatee pair.  The terminatee
    /// starts in the not-yet-terminated state.
    pub fn new() -> (r: (LoopTerminator, LoopTerminatee))
        ensures
            !r.1.has_observed_termination(),
    {
        let (sender, receiver) = signal_channel();
        (LoopTerminator { sender }, LoopTerminatee { receiver, observed: false })
    }

    /// Fires the one-shot termination signal.  The design frames firing
    /// after the terminatee is gone as a misuse the ownership model should
    /// rule out; here it is additionally harmless — the loop it would stop
    /// has stopped already and the call changes nothing.
    pub fn terminate(&self) {
        send_signal(&self.sender);
    }
}

impl LoopTerminatee {
    /// Whether a past poll has already observed termination.
    pub closed spec fn has_observed_termination(self) -> bool {
        self.observed
    }

    /// Non-blocking poll: true once the signal arrived or the terminator was
    /// dropped, per `termination_decision` applied to what the poll observed.
    /// Terminated is terminal: a positive observation is latched, so once
    /// this returns true every later call returns true as well, even though
    /// the channel itself gives the signal out only once.
    pub fn should_terminate(&mut self) -> (r: bool)
        ensures
            r == final(self).has_observed_termination(),
            old(self).has_observed_termination() ==> r,
    {
        if !self.observed {
            let p = poll_signal(&self.receiver);
            if decide_termination(p) {
                self.observed = true;
            }
        }
        self.observed
    }
}

impl NopLoopTerminatee {
    /// Never requests termination.
    pub fn should_terminate(&self) -> (r: bool)
        ensures
            r == false,
    {
        false
    }
}

} // verus!
