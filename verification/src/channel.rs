use crate::report::StepReport;
use std::sync::mpsc::channel;
use std::sync::mpsc::Receiver;
use std::sync::mpsc::RecvTimeoutError;
use std::sync::mpsc::Sender;
use std::time::Duration;
use vstd::prelude::*;

verus! {

#[verifier::external_type_specification]
#[verifier::external_body]
#[verifier::reject_recursive_types(T)]
pub struct ExSender<T>(Sender<T>);

#[verifier::external_type_specification]
#[verifier::external_body]
#[verifier::reject_recursive_types(T)]
pub struct ExReceiver<T>(Receiver<T>);

/// The channel that a sending end sends into. A sending end stays with its
/// channel for good.
pub uninterp spec fn sender_channel(sender: Sender<StepReport>) -> int;

/// The channel that a receiving end receives from.
pub uninterp spec fn receiver_channel(receiver: Receiver<StepReport>) -> int;

/// What a wait at the receiving end of the reports' channel came to.
pub enum Received {
    /// A worker's report.
    Report(StepReport),
    /// The wait ran out with nothing received.
    TimedOut,
    /// No sender is left and nothing is left to receive.
    Closed,
}

/// `std::sync::mpsc::channel`: a new channel, as its sending and its
/// receiving end. The two ends belong to one channel: what is sent on the
/// one is received on the other. Nothing else is claimed of them.
#[verifier::external_body]
pub(crate) fn open_channel() -> (ends: (Sender<StepReport>, Receiver<StepReport>))
    ensures
        sender_channel(ends.0) == receiver_channel(ends.1),
{
    channel()
}

/// `Sender::clone`: one more sending end, which sends into the same channel
/// as the one it was cloned from.
#[verifier::external_body]
pub(crate) fn another_sender(sender: &Sender<StepReport>) -> (cloned: Sender<StepReport>)
    ensures
        sender_channel(cloned) == sender_channel(*sender),
{
    sender.clone()
}

/// `Receiver::recv`: waits until a report arrives or the last sender is gone;
/// it never gives up on its own. Nothing is claimed of the report.
#[verifier::external_body]
pub(crate) fn receive(receiver: &Receiver<StepReport>) -> (got: Received)
    ensures
        !(got is TimedOut),
{
    match receiver.recv() {
        Ok(report) => Received::Report(report),
        Err(_) => Received::Closed,
    }
}

/// `Receiver::recv_timeout`: as `recv`, but gives up after `millis`
/// milliseconds. Nothing is claimed of what comes back.
#[verifier::external_body]
pub(crate) fn receive_within(receiver: &Receiver<StepReport>, millis: u32) -> (got: Received) {
    match receiver.recv_timeout(Duration::from_millis(u64::from(millis))) {
        Ok(report) => Received::Report(report),
        Err(RecvTimeoutError::Timeout) => Received::TimedOut,
        Err(RecvTimeoutError::Disconnected) => Received::Closed,
    }
}

} // verus!
