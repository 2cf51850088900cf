//! The channels on which commands and their answers travel.

use tokio::sync::{mpsc, oneshot};
use vstd::prelude::*;

verus! {

/// The sending half of `tokio::sync::oneshot`.
#[verifier::external_type_specification]
#[verifier::external_body]
#[verifier::reject_recursive_types(T)]
pub struct ExOneshotSender<T>(oneshot::Sender<T>);

/// The receiving half of `tokio::sync::oneshot`.
#[verifier::external_type_specification]
#[verifier::external_body]
#[verifier::reject_recursive_types(T)]
pub struct ExOneshotReceiver<T>(oneshot::Receiver<T>);

/// What a `oneshot::Receiver` yields when its sender is gone. No function here
/// handles one; the declaration of `Receiver`, which is a future of it, needs it.
#[verifier::external_type_specification]
#[verifier::external_body]
pub struct ExOneshotRecvError(oneshot::error::RecvError);

/// The sending half of an unbounded `tokio::sync::mpsc` channel.
#[verifier::external_type_specification]
#[verifier::external_body]
#[verifier::reject_recursive_types(T)]
pub struct ExUnboundedSender<T>(mpsc::UnboundedSender<T>);

/// The receiving half of an unbounded `tokio::sync::mpsc` channel.
#[verifier::external_type_specification]
#[verifier::external_body]
#[verifier::reject_recursive_types(T)]
pub struct ExUnboundedReceiver<T>(mpsc::UnboundedReceiver<T>);

/// `tokio::sync::oneshot::channel`. Each call makes a fresh channel, so nothing
/// is claimed of its two halves but that this call returned them together.
pub assume_specification<T>[ oneshot::channel::<T> ]() -> (halves: (
    oneshot::Sender<T>,
    oneshot::Receiver<T>,
));

/// `tokio::sync::oneshot::Sender::send`. Whether the receiver still listens is
/// not known beforehand; where it does not, the value comes back as it was.
pub assume_specification<T>[ oneshot::Sender::<T>::send ](tx: oneshot::Sender<T>, t: T) -> (sent: Result<
    (),
    T,
>)
    ensures
        sent matches Err(back) ==> back == t,
;

/// `tokio::sync::mpsc::unbounded_channel`. Each call makes a fresh channel, so
/// nothing is claimed of its two halves but that this call returned them together.
pub assume_specification<T>[ mpsc::unbounded_channel::<T> ]() -> (halves: (
    mpsc::UnboundedSender<T>,
    mpsc::UnboundedReceiver<T>,
));

/// `Clone` of `tokio::sync::mpsc::UnboundedSender`: one more handle for the
/// channel of `tx`. Nothing else is claimed of it.
pub assume_specification<T>[ <mpsc::UnboundedSender<T> as Clone>::clone ](
    tx: &mpsc::UnboundedSender<T>,
) -> (handle: mpsc::UnboundedSender<T>);

/// Whether `tx` and `rx` are the two halves of one channel: one call of
/// `oneshot::channel` returned both.
pub open spec fn one_answer_channel<T>(tx: oneshot::Sender<T>, rx: oneshot::Receiver<T>) -> bool {
    call_ensures(oneshot::channel::<T>, (), (tx, rx))
}

/// Whether `tx` and `rx` are the two halves of one channel: one call of
/// `mpsc::unbounded_channel` returned both.
pub open spec fn one_command_channel<T>(
    tx: mpsc::UnboundedSender<T>,
    rx: mpsc::UnboundedReceiver<T>,
) -> bool {
    call_ensures(mpsc::unbounded_channel::<T>, (), (tx, rx))
}

/// The two halves of a channel for an answer came out of one call.
pub proof fn law_one_answer_channel<T>(tx: oneshot::Sender<T>, rx: oneshot::Receiver<T>)
    requires
        one_answer_channel(tx, rx),
    ensures
        call_ensures(oneshot::channel::<T>, (), (tx, rx)),
{
}

/// The two halves of a channel for commands came out of one call.
pub proof fn law_one_command_channel<T>(
    tx: mpsc::UnboundedSender<T>,
    rx: mpsc::UnboundedReceiver<T>,
)
    requires
        one_command_channel(tx, rx),
    ensures
        call_ensures(mpsc::unbounded_channel::<T>, (), (tx, rx)),
{
}

} // verus!
