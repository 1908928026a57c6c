//! The mailboxes: unbounded channels of messages, one consumer each.
//!
//! A channel is shared with other tasks, so nothing here says what a channel
//! holds: the contracts state only what a call hands back.

use crate::router::Message;
use tokio::sync::mpsc::{UnboundedReceiver, UnboundedSender};
use vstd::prelude::*;

verus! {

/// The sending half of a mailbox.
#[verifier::external_type_specification]
#[verifier::external_body]
#[verifier::reject_recursive_types(T)]
pub struct ExUnboundedSender<T>(UnboundedSender<T>);

/// The receiving half of a mailbox.
#[verifier::external_type_specification]
#[verifier::external_body]
#[verifier::reject_recursive_types(T)]
pub struct ExUnboundedReceiver<T>(UnboundedReceiver<T>);

/// What a mailbox answers when asked for a message without waiting.
pub enum Polled {
    /// The oldest message of the mailbox, which has left it.
    Message(Message),
    /// The mailbox holds no message now.
    Empty,
    /// The mailbox holds no message and every sender is gone.
    Disconnected,
}

/// Makes a mailbox.
///
/// Trusted: the body calls `tokio::sync::mpsc::unbounded_channel`, which
/// returns the two halves of a new channel. Nothing is claimed of them.
#[verifier::external_body]
pub(crate) fn mailbox() -> (halves: (UnboundedSender<Message>, UnboundedReceiver<Message>)) {
    tokio::sync::mpsc::unbounded_channel::<Message>()
}

/// Another handle on the same mailbox.
///
/// Trusted: the body calls `UnboundedSender::clone`, which makes a second
/// sender of the same channel. The contract says that the copy stands for the
/// same mailbox as the sender it was made from.
#[verifier::external_body]
pub(crate) fn another(sender: &UnboundedSender<Message>) -> (copy: UnboundedSender<Message>)
    ensures
        copy == *sender,
{
    sender.clone()
}

/// Puts a message into a mailbox, without waiting.
///
/// Trusted: the body calls `UnboundedSender::send`. When the receiving half
/// is closed or gone, that call fails and hands the message back; the
/// contract says that the message handed back is the one that was given.
/// Whether the call succeeds depends on the other half of the channel, so
/// the contract does not say.
#[verifier::external_body]
pub(crate) fn send(sender: &UnboundedSender<Message>, message: Message) -> (sent: Result<(),
    Message>)
    ensures
        sent matches Err(returned) ==> returned == message,
{
    match sender.send(message) {
        Ok(()) => Ok(()),
        Err(error) => Err(error.0),
    }
}

/// Takes the oldest message out of a mailbox, without waiting.
///
/// Trusted: the body calls `UnboundedReceiver::try_recv`. What comes back
/// depends on what other tasks have sent, so the contract says nothing of
/// it.
#[verifier::external_body]
pub(crate) fn poll(receiver: &mut UnboundedReceiver<Message>) -> (polled: Polled) {
    match receiver.try_recv() {
        Ok(message) => Polled::Message(message),
        Err(tokio::sync::mpsc::error::TryRecvError::Empty) => Polled::Empty,
        Err(tokio::sync::mpsc::error::TryRecvError::Disconnected) => Polled::Disconnected,
    }
}

/// How many messages a mailbox holds now.
///
/// Trusted: the body calls `UnboundedReceiver::len`. Other tasks may send at
/// any time, so the contract says nothing of the number.
#[verifier::external_body]
pub(crate) fn pending(receiver: &UnboundedReceiver<Message>) -> (count: usize) {
    receiver.len()
}

} // verus!
