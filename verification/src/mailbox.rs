//! Mailboxes between a player and its import threads. A mailbox that is full lets
//! the oldest item go: a newer frame is always worth more.

use crossbeam_channel::{Receiver, Sender};
use vstd::prelude::*;

verus! {

/// The sending end of a channel of the `crossbeam-channel` crate.
#[verifier::external_type_specification]
#[verifier::external_body]
#[verifier::reject_recursive_types(T)]
pub struct ExSender<T>(crossbeam_channel::Sender<T>);

/// The receiving end of a channel of the `crossbeam-channel` crate.
#[verifier::external_type_specification]
#[verifier::external_body]
#[verifier::reject_recursive_types(T)]
pub struct ExReceiver<T>(crossbeam_channel::Receiver<T>);

/// What came of putting an item into a mailbox.
#[derive(Debug, PartialEq, Eq)]
pub enum SendOutcome<T> {
    Sent,
    Full(T),
    /// Nobody reads the mailbox any more.
    Disconnected(T),
}

/// What came of taking an item out of a mailbox.
#[derive(Debug, PartialEq, Eq)]
pub enum ReceiveOutcome<T> {
    Item(T),
    Empty,
    /// The mailbox is empty and nobody writes to it any more.
    Disconnected,
}

/// Calls `Sender::try_send`, which never waits. An item that is not taken comes
/// back as it was. Which outcome comes depends on what the other ends of the
/// channel have done, and is not stated.
#[verifier::external_body]
fn try_send<T>(sender: &Sender<T>, item: T) -> (outcome: SendOutcome<T>)
    ensures
        outcome matches SendOutcome::Full(back) ==> back == item,
        outcome matches SendOutcome::Disconnected(back) ==> back == item,
{
    match sender.try_send(item) {
        Ok(()) => SendOutcome::Sent,
        Err(crossbeam_channel::TrySendError::Full(item)) => SendOutcome::Full(item),
        Err(crossbeam_channel::TrySendError::Disconnected(item)) => SendOutcome::Disconnected(item),
    }
}

/// Calls `Receiver::try_recv`, which never waits. Which outcome comes depends on
/// what the other ends of the channel have done; nothing is stated of it.
#[verifier::external_body]
pub(crate) fn try_receive<T>(receiver: &Receiver<T>) -> (outcome: ReceiveOutcome<T>) {
    match receiver.try_recv() {
        Ok(item) => ReceiveOutcome::Item(item),
        Err(crossbeam_channel::TryRecvError::Empty) => ReceiveOutcome::Empty,
        Err(crossbeam_channel::TryRecvError::Disconnected) => ReceiveOutcome::Disconnected,
    }
}

/// What to do after the first try to put an item into a mailbox.
#[derive(Debug, PartialEq, Eq)]
pub enum AfterTry<T> {
    Done(Result<(), T>),
    /// Let the oldest item go and try once more.
    DropOldest(T),
}

/// Decides what to do after the first try. A mailbox that nobody reads is not
/// tried again.
pub fn after_first_try<T>(outcome: SendOutcome<T>) -> (next: AfterTry<T>)
    ensures
        next == (match outcome {
            SendOutcome::Sent => AfterTry::Done(Ok::<(), T>(())),
            SendOutcome::Full(item) => AfterTry::DropOldest(item),
            SendOutcome::Disconnected(item) => AfterTry::Done(Err::<(), T>(item)),
        }),
{
    match outcome {
        SendOutcome::Sent => AfterTry::Done(Ok(())),
        SendOutcome::Full(item) => AfterTry::DropOldest(item),
        SendOutcome::Disconnected(item) => AfterTry::Done(Err(item)),
    }
}

/// What came of the second try, which is the last: an item that was not taken
/// comes back.
pub fn after_second_try<T>(outcome: SendOutcome<T>) -> (sent: Result<(), T>)
    ensures
        sent == (match outcome {
            SendOutcome::Sent => Ok::<(), T>(()),
            SendOutcome::Full(item) => Err::<(), T>(item),
            SendOutcome::Disconnected(item) => Err::<(), T>(item),
        }),
{
    match outcome {
        SendOutcome::Sent => Ok(()),
        SendOutcome::Full(item) => Err(item),
        SendOutcome::Disconnected(item) => Err(item),
    }
}

/// True of an outcome that trying to put `item` into the mailbox may give. Only a
/// try shows that it holds of one.
pub closed spec fn send_gave<T>(sender: Sender<T>, item: T, outcome: SendOutcome<T>) -> bool {
    call_ensures(try_send::<T>, (&sender, item), outcome)
}

/// True of an outcome that trying to take an item out of the mailbox may give. Only
/// a try shows that it holds of one.
pub closed spec fn receive_gave<T>(receiver: Receiver<T>, outcome: ReceiveOutcome<T>) -> bool {
    call_ensures(try_receive::<T>, (&receiver,), outcome)
}

/// The last step of putting an item into a full mailbox: an item was asked for, to
/// make room, and `sent` is what the second try gave.
pub open spec fn sent_at_last<T>(
    sender: Sender<T>,
    drop_receiver: Receiver<T>,
    item: T,
    sent: Result<(), T>,
) -> bool {
    &&& exists|dropped: ReceiveOutcome<T>| receive_gave(drop_receiver, dropped)
    &&& exists|second: SendOutcome<T>| #[trigger]
        send_gave(sender, item, second) && sent == (match second {
            SendOutcome::Sent => Ok::<(), T>(()),
            _ => Err::<(), T>(item),
        })
}

/// Puts an item into a mailbox without waiting, letting the oldest item go where
/// the mailbox is full. An item that cannot be put in comes back. What the tries
/// give depends on the other ends of the channel; the contract says what follows
/// from it.
pub fn try_send_drop_oldest<T>(sender: &Sender<T>, drop_receiver: &Receiver<T>, item: T) -> (sent:
    Result<(), T>)
    ensures
        exists|first: SendOutcome<T>| #[trigger]
            send_gave(*sender, item, first) && (match first {
                SendOutcome::Sent => sent == Ok::<(), T>(()),
                SendOutcome::Full(_) => sent_at_last(*sender, *drop_receiver, item, sent),
                SendOutcome::Disconnected(_) => sent == Err::<(), T>(item),
            }),
        sent matches Err(back) ==> back == item,
{
    let ghost handed = item;
    let first = try_send(sender, item);
    assert(send_gave(*sender, handed, first));
    match after_first_try(first) {
        AfterTry::Done(sent) => sent,
        AfterTry::DropOldest(item) => {
            let dropped = try_receive(drop_receiver);
            assert(receive_gave(*drop_receiver, dropped));
            let second = try_send(sender, item);
            assert(send_gave(*sender, handed, second));
            after_second_try(second)
        },
    }
}

/// What an import that was taken out of a mailbox is worth: nothing where it was
/// begun before the latest seek.
pub fn import_for_epoch<T>(received: ReceiveOutcome<(u64, T)>, epoch: u64) -> (import: Option<T>)
    ensures
        import == (match received {
            ReceiveOutcome::Item((begun, result)) => if begun == epoch {
                Some(result)
            } else {
                None::<T>
            },
            _ => None::<T>,
        }),
{
    match received {
        ReceiveOutcome::Item((begun, result)) => if begun == epoch {
            Some(result)
        } else {
            None
        },
        _ => None,
    }
}

/// Takes the next import out of a mailbox, where it was begun in `epoch`. What the
/// mailbox holds depends on its other ends; the contract says what follows from it.
pub fn take_import_for_epoch<T>(receiver: &Receiver<(u64, T)>, epoch: u64) -> (import: Option<T>)
    ensures
        exists|received: ReceiveOutcome<(u64, T)>| #[trigger]
            receive_gave(*receiver, received) && import == (match received {
                ReceiveOutcome::Item((begun, result)) => if begun == epoch {
                    Some(result)
                } else {
                    None::<T>
                },
                _ => None::<T>,
            }),
{
    let received = try_receive(receiver);
    assert(receive_gave(*receiver, received));
    import_for_epoch(received, epoch)
}

} // verus!
