//! The single-slot channel that carries a backend result to the panels:
//! tokio's watch channel, reduced to the operations the shell uses.
//!
//! A slot holds one value. A publish overwrites it; a read copies it out.
//! The slot is shared between its handles, but only its sending handle
//! writes to it, and this crate keeps one sending handle per slot: it never
//! clones one. So what a slot holds is told of its sending handle, and
//! changes only where that handle is borrowed mutably. A reader that cannot
//! see the sending handle is promised nothing of what it reads: the backend
//! may publish at any moment.

use vstd::prelude::*;

verus! {

/// The sending half of a watch channel.
#[verifier::external_type_specification]
#[verifier::external_body]
#[verifier::reject_recursive_types(T)]
pub struct ExWatchSender<T>(tokio::sync::watch::Sender<T>);

/// The receiving half of a watch channel.
#[verifier::external_type_specification]
#[verifier::external_body]
#[verifier::reject_recursive_types(T)]
pub struct ExWatchReceiver<T>(tokio::sync::watch::Receiver<T>);

/// What a failed send hands back.
#[verifier::external_type_specification]
#[verifier::external_body]
#[verifier::reject_recursive_types(T)]
pub struct ExWatchSendError<T>(tokio::sync::watch::error::SendError<T>);

/// The texts of a list of strings.
pub open spec fn texts(strings: Seq<String>) -> Seq<Seq<char>> {
    Seq::new(strings.len(), |i: int| strings[i]@)
}

/// What the slot of `sender` holds: the texts of the list sent last, or of
/// the list the slot was opened with.
pub uninterp spec fn slot_held(sender: tokio::sync::watch::Sender<Vec<String>>) -> Seq<Seq<char>>;

/// Which slot `sender` writes to. Two handles belong together where they
/// name the same slot; nothing computes the number.
pub uninterp spec fn sender_slot(sender: tokio::sync::watch::Sender<Vec<String>>) -> int;

/// Which slot `receiver` reads from.
pub uninterp spec fn receiver_slot(receiver: tokio::sync::watch::Receiver<Vec<String>>) -> int;

/// Calls `tokio::sync::watch::channel`. It builds one slot and returns its
/// two handles; the slot holds `init`.
#[verifier::external_body]
pub(crate) fn open(init: Vec<String>) -> (halves: (
    tokio::sync::watch::Sender<Vec<String>>,
    tokio::sync::watch::Receiver<Vec<String>>,
))
    ensures
        slot_held(halves.0) == texts(init@),
        receiver_slot(halves.1) == sender_slot(halves.0),
{
    tokio::sync::watch::channel(init)
}

/// Calls `tokio::sync::watch::Sender::send`. Where a receiver is left it
/// swaps `value` into the slot; where none is left it fails and leaves the
/// slot as it was. Which of the two happens depends on the other handles,
/// so nothing is claimed of that. The handle stays on its slot.
#[verifier::external_body]
pub(crate) fn send(
    sender: &mut tokio::sync::watch::Sender<Vec<String>>,
    value: Vec<String>,
) -> (sent: Result<(), tokio::sync::watch::error::SendError<Vec<String>>>)
    ensures
        sent is Ok ==> slot_held(*final(sender)) == texts(value@),
        sent is Err ==> slot_held(*final(sender)) == slot_held(*old(sender)),
        sender_slot(*final(sender)) == sender_slot(*old(sender)),
{
    sender.send(value)
}

/// Calls `tokio::sync::watch::Receiver::borrow` and clones the value out of
/// the borrow: whatever the slot holds at that moment. Where the caller
/// lends the slot's sending handle as `writer`, nothing can write to the
/// slot meanwhile, and the value is what the slot holds by that handle.
/// Without it nothing is claimed of the value.
#[verifier::external_body]
#[allow(unused_variables)]
pub(crate) fn latest(
    receiver: &tokio::sync::watch::Receiver<Vec<String>>,
    writer: Option<&tokio::sync::watch::Sender<Vec<String>>>,
) -> (value: Vec<String>)
    ensures
        writer matches Some(sender) ==> (receiver_slot(*receiver) == sender_slot(*sender)
            ==> texts(value@) == slot_held(*sender)),
{
    receiver.borrow().clone()
}

/// Calls `tokio::sync::watch::Sender::subscribe` and, on the receiver it
/// gives, `tokio::sync::watch::Receiver::same_channel`, which tells whether
/// two receivers share one slot.
#[verifier::external_body]
pub(crate) fn same_slot(
    receiver: &tokio::sync::watch::Receiver<Vec<String>>,
    sender: &tokio::sync::watch::Sender<Vec<String>>,
) -> (same: bool)
    ensures
        same == (receiver_slot(*receiver) == sender_slot(*sender)),
{
    sender.subscribe().same_channel(receiver)
}

/// Calls `clone` on a `tokio::sync::watch::Receiver`, which gives a further
/// reader of the same slot.
#[verifier::external_body]
pub(crate) fn subscribe_again(
    receiver: &tokio::sync::watch::Receiver<Vec<String>>,
) -> (twin: tokio::sync::watch::Receiver<Vec<String>>)
    ensures
        receiver_slot(twin) == receiver_slot(*receiver),
{
    receiver.clone()
}

} // verus!
