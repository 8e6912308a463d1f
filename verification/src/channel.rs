//! The sending end of the channel that carries replies from the native
//! layer's callback to the consumer's thread.
use vstd::prelude::*;
use futures::sync::mpsc::UnboundedSender;
use crate::error::Error;

verus! {

/// The sending end of an unbounded channel of the `futures` crate.  Nothing
/// inside it is visible here: it is carried to the one call below.
#[verifier::external_type_specification]
#[verifier::external_body]
#[verifier::reject_recursive_types(T)]
pub struct ExUnboundedSender<T>(UnboundedSender<T>);

/// Hands `item` to `UnboundedSender::unbounded_send`.  That call never
/// blocks.  It queues the item while the receiving end is alive; once the
/// receiving end is closed or dropped it refuses the item and gives it back
/// untouched, which is all that is claimed here: `None` stands for "queued",
/// `Some` holds the refused item.  Whether the item is queued depends on the
/// receiving end, so nothing is claimed about that.  (The call gives up only
/// when the channel already holds as many items as half the address space
/// can count, or when a thread died while it held the receiver's task lock.)
#[verifier::external_body]
fn send_unbounded<T>(sender: &UnboundedSender<T>, item: T) -> (refused: Option<T>)
    ensures
        refused matches Some(back) ==> back == item,
{
    match sender.unbounded_send(item) {
        Ok(()) => None,
        Err(e) => Some(e.into_inner()),
    }
}

/// An item that the channel did not take, with the reason.
#[derive(PartialEq, Eq, Debug)]
pub struct Refused<T> {
    /// Why the item was not taken: [`Error::ChannelClosed`].
    pub error: Error,
    /// The item, as it was offered.
    pub item: T,
}

/// What a producer reports after it offered an item to the channel: success
/// when the item was queued; when it was refused, the item itself with
/// [`Error::ChannelClosed`].
pub open spec fn delivery_of<T>(refused: Option<T>) -> Result<(), Refused<T>> {
    match refused {
        None => Ok(()),
        Some(item) => Err(Refused { error: Error::ChannelClosed, item }),
    }
}

/// Turns what the channel gave back into the producer's report.
pub fn delivery<T>(refused: Option<T>) -> (r: Result<(), Refused<T>>)
    ensures
        r == delivery_of(refused),
{
    match refused {
        None => Ok(()),
        Some(item) => Err(Refused { error: Error::ChannelClosed, item }),
    }
}

/// Offers `item` to the channel.  Whether it is queued depends on the
/// receiving end alone.  A refusal is reported as [`Error::ChannelClosed`]
/// together with the item that was offered, unchanged; nothing else can go
/// wrong.
pub fn forward<T>(sender: &UnboundedSender<T>, item: T) -> (r: Result<(), Refused<T>>)
    ensures
        r matches Err(refused) ==> refused.error == Error::ChannelClosed && refused.item == item,
{
    delivery(send_unbounded(sender, item))
}

} // verus!
