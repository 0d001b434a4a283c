//! The channel of `tokio` that carries the internal subscriber stream.

use vstd::prelude::*;
use tokio::sync::broadcast::{Receiver, Sender};

verus! {

#[verifier::external_type_specification]
#[verifier::external_body]
#[verifier::reject_recursive_types(T)]
pub struct ExSender<T>(Sender<T>);

#[verifier::external_type_specification]
#[verifier::external_body]
#[verifier::reject_recursive_types(T)]
pub struct ExReceiver<T>(Receiver<T>);

/// The capacity of the subscriber stream: so many events are kept for a
/// consumer that lags, and the oldest ones are dropped for it beyond that.
pub const SUBSCRIBER_STREAM_CAPACITY: usize = 1024;

/// `Sender::new`: the publishing end of a channel that keeps `capacity`
/// items, with no subscriber attached. Trusted; nothing is claimed of the
/// result. The constructor panics on a capacity of zero and on one above
/// half of `usize::MAX`.
#[verifier::external_body]
pub(crate) fn stream_new(capacity: usize) -> (sender: Sender<String>)
    requires
        0 < capacity <= usize::MAX / 2,
{
    Sender::new(capacity)
}

/// `Sender::subscribe`: attaches a consumer, which gets what is published
/// from now on. Trusted; nothing is claimed of the result.
#[verifier::external_body]
pub(crate) fn stream_subscribe(sender: &Sender<String>) -> (receiver: Receiver<String>) {
    sender.subscribe()
}

/// `Sender::send`: puts the item into the channel. Returns the number of
/// subscribers, or `None` where none is attached and the item is dropped.
/// The call does not wait; a subscriber that lags loses the oldest items.
///
/// Trusted. The result depends on who is subscribed; of every outcome only
/// this is claimed: a number that is returned is at least one, since `send`
/// reports an error where it counts no subscriber.
#[verifier::external_body]
pub(crate) fn publish<T>(sender: &Sender<T>, item: T) -> (subscribers: Option<usize>)
    ensures
        subscribers matches Some(count) ==> count >= 1,
{
    sender.send(item).ok()
}

} // verus!
