use vstd::prelude::*;

use embassy_sync::blocking_mutex::raw::NoopRawMutex;
use embassy_sync::channel::{Channel, TrySendError};

use crate::event::Event;

verus! {

/// How many events the mailbox holds before a producer has to wait.
pub const CHANNEL_CAPACITY: usize = 4;

/// The bounded FIFO mailbox between the monitors and the mode machine.
#[verifier::external_body]
pub struct EventChannel {
    inner: Channel<NoopRawMutex, Event, CHANNEL_CAPACITY>,
}

/// The events waiting in a mailbox, oldest first.
pub uninterp spec fn queued(c: EventChannel) -> Seq<Event>;

impl View for EventChannel {
    type V = Seq<Event>;

    open spec fn view(&self) -> Seq<Event> {
        queued(*self)
    }
}

/// Relies on embassy_sync's `Channel::new`: a channel with no message in it.
#[verifier::external_body]
fn channel_new() -> (r: EventChannel)
    ensures
        queued(r) == Seq::<Event>::empty(),
{
    EventChannel { inner: Channel::new() }
}

/// Relies on embassy_sync's `Channel::try_send`: the message goes to the back of
/// the queue unless the queue is full, in which case it is handed back and the
/// queue is left as it was.
#[verifier::external_body]
fn channel_try_send(c: &mut EventChannel, e: Event) -> (r: Result<(), Event>)
    ensures
        queued(*old(c)).len() < CHANNEL_CAPACITY ==> r is Ok && queued(*final(c)) == queued(*old(c)).push(e),
        queued(*old(c)).len() >= CHANNEL_CAPACITY ==> r is Err && r->Err_0 == e && queued(*final(c)) == queued(*old(c)),
{
    match c.inner.try_send(e) {
        Ok(()) => Ok(()),
        Err(TrySendError::Full(e)) => Err(e),
    }
}

/// Relies on embassy_sync's `Channel::try_receive`: the oldest message leaves the
/// queue; on an empty queue nothing comes and nothing changes.
#[verifier::external_body]
fn channel_try_receive(c: &mut EventChannel) -> (r: Option<Event>)
    ensures
        queued(*old(c)).len() == 0 ==> r == None::<Event> && queued(*final(c)) == queued(*old(c)),
        queued(*old(c)).len() > 0 ==> r == Some(queued(*old(c))[0]) && queued(*final(c)) == queued(*old(c)).drop_first(),
{
    c.inner.try_receive().ok()
}

impl EventChannel {
    /// An empty mailbox.
    pub fn new() -> (r: EventChannel)
        ensures
            r@ == Seq::<Event>::empty(),
    {
        channel_new()
    }

    /// Queues `e` behind the waiting events, or hands it back when the mailbox
    /// is full; a producer that gets it back waits and tries again, so nothing is dropped.
    pub fn try_publish(&mut self, e: Event) -> (r: Result<(), Event>)
        ensures
            old(self)@.len() < CHANNEL_CAPACITY ==> r is Ok && final(self)@ == old(self)@.push(e),
            old(self)@.len() >= CHANNEL_CAPACITY ==> r is Err && r->Err_0 == e && final(self)@ == old(self)@,
    {
        channel_try_send(self, e)
    }

    /// Takes the oldest waiting event, or `None` at once when there is none.
    pub fn try_take(&mut self) -> (r: Option<Event>)
        ensures
            old(self)@.len() == 0 ==> r == None::<Event> && final(self)@ == old(self)@,
            old(self)@.len() > 0 ==> r == Some(old(self)@[0]) && final(self)@ == old(self)@.drop_first(),
    {
        channel_try_receive(self)
    }
}

} // verus!
