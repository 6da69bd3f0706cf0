//! The intensity channel: a bounded queue of tokio between the audio side,
//! which never waits, and the control side.
//!
//! While one owner holds both ends, the queue is a plain bounded sequence,
//! and this module says exactly what each call does to it. Once the ends are
//! split between two contexts, each end can count only on what the other
//! cannot undo: the consumer on the values that waited at the split, the
//! producer on the slots that were free then.

use crate::intensity::Intensity;
use tokio::sync::mpsc::error::{TryRecvError, TrySendError};
use tokio::sync::mpsc::{Receiver, Sender};
use vstd::prelude::*;

verus! {

/// The sending half of a tokio channel.
#[verifier::external_type_specification]
#[verifier::external_body]
#[verifier::reject_recursive_types(T)]
pub struct ExSender<T>(Sender<T>);

/// The receiving half of a tokio channel.
#[verifier::external_type_specification]
#[verifier::external_body]
#[verifier::reject_recursive_types(T)]
pub struct ExReceiver<T>(Receiver<T>);

/// The values that a receiver can count on to wait in its channel, oldest
/// first. While one owner holds the receiver and the only sender, these are
/// all the values that wait. Afterwards they are those of them that have
/// not been received yet: what a sender adds elsewhere comes behind them.
pub uninterp spec fn queued(rx: Receiver<Intensity>) -> Seq<Intensity>;

/// The number of slots that the only sender of a channel can count on to
/// be free. While one owner holds that sender and the receiver, these are
/// all the free slots. Afterwards they are those of them that the sender
/// has not taken since: what a receiver frees elsewhere comes on top.
pub uninterp spec fn room(tx: Sender<Intensity>) -> nat;

/// The number of slots that the channel of a receiver was made with.
pub uninterp spec fn slots(rx: Receiver<Intensity>) -> nat;

/// The largest number of slots that a channel can be made with.
pub open spec fn max_slots() -> nat {
    (usize::MAX / 8) as nat
}

/// How an attempt to send ended.
#[derive(Clone, Copy, Debug, PartialEq, Eq)]
pub enum Offered {
    /// The value is in the queue.
    Queued,
    /// The queue was full; the value is lost.
    Dropped,
    /// The receiving end is gone; the value is lost.
    Closed,
}

/// How an attempt to receive ended.
#[derive(Clone, Copy, Debug, PartialEq, Eq)]
pub enum Polled {
    /// The oldest value that was waiting.
    Value(Intensity),
    /// Nothing is waiting, but more may come.
    Empty,
    /// Nothing is waiting, and every sending end is gone.
    Closed,
}

/// The free slots of a queue of `capacity` slots that holds `length` values.
pub open spec fn free_slots(length: nat, capacity: nat) -> nat {
    if length <= capacity {
        (capacity - length) as nat
    } else {
        0
    }
}

/// The slots that a sender can still count on after one of them took a value.
pub open spec fn one_taken(room: nat) -> nat {
    if room > 0 {
        (room - 1) as nat
    } else {
        0
    }
}

/// A queue of `capacity` slots with `value` offered to it: taken at the end
/// where there is room, lost where there is none.
pub open spec fn offered(queue: Seq<Intensity>, capacity: nat, value: Intensity) -> Seq<Intensity> {
    if queue.len() < capacity {
        queue.push(value)
    } else {
        queue
    }
}

/// A queue of `capacity` slots with each of `values` offered to it in turn,
/// and nothing taken out meanwhile.
pub open spec fn offered_all(queue: Seq<Intensity>, capacity: nat, values: Seq<Intensity>) -> Seq<
    Intensity,
>
    decreases values.len(),
{
    if values.len() == 0 {
        queue
    } else {
        offered(offered_all(queue, capacity, values.drop_last()), capacity, values.last())
    }
}

/// Of values offered to an empty queue without draining, the queue keeps as
/// many as it has slots: the first ones, in the order in which they came.
/// The others are lost.
pub proof fn lemma_overflow_keeps_first(capacity: nat, values: Seq<Intensity>)
    ensures
        offered_all(Seq::empty(), capacity, values) == (if values.len() <= capacity {
            values
        } else {
            values.take(capacity as int)
        }),
    decreases values.len(),
{
    if values.len() > 0 {
        let head = values.drop_last();
        lemma_overflow_keeps_first(capacity, head);
        if values.len() <= capacity {
            assert(head.push(values.last()) =~= values);
        } else if head.len() <= capacity {
            assert(head =~= values.take(capacity as int));
        } else {
            assert(head.take(capacity as int) =~= values.take(capacity as int));
        }
    }
}

/// Both ends of an intensity channel in one hand.
pub struct IntensityChannel {
    tx: Sender<Intensity>,
    rx: Receiver<Intensity>,
}

/// The sending end, for the audio side.
pub struct Producer {
    tx: Sender<Intensity>,
}

/// The receiving end, for the control side.
pub struct Consumer {
    rx: Receiver<Intensity>,
}

/// Calls `tokio::sync::mpsc::channel`, which panics on a capacity of zero
/// and on one above an eighth of the largest `usize`. The channel it makes
/// is empty and has the slots asked for.
#[verifier::external_body]
fn make_channel(capacity: usize) -> (ch: IntensityChannel)
    requires
        0 < capacity <= max_slots(),
    ensures
        queued(ch.rx) == Seq::<Intensity>::empty(),
        slots(ch.rx) == capacity,
        room(ch.tx) == capacity,
{
    let (tx, rx) = tokio::sync::mpsc::channel(capacity);
    IntensityChannel { tx, rx }
}

/// Calls `Sender::try_send` on a channel whose only sender and whose
/// receiver the caller holds. The call takes a free slot and appends the
/// value; with no free slot it gives the value back as `Full`. It reports
/// `Closed` only after the receiver was closed or dropped, which cannot
/// have happened here.
#[verifier::external_body]
fn send_held(ch: &mut IntensityChannel, value: Intensity) -> (r: Offered)
    ensures
        slots(final(ch).rx) == slots(old(ch).rx),
        queued(final(ch).rx) == offered(queued(old(ch).rx), slots(old(ch).rx), value),
        r == (if queued(old(ch).rx).len() < slots(old(ch).rx) {
            Offered::Queued
        } else {
            Offered::Dropped
        }),
        room(final(ch).tx) == free_slots(queued(final(ch).rx).len(), slots(final(ch).rx)),
{
    match ch.tx.try_send(value) {
        Ok(()) => Offered::Queued,
        Err(TrySendError::Full(_)) => Offered::Dropped,
        Err(TrySendError::Closed(_)) => Offered::Closed,
    }
}

/// Calls `Receiver::try_recv` on a channel whose only sender and whose
/// receiver the caller holds. The call pops the oldest value and frees its
/// slot; on an empty queue it reports `Empty`, since a sender is left.
#[verifier::external_body]
fn receive_held(ch: &mut IntensityChannel) -> (r: Polled)
    ensures
        slots(final(ch).rx) == slots(old(ch).rx),
        queued(old(ch).rx).len() == 0 ==> r == Polled::Empty && queued(final(ch).rx) == queued(
            old(ch).rx,
        ),
        queued(old(ch).rx).len() > 0 ==> r == Polled::Value(queued(old(ch).rx)[0]) && queued(
            final(ch).rx,
        ) == queued(old(ch).rx).drop_first(),
        room(final(ch).tx) == free_slots(queued(final(ch).rx).len(), slots(final(ch).rx)),
{
    match ch.rx.try_recv() {
        Ok(value) => Polled::Value(value),
        Err(TryRecvError::Empty) => Polled::Empty,
        Err(TryRecvError::Disconnected) => Polled::Closed,
    }
}

/// Calls `Sender::try_send`, which never waits, on the only sender of a
/// channel whose receiver is elsewhere. The call reports `Full` only where
/// no slot is free, and a receiver can only free slots: so a slot that the
/// sender could count on is still there. A value that is taken uses one up.
/// Whether the receiver is gone, and what it has freed, shows only in what
/// comes back.
#[verifier::external_body]
fn send_split(tx: &mut Sender<Intensity>, value: Intensity) -> (r: Offered)
    ensures
        room(*old(tx)) > 0 ==> r != Offered::Dropped,
        room(*final(tx)) == (if r == Offered::Queued {
            one_taken(room(*old(tx)))
        } else {
            room(*old(tx))
        }),
{
    match tx.try_send(value) {
        Ok(()) => Offered::Queued,
        Err(TrySendError::Full(_)) => Offered::Dropped,
        Err(TrySendError::Closed(_)) => Offered::Closed,
    }
}

/// Calls `Receiver::try_recv` on the receiver of a channel whose sender is
/// elsewhere. The call pops the oldest value that waits, and reports
/// `Empty` or `Disconnected` only where none does: so a value that the
/// receiver could count on comes out, the oldest first. What the sender has
/// added behind them, and whether it is gone, shows only in what comes back
/// once they are used up.
#[verifier::external_body]
fn receive_split(rx: &mut Receiver<Intensity>) -> (r: Polled)
    ensures
        queued(*old(rx)).len() > 0 ==> r == Polled::Value(queued(*old(rx))[0]) && queued(
            *final(rx),
        ) == queued(*old(rx)).drop_first(),
        queued(*old(rx)).len() == 0 ==> queued(*final(rx)) == queued(*old(rx)),
{
    match rx.try_recv() {
        Ok(value) => Polled::Value(value),
        Err(TryRecvError::Empty) => Polled::Empty,
        Err(TryRecvError::Disconnected) => Polled::Closed,
    }
}

impl View for IntensityChannel {
    type V = Seq<Intensity>;

    /// The values that wait, oldest first.
    closed spec fn view(&self) -> Seq<Intensity> {
        queued(self.rx)
    }
}

impl IntensityChannel {
    /// The number of slots.
    pub closed spec fn capacity(&self) -> nat {
        slots(self.rx)
    }

    /// The number of free slots.
    pub closed spec fn room(&self) -> nat {
        room(self.tx)
    }

    /// An empty channel of `capacity` slots, where the machine can make one.
    pub fn bounded(capacity: usize) -> (r: Option<IntensityChannel>)
        ensures
            r is Some <==> 0 < capacity <= max_slots(),
            r matches Some(ch) ==> ch@ == Seq::<Intensity>::empty() && ch.capacity() == capacity
                && ch.room() == capacity,
    {
        if capacity == 0 || capacity > usize::MAX / 8 {
            None
        } else {
            Some(make_channel(capacity))
        }
    }

    /// Offers a value without waiting. On a full queue the value is lost and
    /// the queue is as it was.
    pub fn try_send(&mut self, value: Intensity) -> (r: Offered)
        ensures
            final(self).capacity() == old(self).capacity(),
            final(self)@ == offered(old(self)@, old(self).capacity(), value),
            r == (if old(self)@.len() < old(self).capacity() {
                Offered::Queued
            } else {
                Offered::Dropped
            }),
            final(self).room() == free_slots(final(self)@.len(), final(self).capacity()),
    {
        send_held(self, value)
    }

    /// Takes the oldest waiting value, if there is one.
    pub fn try_receive(&mut self) -> (r: Polled)
        ensures
            final(self).capacity() == old(self).capacity(),
            old(self)@.len() == 0 ==> r == Polled::Empty && final(self)@ == old(self)@,
            old(self)@.len() > 0 ==> r == Polled::Value(old(self)@[0]) && final(self)@ == old(
                self,
            )@.drop_first(),
            final(self).room() == free_slots(final(self)@.len(), final(self).capacity()),
    {
        receive_held(self)
    }

    /// The two ends of this channel, each on its own.
    pub closed spec fn ends(self) -> (Producer, Consumer) {
        (Producer { tx: self.tx }, Consumer { rx: self.rx })
    }

    /// Parts the two ends, to be used from two contexts. What waits in the
    /// queue stays there for the consumer, and what is free of it stays
    /// free for the producer.
    pub fn split(self) -> (r: (Producer, Consumer))
        ensures
            r == self.ends(),
            r.0.room() == self.room(),
            r.1.backlog() == self@,
    {
        (Producer { tx: self.tx }, Consumer { rx: self.rx })
    }
}

impl Producer {
    /// The number of slots that this end can count on to be free: those
    /// that were free at the split and that it has not taken since. The
    /// consumer may have freed more.
    pub closed spec fn room(&self) -> nat {
        room(self.tx)
    }

    /// Offers a value without waiting. The value is lost where the queue is
    /// full or the consumer is gone. It is never lost for want of a slot
    /// while this end can count on one, and a value that is queued uses one
    /// up.
    pub fn try_send(&mut self, value: Intensity) -> (r: Offered)
        ensures
            old(self).room() > 0 ==> r != Offered::Dropped,
            final(self).room() == (if r == Offered::Queued {
                one_taken(old(self).room())
            } else {
                old(self).room()
            }),
    {
        send_split(&mut self.tx, value)
    }
}

impl Consumer {
    /// The values that this end can count on to wait, oldest first: those
    /// that waited at the split and that it has not taken since. The
    /// producer may have queued more behind them.
    pub closed spec fn backlog(&self) -> Seq<Intensity> {
        queued(self.rx)
    }

    /// Takes the oldest waiting value, if there is one, and says so where
    /// the producer is gone and nothing is left. While this end can count
    /// on a value, the oldest of them is what comes out.
    pub fn try_receive(&mut self) -> (r: Polled)
        ensures
            old(self).backlog().len() > 0 ==> r == Polled::Value(old(self).backlog()[0])
                && final(self).backlog() == old(self).backlog().drop_first(),
            old(self).backlog().len() == 0 ==> final(self).backlog() == old(self).backlog(),
    {
        receive_split(&mut self.rx)
    }
}

} // verus!
