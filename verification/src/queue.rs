//! The bounded queue between the producers of events and the control loop.

use crate::event::Event;
use heapless::mpmc::MpMcQueue;
use vstd::prelude::*;

verus! {

/// Number of events that the queue holds.
pub const CAPACITY: usize = 64;

/// Makes `heapless::mpmc::MpMcQueue` known to the verifier, as a type that
/// it cannot see into.
#[verifier::external_type_specification]
#[verifier::external_body]
#[verifier::reject_recursive_types(T)]
pub struct ExMpMcQueue<T, const N: usize>(MpMcQueue<T, N>);

/// The events waiting in a queue, the one that went in first at index 0.
pub uninterp spec fn queued(queue: MpMcQueue<Event, 64>) -> Seq<Event>;

/// Calls `MpMcQueue::new`, which makes an empty queue.
#[verifier::external_body]
fn slots_new() -> (queue: MpMcQueue<Event, 64>)
    ensures
        queued(queue) == Seq::<Event>::empty(),
{
    MpMcQueue::new()
}

/// Calls `MpMcQueue::enqueue`. With nobody else at the queue, it puts the
/// event behind those that wait, unless 64 of them wait already: then it
/// leaves the queue as it is and hands the event back. No queue ever holds
/// more than 64.
#[verifier::external_body]
fn slots_enqueue(queue: &mut MpMcQueue<Event, 64>, event: Event) -> (outcome: Result<(), Event>)
    ensures
        match outcome {
            Ok(_) => queued(*old(queue)).len() < 64 && queued(*final(queue)) == queued(
                *old(queue),
            ).push(event),
            Err(back) => queued(*old(queue)).len() >= 64 && back == event && queued(
                *final(queue),
            ) == queued(*old(queue)),
        },
        queued(*final(queue)).len() <= 64,
{
    queue.enqueue(event)
}

/// Calls `MpMcQueue::dequeue`. With nobody else at the queue, it takes out
/// the event that went in first, or returns `None` where none waits. No
/// queue ever holds more than 64.
#[verifier::external_body]
fn slots_dequeue(queue: &mut MpMcQueue<Event, 64>) -> (front: Option<Event>)
    ensures
        match front {
            Some(event) => queued(*old(queue)).len() > 0 && event == queued(*old(queue))[0]
                && queued(*final(queue)) == queued(*old(queue)).drop_first(),
            None => queued(*old(queue)).len() == 0 && queued(*final(queue)) == queued(
                *old(queue),
            ),
        },
        queued(*final(queue)).len() <= 64,
{
    queue.dequeue()
}

/// A first-in, first-out queue of at most 64 events. Its two operations
/// take the queue exclusively: producers and consumer that share one take
/// turns at it.
pub struct EventQueue {
    slots: MpMcQueue<Event, 64>,
}

impl View for EventQueue {
    type V = Seq<Event>;

    closed spec fn view(&self) -> Seq<Event> {
        queued(self.slots)
    }
}

impl EventQueue {
    /// An empty queue.
    pub fn new() -> (queue: EventQueue)
        ensures
            queue@ == Seq::<Event>::empty(),
    {
        EventQueue { slots: slots_new() }
    }
}

/// Puts `msg` at the end of the queue. A full queue stays as it is, and
/// `msg` is dropped: the producer is never held up and never told.
pub fn enqueue(queue: &mut EventQueue, msg: Event)
    ensures
        final(queue)@ == if old(queue)@.len() < 64 {
            old(queue)@.push(msg)
        } else {
            old(queue)@
        },
        final(queue)@.len() <= 64,
{
    let _ = slots_enqueue(&mut queue.slots, msg);
}

/// Takes the oldest event out of the queue, or returns `None` at once
/// where it is empty.
pub fn try_dequeue(queue: &mut EventQueue) -> (front: Option<Event>)
    ensures
        front == if old(queue)@.len() > 0 {
            Some(old(queue)@[0])
        } else {
            None
        },
        final(queue)@ == if old(queue)@.len() > 0 {
            old(queue)@.drop_first()
        } else {
            old(queue)@
        },
        final(queue)@.len() <= 64,
{
    slots_dequeue(&mut queue.slots)
}

} // verus!
