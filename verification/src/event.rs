//! What reaches the control loop, and what it asks for in return.

use crate::message::Message;
use crate::sessions::SinkHandle;
use vstd::prelude::*;

verus! {

/// Something that happened, as its producer puts it into the queue.
#[derive(Debug, PartialEq, Eq)]
pub enum Event {
    /// Text to push to every subscriber as it is.
    Broadcast(String),
    /// A subscriber attached: its session id and its sink.
    AddSession(i32, SinkHandle),
    /// The session with this id is over.
    RemoveSession(i32),
    /// Move the trigger: to the angle given, or to its other position.
    TurnServo(Option<i32>),
    /// Arm a shot at this target angle, or disarm.
    InitiateShot(i32),
    /// The arm passed the sensor, at this time in milliseconds.
    HallSensorTrigger(u64),
}

/// Something for the caller of the control loop to do. The actions of one
/// event are carried out in their order, each to its end before the next.
#[derive(Debug, PartialEq, Eq)]
pub enum Action {
    /// Block for this many nanoseconds.
    Sleep(u64),
    /// Put pulses of this width, in microseconds, on the servo output.
    CommandServo(u32),
    /// Push this notification to every registered sink, then report the
    /// sessions whose sink failed.
    Notify(Message),
    /// Push this text to every registered sink, then report the sessions
    /// whose sink failed.
    Broadcast(String),
    /// Let go of this sink: no session has it any more.
    ReleaseSink(SinkHandle),
}

} // verus!
