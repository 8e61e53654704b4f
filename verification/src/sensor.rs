//! The rotation sensor: from its level, sampled again and again, to pulses.

use crate::event::Event;
use crate::queue::{enqueue, EventQueue};
use vstd::prelude::*;

verus! {

/// Milliseconds between two samples of the sensor.
pub const POLL_INTERVAL_MILLIS: u64 = 10;

/// How the sensor's level moved between two samples.
#[derive(Clone, Copy, Debug, PartialEq, Eq, Structural)]
pub enum Edge {
    /// It became active: the arm arrived.
    Leading,
    /// It stopped being active: the arm left.
    Trailing,
    /// It stayed as it was.
    Level,
}

/// The move from the level `before` to the level `now_active`.
pub open spec fn edge_between(before: bool, now_active: bool) -> Edge {
    if now_active && !before {
        Edge::Leading
    } else if !now_active && before {
        Edge::Trailing
    } else {
        Edge::Level
    }
}

/// Remembers the sensor's last level, to tell an arrival from a stay.
pub struct EdgeDetector {
    last_state: bool,
}

impl EdgeDetector {
    /// The level seen last.
    pub closed spec fn last_state(self) -> bool {
        self.last_state
    }

    /// A detector that has seen the sensor inactive.
    pub fn new() -> (detector: EdgeDetector)
        ensures
            !detector.last_state(),
    {
        EdgeDetector { last_state: false }
    }

    /// Takes in the level `active` and says how it moved.
    pub fn sample(&mut self, active: bool) -> (edge: Edge)
        ensures
            edge == edge_between(old(self).last_state(), active),
            final(self).last_state() == active,
    {
        let edge = if active && !self.last_state {
            Edge::Leading
        } else if !active && self.last_state {
            Edge::Trailing
        } else {
            Edge::Level
        };
        self.last_state = active;
        edge
    }

    /// Takes in the level `active`, sampled at `now` milliseconds, and puts
    /// a pulse into `queue` where the level has just become active. Returns
    /// how the level moved.
    pub fn watch(&mut self, queue: &mut EventQueue, active: bool, now: u64) -> (edge: Edge)
        ensures
            edge == edge_between(old(self).last_state(), active),
            final(self).last_state() == active,
            final(queue)@ == if edge == Edge::Leading && old(queue)@.len() < 64 {
                old(queue)@.push(Event::HallSensorTrigger(now))
            } else {
                old(queue)@
            },
    {
        let edge = self.sample(active);
        match edge {
            Edge::Leading => {
                enqueue(queue, Event::HallSensorTrigger(now));
            },
            _ => {},
        }
        edge
    }
}

} // verus!
