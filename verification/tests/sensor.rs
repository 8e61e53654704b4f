use katapult::event::Event;
use katapult::queue::{try_dequeue, EventQueue};
use katapult::sensor::{Edge, EdgeDetector, POLL_INTERVAL_MILLIS};

#[test]
fn level_that_stays_is_no_edge() {
    let mut detector = EdgeDetector::new();
    assert_eq!(detector.sample(false), Edge::Level);
    assert_eq!(detector.sample(false), Edge::Level);
}

#[test]
fn arrival_is_a_leading_edge_once() {
    let mut detector = EdgeDetector::new();
    assert_eq!(detector.sample(true), Edge::Leading);
    assert_eq!(detector.sample(true), Edge::Level);
    assert_eq!(detector.sample(true), Edge::Level);
}

#[test]
fn departure_is_a_trailing_edge() {
    let mut detector = EdgeDetector::new();
    detector.sample(true);
    assert_eq!(detector.sample(false), Edge::Trailing);
    assert_eq!(detector.sample(false), Edge::Level);
    assert_eq!(detector.sample(true), Edge::Leading);
}

#[test]
fn watch_queues_one_pulse_for_each_arrival() {
    let mut detector = EdgeDetector::new();
    let mut queue = EventQueue::new();
    let levels = [false, true, true, false, false, true, false];
    let mut now = 0;
    for level in levels {
        detector.watch(&mut queue, level, now);
        now += POLL_INTERVAL_MILLIS;
    }
    assert_eq!(try_dequeue(&mut queue), Some(Event::HallSensorTrigger(10)));
    assert_eq!(try_dequeue(&mut queue), Some(Event::HallSensorTrigger(50)));
    assert_eq!(try_dequeue(&mut queue), None);
}

#[test]
fn watch_says_how_the_level_moved() {
    let mut detector = EdgeDetector::new();
    let mut queue = EventQueue::new();
    assert_eq!(detector.watch(&mut queue, true, 3), Edge::Leading);
    assert_eq!(detector.watch(&mut queue, false, 4), Edge::Trailing);
    assert_eq!(detector.watch(&mut queue, false, 5), Edge::Level);
}

#[test]
fn sensor_is_sampled_every_10_ms() {
    assert_eq!(POLL_INTERVAL_MILLIS, 10);
}
