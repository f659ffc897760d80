//! The event queue: first-in first-out delivery, non-blocking polling, and
//! closure ending the sequence without inventing events.

use tub::event::{Event, MButton, ClickType};
use tub::queue::{EventQueue, RecvOutcome};

#[test]
fn events_come_out_in_the_order_they_went_in() {
    let e1 = Event::MouseMoved(1, 2);
    let e2 = Event::MouseHover(3, 4);
    let e3 = Event::MButtonInput(ClickType::Single, MButton::Left);

    let mut q = EventQueue::new();
    q.push(e1);
    q.push(e2);
    q.push(e3);

    // One poll pass yields all three, in order, none duplicated or dropped.
    assert_eq!(q.poll_all(), vec![e1, e2, e3]);
    // The pass drained the queue: the next pass is empty, not an error.
    assert_eq!(q.poll_all(), Vec::<Event>::new());
}

#[test]
fn poll_next_takes_one_event_at_a_time() {
    let mut q = EventQueue::new();
    q.push(Event::MouseEnter);
    q.push(Event::MouseLeave);

    assert_eq!(q.poll_next(), Some(Event::MouseEnter));
    assert_eq!(q.poll_next(), Some(Event::MouseLeave));
    assert_eq!(q.poll_next(), None);
    assert_eq!(q.poll_next(), None);
}

#[test]
fn closure_ends_the_sequence_after_pending_events() {
    let mut q = EventQueue::new();
    q.push(Event::Moved(7, 8));
    q.push(Event::Closed);
    q.close();

    // Everything enqueued before closure is still delivered, in order.
    assert_eq!(q.recv_step(), RecvOutcome::Received(Event::Moved(7, 8)));
    assert_eq!(q.recv_step(), RecvOutcome::Received(Event::Closed));
    // Then the sequence ends: disconnection, never a block, never a
    // phantom event.
    assert_eq!(q.recv_step(), RecvOutcome::Disconnected);
    assert_eq!(q.recv_step(), RecvOutcome::Disconnected);
}

#[test]
fn open_empty_queue_reports_would_block() {
    let mut q = EventQueue::new();
    assert_eq!(q.recv_step(), RecvOutcome::Empty);
    q.push(Event::MouseEnter);
    assert_eq!(q.recv_step(), RecvOutcome::Received(Event::MouseEnter));
    assert_eq!(q.recv_step(), RecvOutcome::Empty);
}

#[test]
fn push_after_close_is_silently_dropped() {
    let mut q = EventQueue::new();
    q.push(Event::MouseEnter);
    q.close();
    q.push(Event::MouseLeave);

    assert_eq!(q.recv_step(), RecvOutcome::Received(Event::MouseEnter));
    assert_eq!(q.recv_step(), RecvOutcome::Disconnected);
}

#[test]
fn polling_a_closed_queue_still_drains_pending_events() {
    let mut q = EventQueue::new();
    q.push(Event::MouseEnter);
    q.push(Event::Closed);
    q.close();
    assert_eq!(q.poll_all(), vec![Event::MouseEnter, Event::Closed]);
    assert_eq!(q.poll_all(), Vec::<Event>::new());
    assert!(q.closed());
}
