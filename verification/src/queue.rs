//! The ordered event queue that carries events from the pump thread to a
//! window's consumer.
//!
//! The queue models one window's event channel: the registry entry enqueues
//! at the back, the consumer takes from the front, and closing the queue
//! stands for the producer end being dropped at deregistration. Once closed,
//! nothing more is enqueued; whatever was enqueued before closure is still
//! delivered, and after the last of it a receive attempt reports
//! disconnection instead of blocking.

use vstd::prelude::*;

use crate::event::Event;

verus! {

/// One window's ordered event channel.
#[derive(Debug, PartialEq)]
pub struct EventQueue {
    /// The waiting events, front first.
    pub events: Vec<Event>,
    /// Whether the producer end has been dropped.
    pub closed: bool,
}

/// What one blocking receive attempt on a queue comes back with.
#[derive(Debug, Clone, Copy, PartialEq, Eq, Structural)]
pub enum RecvOutcome {
    /// The event at the front of the queue.
    Received(Event),
    /// The queue is empty but still open: the consumer would block.
    Empty,
    /// The queue is empty and closed: the sequence of events has ended.
    Disconnected,
}

impl View for EventQueue {
    type V = Seq<Event>;

    open spec fn view(&self) -> Seq<Event> {
        self.events@
    }
}

/// What one receive attempt on a queue with contents `events` and closure
/// state `closed` comes back with.
pub open spec fn recv_result(events: Seq<Event>, closed: bool) -> RecvOutcome {
    if events.len() > 0 {
        RecvOutcome::Received(events[0])
    } else if closed {
        RecvOutcome::Disconnected
    } else {
        RecvOutcome::Empty
    }
}

impl EventQueue {
    /// Whether the producer end has been dropped.
    pub open spec fn is_closed(&self) -> bool {
        self.closed
    }

    /// Create an empty, open queue.
    pub fn new() -> (q: EventQueue)
        ensures
            q@ == Seq::<Event>::empty(),
            !q.is_closed(),
    {
        EventQueue { events: Vec::new(), closed: false }
    }

    /// The number of events waiting in the queue.
    pub fn len(&self) -> (n: usize)
        ensures
            n == self@.len(),
    {
        self.events.len()
    }

    /// Whether any event is waiting.
    pub fn is_empty(&self) -> (b: bool)
        ensures
            b == (self@.len() == 0),
    {
        self.events.len() == 0
    }

    /// Whether the producer end has been dropped.
    pub fn closed(&self) -> (b: bool)
        ensures
            b == self.is_closed(),
    {
        self.closed
    }

    /// Enqueue one event at the back. On a closed queue this is a silent
    /// drop, never an error: the producer end is gone and the consumer has
    /// no use for further events.
    pub fn push(&mut self, event: Event)
        ensures
            final(self).is_closed() == old(self).is_closed(),
            old(self).is_closed() ==> final(self)@ == old(self)@,
            !old(self).is_closed() ==> final(self)@ == old(self)@.push(event),
    {
        if !self.closed {
            self.events.push(event);
        }
    }

    /// Drop the producer end: no further event will be enqueued, and a
    /// consumer that drains the queue then sees disconnection.
    pub fn close(&mut self)
        ensures
            final(self)@ == old(self)@,
            final(self).is_closed(),
    {
        self.closed = true;
    }

    /// One non-blocking receive attempt: the front event if one is waiting,
    /// and `None` when the queue is empty. Empty is the end of the current
    /// poll pass, not the end of the window's life.
    pub fn poll_next(&mut self) -> (r: Option<Event>)
        ensures
            final(self).is_closed() == old(self).is_closed(),
            old(self)@.len() > 0 ==> r == Some(old(self)@[0]) && final(self)@ == old(self)@.skip(1),
            old(self)@.len() == 0 ==> r is None && final(self)@ == old(self)@,
    {
        if self.events.len() > 0 {
            Some(self.events.remove(0))
        } else {
            None
        }
    }

    /// One full poll pass: every event waiting at the time of the call, in
    /// the order it was enqueued, with none duplicated and none dropped.
    /// Afterwards the queue is empty.
    pub fn poll_all(&mut self) -> (drained: Vec<Event>)
        ensures
            final(self).is_closed() == old(self).is_closed(),
            drained@ == old(self)@,
            final(self)@.len() == 0,
    {
        let mut drained: Vec<Event> = Vec::new();
        loop
            invariant
                self.is_closed() == old(self).is_closed(),
                drained@ + self@ == old(self)@,
            decreases self@.len(),
        {
            match self.poll_next() {
                Some(e) => {
                    drained.push(e);
                    proof {
                        assert(drained@ + self@ =~= old(self)@);
                    }
                },
                None => {
                    proof {
                        assert(drained@ =~= old(self)@);
                    }
                    return drained;
                },
            }
        }
    }

    /// One blocking receive attempt, as a single step: the front event if
    /// one is waiting; otherwise disconnection if the queue is closed;
    /// otherwise the consumer would block and the queue is unchanged.
    pub fn recv_step(&mut self) -> (r: RecvOutcome)
        ensures
            final(self).is_closed() == old(self).is_closed(),
            r == recv_result(old(self)@, old(self).is_closed()),
            old(self)@.len() > 0 ==> final(self)@ == old(self)@.skip(1),
            old(self)@.len() == 0 ==> final(self)@ == old(self)@,
    {
        if self.events.len() > 0 {
            RecvOutcome::Received(self.events.remove(0))
        } else if self.closed {
            RecvOutcome::Disconnected
        } else {
            RecvOutcome::Empty
        }
    }
}

/// Events pass through a queue in the order they were enqueued: enqueuing
/// `e1`, `e2`, `e3` on a drained queue leaves exactly the sequence
/// `[e1, e2, e3]`, which is what one poll pass then yields — in that order,
/// nothing duplicated, nothing dropped.
pub proof fn lemma_events_in_order(e1: Event, e2: Event, e3: Event)
    ensures
        Seq::<Event>::empty().push(e1).push(e2).push(e3) =~= seq![e1, e2, e3],
{
}

/// Closure ends the event sequence and invents nothing: a receive attempt
/// on a closed queue yields an event only while one enqueued before closure
/// is still waiting, and reports disconnection — never blocking — once the
/// queue is drained.
pub proof fn lemma_closure_ends_sequence(events: Seq<Event>)
    ensures
        events.len() > 0 ==> recv_result(events, true) == RecvOutcome::Received(events[0]),
        events.len() == 0 ==> recv_result(events, true) == RecvOutcome::Disconnected,
        recv_result(events, true) != RecvOutcome::Empty,
{
}

} // verus!
