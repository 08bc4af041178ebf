//! The ordered hand-off between the context that decodes and the one that applies.
use crate::muse_packet::MuseMessage;
use vstd::prelude::*;

verus! {

/// Events waiting to be applied, oldest first.
pub struct EventQueue {
    pending: Vec<MuseMessage>,
}

impl View for EventQueue {
    type V = Seq<MuseMessage>;

    closed spec fn view(&self) -> Seq<MuseMessage> {
        self.pending@
    }
}

impl EventQueue {
    /// An empty queue.
    pub fn new() -> (r: EventQueue)
        ensures
            r@ == Seq::<MuseMessage>::empty(),
    {
        EventQueue { pending: Vec::new() }
    }

    /// Enqueues one event behind those already waiting.
    pub fn push(&mut self, event: MuseMessage)
        ensures
            final(self)@ == old(self)@.push(event),
    {
        self.pending.push(event);
    }

    /// Enqueues the events of `events`, in order, behind those already waiting.
    pub fn push_all(&mut self, events: &Vec<MuseMessage>)
        ensures
            final(self)@ == old(self)@ + events@,
    {
        let ghost start = self@;
        let mut i: usize = 0;
        while i < events.len()
            invariant
                i <= events@.len(),
                self@ == start + events@.subrange(0, i as int),
            decreases events@.len() - i,
        {
            self.pending.push(events[i]);
            i = i + 1;
            assert(self@ =~= start + events@.subrange(0, i as int));
        }
        assert(events@.subrange(0, events@.len() as int) =~= events@);
    }

    /// Removes and returns every waiting event, first enqueued first.
    pub fn drain(&mut self) -> (r: Vec<MuseMessage>)
        ensures
            r@ == old(self)@,
            final(self)@ == Seq::<MuseMessage>::empty(),
    {
        let mut taken: Vec<MuseMessage> = Vec::new();
        std::mem::swap(&mut taken, &mut self.pending);
        taken
    }

    /// The number of waiting events.
    pub fn len(&self) -> (r: usize)
        ensures
            r == self@.len(),
    {
        self.pending.len()
    }

    /// Whether no event is waiting.
    pub fn is_empty(&self) -> (r: bool)
        ensures
            r == (self@.len() == 0),
    {
        self.pending.len() == 0
    }
}

} // verus!
