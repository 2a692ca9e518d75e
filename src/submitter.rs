//! The submitter's buffer: events wait here until a flush ships them as one
//! batch; a failed submission keeps them for the next attempt.
use crate::clock::now_rfc3339;
use crate::collator::CollatedSignal;
use crate::event::{event_text, Event, EventView};
use crate::json::{array_of, array_text, encode_string, json_string_text, object_of, object_text};
use crate::string_map::{bind, StringMap};
use vstd::prelude::*;

verus! {

/// The JSON text of a batch: when it was sent and the events, in order.
pub open spec fn batch_text(sent_at: Seq<char>, events: Seq<EventView>) -> Seq<char> {
    object_text(
        bind(
            bind(Seq::empty(), "sent_at"@, json_string_text(sent_at)),
            "batch"@,
            array_text(events.map_values(|e: EventView| event_text(e))),
        ),
    )
}

/// What the submitter's loop observed.
pub enum SubmitterInput {
    /// The flush interval elapsed.
    Tick,
    /// The collator sent something.
    Collated(CollatedSignal),
    /// The collator's channel is closed and drained.
    Closed,
}

/// What the submitter's loop does next.
#[derive(Debug, Copy, Clone, Eq, PartialEq, Structural)]
pub enum SubmitterAction {
    /// Nothing to ship now.
    Wait,
    /// Ship the waiting events; restart the interval when asked.
    Flush { reset_timer: bool },
    /// Ship the waiting events one last time and stop.
    FlushAndStop,
}

/// The events waiting to be shipped.
pub struct Submitter {
    events: Vec<Event>,
}

impl Submitter {
    /// The waiting events, oldest first.
    pub closed spec fn pending(&self) -> Seq<EventView> {
        self.events@.map_values(|e: Event| e@)
    }

    /// An empty buffer.
    pub fn new() -> (r: Submitter)
        ensures
            r.pending().len() == 0,
    {
        Submitter { events: Vec::new() }
    }

    /// The number of waiting events.
    pub fn len(&self) -> (r: usize)
        ensures
            r == self.pending().len(),
    {
        self.events.len()
    }

    /// The waiting events, oldest first.
    pub fn events(&self) -> (r: &Vec<Event>)
        ensures
            r@.map_values(|e: Event| e@) == self.pending(),
    {
        &self.events
    }

    /// Queue an event behind those waiting.
    pub fn push_event(&mut self, event: Event)
        ensures
            final(self).pending() == old(self).pending().push(event@),
    {
        self.events.push(event);
        assert(self.pending() =~= old(self).pending().push(event@));
    }

    /// The batch text for the waiting events stamped `sent_at`; none when
    /// nothing waits (a flush of an empty buffer does nothing).
    pub fn batch_at(&self, sent_at: &str) -> (r: Option<String>)
        ensures
            self.pending().len() == 0 ==> r is None,
            self.pending().len() > 0 ==> r is Some && r->0@ == batch_text(sent_at@, self.pending()),
    {
        if self.events.len() == 0 {
            return None;
        }
        let ghost texts = self.pending().map_values(|e: EventView| event_text(e));
        let mut items: Vec<String> = Vec::new();
        let mut i: usize = 0;
        while i < self.events.len()
            invariant
                i <= self.events@.len(),
                texts == self.pending().map_values(|e: EventView| event_text(e)),
                items@.len() == i,
                forall|j: int| 0 <= j < i ==> (#[trigger] items@[j])@ == texts[j],
            decreases self.events@.len() - i,
        {
            items.push(self.events[i].to_json());
            i = i + 1;
        }
        assert(items@.map_values(|s: String| s@) =~= texts);
        let mut fields = StringMap::new();
        fields.insert(String::from_str("sent_at"), encode_string(sent_at));
        fields.insert(String::from_str("batch"), array_of(&items));
        Some(object_of(&fields))
    }

    /// The batch text for the waiting events stamped with the current time;
    /// none when nothing waits.
    pub fn try_flush(&self) -> (r: Option<String>)
        ensures
            self.pending().len() == 0 ==> r is None,
            self.pending().len() > 0 ==> (r is Some && exists|sent_at: Seq<char>|
                r->0@ == batch_text(sent_at, self.pending())),
    {
        if self.events.len() == 0 {
            return None;
        }
        let sent_at = now_rfc3339();
        self.batch_at(sent_at.as_str())
    }

    /// Take in one observation of the loop: an event joins the queue; a tick
    /// flushes; an explicit flush flushes and restarts the interval; the end
    /// of input flushes a last time.
    pub fn on_input(&mut self, input: SubmitterInput) -> (r: SubmitterAction)
        ensures
            match input {
                SubmitterInput::Collated(CollatedSignal::Event(e)) => r == SubmitterAction::Wait
                    && final(self).pending() == old(self).pending().push(e@),
                SubmitterInput::Collated(CollatedSignal::FlushNow) => r == (SubmitterAction::Flush {
                    reset_timer: true,
                }) && final(self).pending() == old(self).pending(),
                SubmitterInput::Tick => r == (SubmitterAction::Flush { reset_timer: false })
                    && final(self).pending() == old(self).pending(),
                SubmitterInput::Closed => r == SubmitterAction::FlushAndStop
                    && final(self).pending() == old(self).pending(),
            },
    {
        match input {
            SubmitterInput::Tick => SubmitterAction::Flush { reset_timer: false },
            SubmitterInput::Collated(CollatedSignal::Event(event)) => {
                self.push_event(event);
                SubmitterAction::Wait
            },
            SubmitterInput::Collated(CollatedSignal::FlushNow) => SubmitterAction::Flush {
                reset_timer: true,
            },
            SubmitterInput::Closed => SubmitterAction::FlushAndStop,
        }
    }

    /// Record how the submission of the waiting events went: on success they
    /// are gone; on failure all of them wait for the next flush.
    pub fn on_submitted(&mut self, succeeded: bool)
        ensures
            succeeded ==> final(self).pending().len() == 0,
            !succeeded ==> final(self).pending() == old(self).pending(),
    {
        if succeeded {
            self.events.truncate(0);
            assert(self.pending() =~= Seq::<EventView>::empty());
        }
    }
}

} // verus!
