//! The events of a run that are still at hand, each with its place among all of them.

use crate::daemon::protocol::{BufferedStreamEvent, StreamEvent};
use std::collections::VecDeque;
use vstd::prelude::*;

verus! {

/// The most events that are kept.
pub const MAX_EVENT_BUFFER: usize = 256;

#[derive(Debug)]
pub struct EventBuffer {
    pub first_offset: u64,
    pub next_offset: u64,
    pub events: VecDeque<BufferedStreamEvent>,
}

/// The events that are kept, and the place of the first of them.
pub struct EventWindow {
    pub first: nat,
    pub events: Seq<StreamEvent>,
}

impl View for EventBuffer {
    type V = EventWindow;

    open spec fn view(&self) -> EventWindow {
        EventWindow {
            first: self.first_offset as nat,
            events: self.events@.map_values(|e: BufferedStreamEvent| e.event),
        }
    }
}

/// A window after one more event.
pub open spec fn pushed(window: EventWindow, event: StreamEvent) -> EventWindow {
    if window.events.len() == MAX_EVENT_BUFFER {
        EventWindow { first: window.first + 1, events: window.events.drop_first().push(event) }
    } else {
        EventWindow { first: window.first, events: window.events.push(event) }
    }
}

/// A window after some events, from an empty one.
pub open spec fn window_of(history: Seq<StreamEvent>) -> EventWindow
    decreases history.len(),
{
    if history.len() == 0 {
        EventWindow { first: 0, events: Seq::empty() }
    } else {
        pushed(window_of(history.drop_last()), history.last())
    }
}

/// The events from a place on, at most `limit` of them.
pub open spec fn page_of(window: EventWindow, from: nat, limit: nat) -> Seq<StreamEvent> {
    let start = from - window.first;
    if start >= window.events.len() {
        Seq::empty()
    } else if start + limit >= window.events.len() {
        window.events.skip(start)
    } else {
        window.events.subrange(start, start + limit)
    }
}

/// Events with their places, from a place on.
pub open spec fn placed(events: Seq<BufferedStreamEvent>, from: nat) -> bool {
    forall|i: int| 0 <= i < events.len() ==> (#[trigger] events[i]).offset == from + i
}

impl EventBuffer {
    /// What holds of every buffer: the places are without gaps, and no more events are kept than
    /// the most.
    pub open spec fn well_formed(self) -> bool {
        &&& self.first_offset + self.events@.len() == self.next_offset
        &&& self.events@.len() <= MAX_EVENT_BUFFER
        &&& placed(self.events@, self.first_offset as nat)
    }

    pub fn new() -> (result: Self)
        ensures
            result.well_formed(),
            result.first_offset == 0,
            result.next_offset == 0,
            result@ == window_of(Seq::empty()),
    {
        let result = EventBuffer { first_offset: 0, next_offset: 0, events: VecDeque::new() };
        assert(result@.events =~= Seq::<StreamEvent>::empty());
        result
    }

    /// Adds an event; where the buffer is full, the oldest one is dropped.
    pub fn push(&mut self, event: StreamEvent)
        requires
            old(self).well_formed(),
            old(self).next_offset < u64::MAX,
        ensures
            final(self).well_formed(),
            final(self)@ == pushed(old(self)@, event),
            final(self).next_offset == old(self).next_offset + 1,
    {
        let ghost before = self@;
        if self.events.len() == MAX_EVENT_BUFFER {
            let _ = self.events.pop_front();
            self.first_offset = self.first_offset + 1;
            assert(self@.events =~= before.events.drop_first());
        }
        let ghost middle = self@;
        let offset = self.next_offset;
        self.next_offset = self.next_offset + 1;
        self.events.push_back(BufferedStreamEvent { offset, event });
        assert(self@.events =~= middle.events.push(event));
    }

    /// The events from a place on, at most `limit` of them; nothing where the place is no longer at
    /// hand.
    pub fn page(&self, from_offset: u64, limit: usize) -> (result: Option<
        Vec<BufferedStreamEvent>,
    >)
        requires
            self.well_formed(),
        ensures
            result is None <==> from_offset < self.first_offset,
            result matches Some(events) ==> {
                &&& events@.map_values(|e: BufferedStreamEvent| e.event) == page_of(
                    self@,
                    from_offset as nat,
                    limit as nat,
                )
                &&& placed(events@, from_offset as nat)
                &&& from_offset + events@.len() <= u64::MAX
            },
    {
        if from_offset < self.first_offset {
            return None;
        }
        let ghost window = self@;
        let skipped: u64 = from_offset - self.first_offset;
        let mut page: Vec<BufferedStreamEvent> = Vec::new();
        if skipped >= self.events.len() as u64 {
            assert(page@.map_values(|e: BufferedStreamEvent| e.event) =~= page_of(
                window,
                from_offset as nat,
                limit as nat,
            ));
            return Some(page);
        }
        let start: usize = skipped as usize;
        let mut i: usize = start;
        while i < self.events.len() && page.len() < limit
            invariant
                self.well_formed(),
                start <= i <= self.events@.len(),
                start == from_offset - self.first_offset,
                page@.len() == i - start,
                page@.len() <= limit,
                forall|j: int| 0 <= j < page@.len() ==> #[trigger] page@[j] == self.events@[start + j],
            decreases self.events@.len() - i,
        {
            page.push(self.events[i].clone());
            i = i + 1;
        }
        assert forall|j: int| 0 <= j < page@.len() implies (#[trigger] page@[j]).offset
            == from_offset + j by {
            assert(page@[j] == self.events@[start + j]);
        }
        assert(page@.map_values(|e: BufferedStreamEvent| e.event) =~= page_of(
            window,
            from_offset as nat,
            limit as nat,
        ));
        Some(page)
    }
}

/// What is kept of some events is their end, and it is all of them while there are no more than
/// the most.
pub proof fn window_holds_the_latest(history: Seq<StreamEvent>)
    ensures
        ({
            let first: int = if history.len() <= MAX_EVENT_BUFFER {
                0
            } else {
                history.len() - MAX_EVENT_BUFFER
            };
            &&& window_of(history).first == first
            &&& window_of(history).events == history.skip(first)
        }),
    decreases history.len(),
{
    if history.len() == 0 {
        assert(history.skip(0) =~= Seq::<StreamEvent>::empty());
    } else {
        window_holds_the_latest(history.drop_last());
        let earlier = window_of(history.drop_last());
        let first: int = if history.len() <= MAX_EVENT_BUFFER {
            0
        } else {
            history.len() - MAX_EVENT_BUFFER
        };
        if earlier.events.len() == MAX_EVENT_BUFFER {
            assert(earlier.events.drop_first().push(history.last()) =~= history.skip(first));
        } else {
            assert(earlier.events.push(history.last()) =~= history.skip(first));
        }
    }
}

/// A page read at a place gives back the events that were pushed there, whatever came after.
pub proof fn page_reads_back_what_was_pushed(history: Seq<StreamEvent>, from: nat, limit: nat)
    requires
        window_of(history).first <= from <= history.len(),
    ensures
        page_of(window_of(history), from, limit) == (if from + limit <= history.len() {
            history.subrange(from as int, (from + limit) as int)
        } else {
            history.skip(from as int)
        }),
{
    window_holds_the_latest(history);
    let window = window_of(history);
    let page = page_of(window, from, limit);
    if from + limit <= history.len() {
        assert(page =~= history.subrange(from as int, (from + limit) as int));
    } else {
        assert(page =~= history.skip(from as int));
    }
}

/// Reading on where a page ended gives the same events as one longer page.
pub proof fn pages_follow_each_other(window: EventWindow, from: nat, first: nat, second: nat)
    requires
        window.first <= from,
    ensures
        page_of(window, from, first) + page_of(
            window,
            from + page_of(window, from, first).len(),
            second,
        ) == page_of(window, from, if page_of(window, from, first).len() == first {
            first + second
        } else {
            first
        }),
{
    let one = page_of(window, from, first);
    let two = page_of(window, from + one.len(), second);
    let both = page_of(window, from, if one.len() == first {
        first + second
    } else {
        first
    });
    assert(one + two =~= both);
}

} // verus!
