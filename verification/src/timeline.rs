//! Append-only, timestamped record of connection milestones.
//!
//! A timeline captures one start instant at construction and appends one
//! event per completed pipeline stage, carrying the elapsed time since that
//! start. Events are never removed, reordered or mutated after being
//! appended, and their offsets never decrease.

use vstd::prelude::*;

use std::time::Instant;

verus! {

/// Declares std's `Instant` so a timeline can carry its start instant;
/// the value stays opaque, read only through the clock calls below.
#[verifier::external_type_specification]
#[verifier::external_body]
pub struct ExInstant(Instant);

/// Relies on std's `Instant::now`: an opaque reading of the monotonic clock.
#[verifier::external_body]
fn now_instant() -> Instant {
    Instant::now()
}

/// Relies on std's `Instant::elapsed` and `Duration::{as_secs, subsec_nanos}`:
/// the time since `start`, split into whole seconds and the sub-second
/// remainder, which std documents to be below one billion nanoseconds.
#[verifier::external_body]
fn elapsed_parts(start: &Instant) -> (r: (u64, u32))
    ensures
        r.1 < 1_000_000_000,
{
    let e = start.elapsed();
    (e.as_secs(), e.subsec_nanos())
}

/// One recorded milestone: the elapsed offset since the timeline's start,
/// a short human-readable label, and an optional attached payload.
#[derive(Debug)]
pub struct Event<T> {
    pub seconds: u64,
    pub nanos: u32,
    pub description: String,
    pub metadata: Option<T>,
}

/// `a`'s offset is at or before `b`'s.
pub open spec fn offset_le<T>(a: Event<T>, b: Event<T>) -> bool {
    a.seconds < b.seconds || (a.seconds == b.seconds && a.nanos <= b.nanos)
}

/// Offsets never decrease along the sequence, and every sub-second part is
/// a valid nanosecond remainder.
pub open spec fn offsets_nondecreasing<T>(events: Seq<Event<T>>) -> bool {
    &&& forall|i: int, j: int|
        0 <= i <= j < events.len() ==> #[trigger] offset_le(events[i], events[j])
    &&& forall|i: int| 0 <= i < events.len() ==> (#[trigger] events[i].nanos) < 1_000_000_000
}

/// In a timeline whose offsets never decrease, the elapsed offset of any
/// earlier event is at or before that of any later one: recording order
/// and elapsed time agree.
pub proof fn lemma_offsets_monotone<T>(events: Seq<Event<T>>, i: int, j: int)
    requires
        offsets_nondecreasing(events),
        0 <= i <= j < events.len(),
    ensures
        offset_le(events[i], events[j]),
{
}

/// Appending an event whose offset is at or after the last one keeps the
/// sequence nondecreasing.
proof fn lemma_push_preserves_order<T>(events: Seq<Event<T>>, ev: Event<T>)
    requires
        offsets_nondecreasing(events),
        ev.nanos < 1_000_000_000,
        events.len() > 0 ==> offset_le(events.last(), ev),
    ensures
        offsets_nondecreasing(events.push(ev)),
{
    let p = events.push(ev);
    assert forall|i: int, j: int| 0 <= i <= j < p.len() implies #[trigger] offset_le(
        p[i],
        p[j],
    ) by {
        if j < events.len() {
            assert(offset_le(events[i], events[j]));
        } else if i < j {
            assert(offset_le(events[i], events.last()));
        }
    }
    assert forall|i: int| 0 <= i < p.len() implies (#[trigger] p[i].nanos) < 1_000_000_000 by {
        if i < events.len() {
            assert(events[i].nanos < 1_000_000_000);
        }
    }
}

/// The ordered, append-only event record of one connection attempt.
#[derive(Debug)]
pub struct EventLog<T> {
    pub start_time: Instant,
    pub log: Vec<Event<T>>,
}

impl<T: Clone> EventLog<T> {
    /// Every recorded offset is a valid elapsed time and offsets never
    /// decrease in recording order.
    pub open spec fn wf(self) -> bool {
        offsets_nondecreasing(self.log@)
    }

    /// Captures the current instant as the timeline's start and returns an
    /// empty timeline.
    pub fn new() -> (r: EventLog<T>)
        ensures
            r.log@.len() == 0,
            r.wf(),
    {
        EventLog { start_time: now_instant(), log: Vec::new() }
    }

    /// The elapsed offset to record for the next event: the clock reading,
    /// never before the offset of the last recorded event.
    fn next_offset(&self) -> (r: (u64, u32))
        requires
            self.wf(),
        ensures
            r.1 < 1_000_000_000,
            self.log@.len() > 0 ==> {
                let last = self.log@.last();
                last.seconds < r.0 || (last.seconds == r.0 && last.nanos <= r.1)
            },
    {
        let (s, n) = elapsed_parts(&self.start_time);
        let len = self.log.len();
        if len > 0 {
            let last = &self.log[len - 1];
            if s < last.seconds || (s == last.seconds && n < last.nanos) {
                return (last.seconds, last.nanos);
            }
        }
        (s, n)
    }

    /// Appends one event with the given label and payload. Strictly
    /// additive: every already-recorded event is kept, unchanged and in
    /// place, and the new event's offset is at or after every earlier one.
    pub fn add_with_metadata(&mut self, description: String, metadata: T)
        requires
            old(self).wf(),
        ensures
            final(self).wf(),
            final(self).log@.len() == old(self).log@.len() + 1,
            forall|i: int|
                0 <= i < old(self).log@.len() ==> final(self).log@[i] == old(self).log@[i],
            final(self).log@.last().description@ == description@,
            final(self).log@.last().metadata == Some(metadata),
    {
        let (s, n) = self.next_offset();
        let event = Event { seconds: s, nanos: n, description, metadata: Some(metadata) };
        proof {
            lemma_push_preserves_order(self.log@, event);
        }
        self.log.push(event);
    }

    /// Appends one event with the given label and no payload. Strictly
    /// additive, as `add_with_metadata`.
    pub fn add(&mut self, description: &str)
        requires
            old(self).wf(),
        ensures
            final(self).wf(),
            final(self).log@.len() == old(self).log@.len() + 1,
            forall|i: int|
                0 <= i < old(self).log@.len() ==> final(self).log@[i] == old(self).log@[i],
            final(self).log@.last().description@ == description@,
            final(self).log@.last().metadata is None,
    {
        let (s, n) = self.next_offset();
        let event = Event { seconds: s, nanos: n, description: description.to_owned(), metadata: None };
        proof {
            lemma_push_preserves_order(self.log@, event);
        }
        self.log.push(event);
    }
}

/// A completed attempt's record, held for reporting.
#[allow(dead_code)]
pub struct ResponseLog {
    events: EventLog<String>,
}

} // verus!
