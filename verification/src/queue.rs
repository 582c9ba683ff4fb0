//! The queue of records that wait for delivery, and the rule that decides
//! when a batch is taken from it.
use crate::clock::Timestamp;
use crate::config::Limits;
use crate::json::{log_fields, Fields, Log};
use std::collections::VecDeque;
use vstd::prelude::*;

verus! {

/// A record in the queue, with the time at which it was queued.
#[derive(Debug)]
pub struct LogEvent {
    pub log: Log,
    pub received_at: Timestamp,
}

/// The records of a run of queue entries, in the same order.
pub open spec fn logs_of(events: Seq<LogEvent>) -> Seq<Log> {
    Seq::new(events.len(), |i: int| events[i].log)
}

/// Whether each entry was queued no earlier than the one before it.
pub open spec fn stamps_ordered(events: Seq<LogEvent>) -> bool {
    forall|i: int, j: int|
        0 <= i <= j < events.len() ==> (#[trigger] events[j]).received_at.is_at_or_after(
            (#[trigger] events[i]).received_at,
        )
}

/// The time with which a record that arrives at `received_at` is queued:
/// the time of its arrival, or the time of the newest entry where the clock
/// has gone back behind that. So the times of the queue never descend.
pub open spec fn stamp_for(events: Seq<LogEvent>, received_at: Timestamp) -> Timestamp {
    if events.len() > 0 && !received_at.is_at_or_after(events.last().received_at) {
        events.last().received_at
    } else {
        received_at
    }
}

/// Whether `after` is `before` with one entry more at its tail, queued at
/// `received_at` and holding `fields`.
pub open spec fn queued(
    before: Seq<LogEvent>,
    after: Seq<LogEvent>,
    fields: Fields,
    received_at: Timestamp,
) -> bool {
    &&& after.len() == before.len() + 1
    &&& after.drop_last() == before
    &&& after.last().received_at == received_at
    &&& log_fields(after.last().log) == fields
}

/// Whether a batch is to be taken at `now`.
///
/// Never from an empty queue. A forced flush takes one from any other queue.
/// Otherwise one is taken once the queue holds a full batch, or once the
/// newest entry has reached the age limit. It is the newest entry that
/// counts, not the oldest: entries that keep arriving put the batch off.
pub open spec fn send_due(events: Seq<LogEvent>, limits: Limits, now: Timestamp, forced: bool) -> bool {
    events.len() > 0 && (forced || events.len() >= limits.max_batch_size() || now.reached(
        events.last().received_at,
        limits.max_batch_age_secs(),
    ))
}

/// How many entries the next batch takes: all of them, up to the batch size.
pub open spec fn batch_len(events: Seq<LogEvent>, limits: Limits) -> int {
    if events.len() <= limits.max_batch_size() {
        events.len() as int
    } else {
        limits.max_batch_size() as int
    }
}

/// The next batch: the records at the front of the queue, oldest first.
pub open spec fn next_batch(events: Seq<LogEvent>, limits: Limits) -> Seq<Log> {
    logs_of(events.take(batch_len(events, limits)))
}

/// The queue once the next batch is taken.
pub open spec fn after_batch(events: Seq<LogEvent>, limits: Limits) -> Seq<LogEvent> {
    events.skip(batch_len(events, limits))
}

/// Records in the order of their arrival, with the thresholds that govern
/// when they leave.
pub struct LogQueue {
    limits: Limits,
    events: VecDeque<LogEvent>,
}

impl View for LogQueue {
    type V = Seq<LogEvent>;

    /// The entries, the oldest first.
    closed spec fn view(&self) -> Seq<LogEvent> {
        self.events@
    }
}

impl LogQueue {
    /// The thresholds of the queue.
    pub closed spec fn spec_limits(&self) -> Limits {
        self.limits
    }

    /// An empty queue.
    pub fn new(limits: Limits) -> (queue: LogQueue)
        ensures
            queue@ == Seq::<LogEvent>::empty(),
            queue.spec_limits() == limits,
    {
        LogQueue { limits, events: VecDeque::new() }
    }

    #[verifier::when_used_as_spec(spec_limits)]
    pub fn limits(&self) -> (limits: Limits)
        ensures
            limits == self.spec_limits(),
    {
        self.limits
    }

    pub fn len(&self) -> (len: usize)
        ensures
            len == self@.len(),
    {
        self.events.len()
    }

    pub fn is_empty(&self) -> (empty: bool)
        ensures
            empty == (self@.len() == 0),
    {
        self.events.len() == 0
    }

    /// Appends a record at the tail. It is stamped with the time of its
    /// arrival, or with the time of the newest entry where `received_at`
    /// lies before that, so that the times of the queue stay ascending.
    pub fn push(&mut self, log: Log, received_at: Timestamp)
        ensures
            final(self)@ == old(self)@.push(
                LogEvent { log, received_at: stamp_for(old(self)@, received_at) },
            ),
            final(self).spec_limits() == old(self).spec_limits(),
            stamps_ordered(old(self)@) ==> stamps_ordered(final(self)@),
    {
        let ghost before = self@;
        let len = self.events.len();
        let stamp = if len > 0 && !received_at.reached(self.events[len - 1].received_at, 0) {
            self.events[len - 1].received_at
        } else {
            received_at
        };
        self.events.push_back(LogEvent { log, received_at: stamp });
        proof {
            if stamps_ordered(before) {
                assert(self@.drop_last() =~= before);
                law_queueing_keeps_stamps_ordered(before, self@, log_fields(log), stamp);
            }
        }
    }

    /// Whether a batch is to be taken at `now`.
    pub fn is_due(&self, now: Timestamp, forced: bool) -> (due: bool)
        ensures
            due == send_due(self@, self.spec_limits(), now, forced),
    {
        let len = self.events.len();
        if len == 0 {
            false
        } else if forced || len >= self.limits.max_batch_size() {
            true
        } else {
            let newest = &self.events[len - 1];
            now.reached(newest.received_at, self.limits.max_batch_age_secs())
        }
    }

    /// Takes the next batch from the front of the queue: every record where
    /// the queue holds no more than a batch, else as many as a batch holds.
    /// The records keep their order, and the rest of the queue stays.
    pub fn take_batch(&mut self) -> (batch: Vec<Log>)
        ensures
            batch@ == next_batch(old(self)@, old(self).spec_limits()),
            final(self)@ == after_batch(old(self)@, old(self).spec_limits()),
            final(self).spec_limits() == old(self).spec_limits(),
            stamps_ordered(old(self)@) ==> stamps_ordered(final(self)@),
    {
        let ghost before = self@;
        proof {
            if stamps_ordered(before) {
                law_batch_keeps_stamps_ordered(before, self.limits);
            }
        }
        let max = self.limits.max_batch_size();
        let len = self.events.len();
        let tail = if len <= max {
            len
        } else {
            max
        };
        let mut batch: Vec<Log> = Vec::new();
        let mut taken: usize = 0;
        while taken < tail
            invariant
                taken <= tail <= before.len(),
                self.events@ == before.skip(taken as int),
                batch@ == logs_of(before.take(taken as int)),
                self.limits == old(self).limits,
            decreases tail - taken,
        {
            let event = self.events.pop_front().unwrap();
            assert(event == before[taken as int]);
            batch.push(event.log);
            taken = taken + 1;
            assert(self.events@ =~= before.skip(taken as int));
            assert(batch@ =~= logs_of(before.take(taken as int)));
        }
        batch
    }
}

/// An entry queued no earlier than the newest one keeps the times of the
/// queue ascending.
pub proof fn law_queueing_keeps_stamps_ordered(
    before: Seq<LogEvent>,
    after: Seq<LogEvent>,
    fields: Fields,
    received_at: Timestamp,
)
    requires
        stamps_ordered(before),
        queued(before, after, fields, received_at),
        before.len() > 0 ==> received_at.is_at_or_after(before.last().received_at),
    ensures
        stamps_ordered(after),
{
    assert forall|i: int, j: int| 0 <= i <= j < after.len() implies (#[trigger] after[j])
        .received_at.is_at_or_after((#[trigger] after[i]).received_at) by {
        if j < before.len() {
            assert(after[i] == after.drop_last()[i]);
            assert(after[j] == after.drop_last()[j]);
        } else if i < before.len() {
            assert(after[i] == after.drop_last()[i]);
            assert(before.last().received_at.is_at_or_after(before[i].received_at));
        }
    }
}

/// Taking a batch keeps the times of the queue ascending.
pub proof fn law_batch_keeps_stamps_ordered(events: Seq<LogEvent>, limits: Limits)
    requires
        stamps_ordered(events),
    ensures
        stamps_ordered(after_batch(events, limits)),
{
    let taken = batch_len(events, limits);
    let rest = after_batch(events, limits);
    assert forall|i: int, j: int| 0 <= i <= j < rest.len() implies (#[trigger] rest[j])
        .received_at.is_at_or_after((#[trigger] rest[i]).received_at) by {
        assert(rest[i] == events[i + taken]);
        assert(rest[j] == events[j + taken]);
    }
}

/// A record is queued with a time that keeps the queue in the order of
/// arrival, whatever the clock reads.
pub proof fn law_stamped_queue_stays_ordered(
    before: Seq<LogEvent>,
    after: Seq<LogEvent>,
    fields: Fields,
    received_at: Timestamp,
)
    requires
        stamps_ordered(before),
        queued(before, after, fields, stamp_for(before, received_at)),
    ensures
        stamps_ordered(after),
{
    law_queueing_keeps_stamps_ordered(before, after, fields, stamp_for(before, received_at));
}

} // verus!
