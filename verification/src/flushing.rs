//! When a run takes batches from the queue, and what it finds in them.
use crate::clock::Timestamp;
use crate::config::Limits;
use crate::delivery::{
    action_of, advanced, queue_advanced, settled, Action, DeliveryView, JobView, Outcome,
};
use crate::json::Log;
use crate::queue::{after_batch, logs_of, next_batch, send_due, LogEvent};
use vstd::prelude::*;

verus! {

/// A run that has not begun: nothing in flight, nothing waiting, no pause due.
pub open spec fn fresh_run(forced: bool, max_retries: nat) -> DeliveryView {
    DeliveryView { forced, max_retries, in_flight: None, pending: Seq::empty(), pause_millis: 0 }
}

/// The batches that a queue is drained into when one is taken after the
/// other, in the order in which they are taken.
pub open spec fn drained(events: Seq<LogEvent>, limits: Limits) -> Seq<Seq<Log>>
    decreases events.len(),
{
    if events.len() == 0 || !limits.valid() {
        Seq::empty()
    } else {
        seq![next_batch(events, limits)] + drained(after_batch(events, limits), limits)
    }
}

/// The records of a sequence of batches, in order.
pub open spec fn flattened(batches: Seq<Seq<Log>>) -> Seq<Log>
    decreases batches.len(),
{
    if batches.len() == 0 {
        Seq::empty()
    } else {
        batches.first() + flattened(batches.skip(1))
    }
}

/// Fewer records than a batch holds, all queued within the age limit, leave
/// together once the limit is reached, and alone. When a run that is not
/// forced begins with the newest record at the age limit, it attempts one
/// batch with all the queued records in the order of their arrival, and the
/// queue is empty. Once that batch is delivered, the run is over: no second
/// request is made.
pub proof fn law_aged_queue_leaves_in_one_batch(
    events: Seq<LogEvent>,
    limits: Limits,
    now: Timestamp,
    later: Timestamp,
    max_retries: nat,
    status: u16,
)
    requires
        limits.valid(),
        0 < events.len() < limits.max_batch_size(),
        now.reached(events.last().received_at, limits.max_batch_age_secs()),
        200 <= status <= 299,
    ensures
        action_of(fresh_run(false, max_retries), events, limits, now) == Action::Attempt,
        advanced(fresh_run(false, max_retries), events, limits, now).in_flight == Some(
            JobView { batch: logs_of(events), retries: 0 },
        ),
        queue_advanced(fresh_run(false, max_retries), events, limits, now).len() == 0,
        action_of(
            settled(
                advanced(fresh_run(false, max_retries), events, limits, now),
                Outcome::Status(status),
            ),
            queue_advanced(fresh_run(false, max_retries), events, limits, now),
            limits,
            later,
        ) == Action::Finished,
{
    assert(events.take(events.len() as int) =~= events);
    let run = fresh_run(false, max_retries);
    let done = settled(advanced(run, events, limits, now), Outcome::Status(status));
    assert(done.pending =~= Seq::<JobView>::empty());
}

/// Fewer records than a batch holds stay queued while the newest of them is
/// younger than the age limit: a run that is not forced takes nothing and is
/// over at once.
pub proof fn law_young_queue_waits(
    events: Seq<LogEvent>,
    limits: Limits,
    now: Timestamp,
    max_retries: nat,
)
    requires
        events.len() < limits.max_batch_size(),
        events.len() > 0 ==> !now.reached(events.last().received_at, limits.max_batch_age_secs()),
    ensures
        action_of(fresh_run(false, max_retries), events, limits, now) == Action::Finished,
        advanced(fresh_run(false, max_retries), events, limits, now) == fresh_run(
            false,
            max_retries,
        ),
        queue_advanced(fresh_run(false, max_retries), events, limits, now) == events,
{
}

/// A queue that holds a full batch is due whatever the age of its records:
/// a run that is not forced attempts a batch of the oldest records, as many
/// as a batch holds, and the others stay queued.
pub proof fn law_full_queue_is_due_at_any_age(
    events: Seq<LogEvent>,
    limits: Limits,
    now: Timestamp,
    max_retries: nat,
)
    requires
        limits.valid(),
        events.len() >= limits.max_batch_size(),
    ensures
        send_due(events, limits, now, false),
        action_of(fresh_run(false, max_retries), events, limits, now) == Action::Attempt,
        advanced(fresh_run(false, max_retries), events, limits, now).in_flight == Some(
            JobView {
                batch: logs_of(events.take(limits.max_batch_size() as int)),
                retries: 0,
            },
        ),
        queue_advanced(fresh_run(false, max_retries), events, limits, now) == events.skip(
            limits.max_batch_size() as int,
        ),
{
}

/// A forced run ignores the thresholds: it is over only once the queue is
/// empty, nothing is in flight and nothing waits.
pub proof fn law_forced_run_ends_on_empty_queue(
    run: DeliveryView,
    events: Seq<LogEvent>,
    limits: Limits,
    now: Timestamp,
)
    requires
        run.forced,
    ensures
        action_of(run, events, limits, now) == Action::Finished <==> events.len() == 0
            && run.in_flight is None && run.pending.len() == 0 && run.pause_millis == 0,
{
}

/// Every batch of a drained queue holds at least one record and no more
/// than a batch may hold.
pub proof fn law_drained_batches_are_bounded(events: Seq<LogEvent>, limits: Limits, i: int)
    requires
        0 <= i < drained(events, limits).len(),
    ensures
        1 <= drained(events, limits)[i].len() <= limits.max_batch_size(),
    decreases events.len(),
{
    if i > 0 {
        law_drained_batches_are_bounded(after_batch(events, limits), limits, i - 1);
    }
}

/// Draining sends every queued record once and in the order of arrival: the
/// batches that a queue is drained into, one after the other, hold the
/// records of the queue as they were queued.
pub proof fn law_drained_batches_hold_the_queue(events: Seq<LogEvent>, limits: Limits)
    requires
        limits.valid(),
    ensures
        flattened(drained(events, limits)) == logs_of(events),
    decreases events.len(),
{
    if events.len() == 0 {
        assert(flattened(drained(events, limits)) =~= logs_of(events));
    } else {
        let rest = after_batch(events, limits);
        law_drained_batches_hold_the_queue(rest, limits);
        let batches = drained(events, limits);
        assert(batches.skip(1) =~= drained(rest, limits));
        assert(next_batch(events, limits) + logs_of(rest) =~= logs_of(events));
    }
}

} // verus!
