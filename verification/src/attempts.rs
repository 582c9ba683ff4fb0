//! What a sequence of outcomes does to the batches of a run: which of them
//! leave, in which order, and after how many attempts at most.
use crate::delivery::{
    advanced, follow_ups, left_half, progress_of, right_half, settled, takes_from_queue,
    verdict_of, DeliveryView, Fate, JobView, Outcome, Progress, Verdict,
};
use crate::clock::Timestamp;
use crate::config::Limits;
use crate::json::Log;
use crate::queue::{next_batch, LogEvent};
use vstd::arithmetic::power2::{lemma2_to64, lemma_pow2_unfold, pow2};
use vstd::prelude::*;

verus! {

/// The batches of a run in the order of their attempts: the one in flight,
/// then those that wait.
pub open spec fn jobs_of(run: DeliveryView) -> Seq<JobView> {
    match run.in_flight {
        Some(job) => seq![job] + run.pending,
        None => run.pending,
    }
}

/// Whether no batch has more retries counted than the limit allows.
pub open spec fn within(jobs: Seq<JobView>, max_retries: nat) -> bool {
    forall|i: int| 0 <= i < jobs.len() ==> (#[trigger] jobs[i]).retries <= max_retries
}

/// The records of all batches, in the order of their attempts.
pub open spec fn records_of(jobs: Seq<JobView>) -> Seq<Log>
    decreases jobs.len(),
{
    if jobs.len() == 0 {
        Seq::empty()
    } else {
        jobs.first().batch + records_of(jobs.skip(1))
    }
}

/// The batches after the attempt on the first of them came to `outcome`.
pub open spec fn after_outcome(jobs: Seq<JobView>, outcome: Outcome, max_retries: nat) -> Seq<
    JobView,
> {
    if jobs.len() == 0 {
        jobs
    } else {
        follow_ups(jobs.first(), outcome, max_retries) + jobs.skip(1)
    }
}

/// The batches after one attempt on the first of them for each outcome, in turn.
pub open spec fn after_outcomes(
    jobs: Seq<JobView>,
    outcomes: Seq<Outcome>,
    max_retries: nat,
) -> Seq<JobView>
    decreases outcomes.len(),
{
    if outcomes.len() == 0 {
        jobs
    } else {
        after_outcomes(
            after_outcome(jobs, outcomes.first(), max_retries),
            outcomes.skip(1),
            max_retries,
        )
    }
}

/// A batch that has left the run, and how.
pub struct Segment {
    pub batch: Seq<Log>,
    pub fate: Fate,
}

/// The batch that `outcome` makes leave, if it makes one leave.
pub open spec fn settled_by(jobs: Seq<JobView>, outcome: Outcome, max_retries: nat) -> Seq<
    Segment,
> {
    if jobs.len() == 0 {
        Seq::empty()
    } else {
        match progress_of(jobs.first(), outcome, max_retries) {
            Progress::Settled(fate) => seq![Segment { batch: jobs.first().batch, fate }],
            _ => Seq::empty(),
        }
    }
}

/// The batches that leave over a sequence of outcomes, in the order in which they leave.
pub open spec fn segments(jobs: Seq<JobView>, outcomes: Seq<Outcome>, max_retries: nat) -> Seq<
    Segment,
>
    decreases outcomes.len(),
{
    if outcomes.len() == 0 {
        Seq::empty()
    } else {
        settled_by(jobs, outcomes.first(), max_retries) + segments(
            after_outcome(jobs, outcomes.first(), max_retries),
            outcomes.skip(1),
            max_retries,
        )
    }
}

/// The records of all segments, in order.
pub open spec fn segment_records(segments: Seq<Segment>) -> Seq<Log>
    decreases segments.len(),
{
    if segments.len() == 0 {
        Seq::empty()
    } else {
        segments.first().batch + segment_records(segments.skip(1))
    }
}

/// The records of the segments that were delivered, in order.
pub open spec fn delivered_records(segments: Seq<Segment>) -> Seq<Log>
    decreases segments.len(),
{
    if segments.len() == 0 {
        Seq::empty()
    } else if segments.first().fate == Fate::Delivered {
        segments.first().batch + delivered_records(segments.skip(1))
    } else {
        delivered_records(segments.skip(1))
    }
}

/// Whether `part` is `whole` with some of its elements left out, the others
/// in their order.
pub open spec fn is_subsequence(part: Seq<Log>, whole: Seq<Log>) -> bool
    decreases whole.len(),
{
    if part.len() == 0 {
        true
    } else if whole.len() == 0 {
        false
    } else {
        (part.first() == whole.first() && is_subsequence(part.skip(1), whole.skip(1)))
            || is_subsequence(part, whole.skip(1))
    }
}

/// Settling the batch in flight is an outcome on the first batch of the run.
pub proof fn law_settle_acts_on_first_batch(run: DeliveryView, outcome: Outcome)
    requires
        run.in_flight is Some,
    ensures
        jobs_of(settled(run, outcome)) == after_outcome(jobs_of(run), outcome, run.max_retries),
{
    assert((seq![run.in_flight->Some_0] + run.pending).skip(1) =~= run.pending);
}

/// Advancing a run changes its batches only by taking a fresh one from the
/// queue, and that only where the run holds none.
pub proof fn law_advance_keeps_batches(
    run: DeliveryView,
    events: Seq<LogEvent>,
    limits: Limits,
    now: Timestamp,
)
    ensures
        jobs_of(advanced(run, events, limits, now)) == if takes_from_queue(
            run,
            events,
            limits,
            now,
        ) {
            seq![JobView { batch: next_batch(events, limits), retries: 0 }]
        } else {
            jobs_of(run)
        },
{
    let next = advanced(run, events, limits, now);
    if run.in_flight is None && run.pause_millis == 0 && run.pending.len() > 0 {
        assert(seq![run.pending.first()] + run.pending.skip(1) =~= run.pending);
    }
    if takes_from_queue(run, events, limits, now) {
        assert(jobs_of(next) =~= seq![JobView { batch: next_batch(events, limits), retries: 0 }]);
    }
}

proof fn lemma_records_concat(first: Seq<JobView>, second: Seq<JobView>)
    ensures
        records_of(first + second) == records_of(first) + records_of(second),
    decreases first.len(),
{
    if first.len() == 0 {
        assert(first + second =~= second);
        assert(records_of(first) + records_of(second) =~= records_of(second));
    } else {
        lemma_records_concat(first.skip(1), second);
        assert((first + second).skip(1) =~= first.skip(1) + second);
        assert(records_of(first + second) =~= records_of(first) + records_of(second));
    }
}

proof fn lemma_segment_records_concat(first: Seq<Segment>, second: Seq<Segment>)
    ensures
        segment_records(first + second) == segment_records(first) + segment_records(second),
    decreases first.len(),
{
    if first.len() == 0 {
        assert(first + second =~= second);
        assert(segment_records(first) + segment_records(second) =~= segment_records(second));
    } else {
        lemma_segment_records_concat(first.skip(1), second);
        assert((first + second).skip(1) =~= first.skip(1) + second);
        assert(segment_records(first + second) =~= segment_records(first) + segment_records(
            second,
        ));
    }
}

proof fn lemma_single_job_records(job: JobView)
    ensures
        records_of(seq![job]) == job.batch,
{
    assert(seq![job].skip(1) =~= Seq::<JobView>::empty());
    assert(records_of(Seq::<JobView>::empty()) =~= Seq::<Log>::empty());
    assert(records_of(seq![job]) =~= job.batch);
}

proof fn lemma_single_segment_records(segment: Segment)
    ensures
        segment_records(seq![segment]) == segment.batch,
{
    assert(seq![segment].skip(1) =~= Seq::<Segment>::empty());
    assert(segment_records(Seq::<Segment>::empty()) =~= Seq::<Log>::empty());
    assert(segment_records(seq![segment]) =~= segment.batch);
}

/// One outcome keeps every record in its place: the records of the batch
/// that leaves, if one leaves, followed by the records of the batches that
/// stay, are the records as they were before.
pub proof fn law_outcome_keeps_order(jobs: Seq<JobView>, outcome: Outcome, max_retries: nat)
    ensures
        segment_records(settled_by(jobs, outcome, max_retries)) + records_of(
            after_outcome(jobs, outcome, max_retries),
        ) == records_of(jobs),
{
    if jobs.len() == 0 {
        assert(segment_records(settled_by(jobs, outcome, max_retries)) + records_of(jobs)
            =~= records_of(jobs));
    } else {
        let job = jobs.first();
        let rest = jobs.skip(1);
        let next = follow_ups(job, outcome, max_retries);
        lemma_records_concat(next, rest);
        match progress_of(job, outcome, max_retries) {
            Progress::Settled(fate) => {
                lemma_single_segment_records(Segment { batch: job.batch, fate });
                assert(records_of(next) =~= Seq::<Log>::empty());
                assert(job.batch + (records_of(next) + records_of(rest)) =~= records_of(jobs));
            },
            Progress::Retrying => {
                lemma_single_job_records(JobView { batch: job.batch, retries: job.retries + 1 });
                assert(segment_records(Seq::<Segment>::empty()) + (job.batch + records_of(rest))
                    =~= records_of(jobs));
            },
            Progress::Splitting => {
                let left = JobView { batch: left_half(job.batch), retries: job.retries + 1 };
                let right = JobView { batch: right_half(job.batch), retries: job.retries + 1 };
                assert(next =~= seq![left] + seq![right]);
                lemma_records_concat(seq![left], seq![right]);
                lemma_single_job_records(left);
                lemma_single_job_records(right);
                assert(left_half(job.batch) + right_half(job.batch) =~= job.batch);
                assert(segment_records(Seq::<Segment>::empty()) + (job.batch + records_of(rest))
                    =~= records_of(jobs));
            },
            Progress::Idle => {},
        }
    }
}

/// Retrying and splitting lose track of no record and reorder none: over any
/// sequence of outcomes, the records of the batches that left, in the order
/// in which they left, followed by the records of the batches still in the
/// run, are the records that the run started with.
pub proof fn law_outcomes_keep_order(
    jobs: Seq<JobView>,
    outcomes: Seq<Outcome>,
    max_retries: nat,
)
    ensures
        segment_records(segments(jobs, outcomes, max_retries)) + records_of(
            after_outcomes(jobs, outcomes, max_retries),
        ) == records_of(jobs),
    decreases outcomes.len(),
{
    if outcomes.len() == 0 {
        assert(segment_records(Seq::<Segment>::empty()) + records_of(jobs) =~= records_of(jobs));
    } else {
        let first = settled_by(jobs, outcomes.first(), max_retries);
        let next = after_outcome(jobs, outcomes.first(), max_retries);
        let later = segments(next, outcomes.skip(1), max_retries);
        law_outcome_keeps_order(jobs, outcomes.first(), max_retries);
        law_outcomes_keep_order(next, outcomes.skip(1), max_retries);
        lemma_segment_records_concat(first, later);
        assert((segment_records(first) + segment_records(later)) + records_of(
            after_outcomes(jobs, outcomes, max_retries),
        ) =~= segment_records(first) + (segment_records(later) + records_of(
            after_outcomes(next, outcomes.skip(1), max_retries),
        )));
    }
}

proof fn lemma_subsequence_behind(part: Seq<Log>, whole: Seq<Log>, front: Seq<Log>)
    requires
        is_subsequence(part, whole),
    ensures
        is_subsequence(part, front + whole),
    decreases front.len(),
{
    if front.len() == 0 {
        assert(front + whole =~= whole);
    } else {
        lemma_subsequence_behind(part, whole, front.skip(1));
        assert((front + whole).skip(1) =~= front.skip(1) + whole);
    }
}

proof fn lemma_subsequence_with_front(part: Seq<Log>, whole: Seq<Log>, front: Seq<Log>)
    requires
        is_subsequence(part, whole),
    ensures
        is_subsequence(front + part, front + whole),
    decreases front.len(),
{
    if front.len() == 0 {
        assert(front + whole =~= whole);
        assert(front + part =~= part);
    } else {
        lemma_subsequence_with_front(part, whole, front.skip(1));
        assert((front + whole).skip(1) =~= front.skip(1) + whole);
        assert((front + part).skip(1) =~= front.skip(1) + part);
    }
}

proof fn lemma_subsequence_before(part: Seq<Log>, whole: Seq<Log>, back: Seq<Log>)
    requires
        is_subsequence(part, whole),
    ensures
        is_subsequence(part, whole + back),
    decreases whole.len(),
{
    if part.len() == 0 {
    } else {
        assert((whole + back).skip(1) =~= whole.skip(1) + back);
        if part.first() == whole.first() && is_subsequence(part.skip(1), whole.skip(1)) {
            lemma_subsequence_before(part.skip(1), whole.skip(1), back);
        } else {
            lemma_subsequence_before(part, whole.skip(1), back);
        }
    }
}

proof fn lemma_delivered_among_segments(segments: Seq<Segment>)
    ensures
        is_subsequence(delivered_records(segments), segment_records(segments)),
    decreases segments.len(),
{
    if segments.len() > 0 {
        lemma_delivered_among_segments(segments.skip(1));
        if segments.first().fate == Fate::Delivered {
            lemma_subsequence_with_front(
                delivered_records(segments.skip(1)),
                segment_records(segments.skip(1)),
                segments.first().batch,
            );
        } else {
            lemma_subsequence_behind(
                delivered_records(segments.skip(1)),
                segment_records(segments.skip(1)),
                segments.first().batch,
            );
        }
    }
}

/// The records that are delivered arrive in the order they had: over any
/// sequence of outcomes, the delivered records, in the order of their
/// delivery, are the records that the run started with, some of them left
/// out.
pub proof fn law_delivered_records_keep_order(
    jobs: Seq<JobView>,
    outcomes: Seq<Outcome>,
    max_retries: nat,
)
    ensures
        is_subsequence(
            delivered_records(segments(jobs, outcomes, max_retries)),
            records_of(jobs),
        ),
{
    let left = segments(jobs, outcomes, max_retries);
    law_outcomes_keep_order(jobs, outcomes, max_retries);
    lemma_delivered_among_segments(left);
    lemma_subsequence_before(
        delivered_records(left),
        segment_records(left),
        records_of(after_outcomes(jobs, outcomes, max_retries)),
    );
}

/// The most attempts that a batch can lead to when `levels` attempts may
/// follow one another: each attempt may put two batches in its place.
pub open spec fn attempts_bound(levels: nat) -> nat
    decreases levels,
{
    if levels == 0 {
        0
    } else {
        2 * attempts_bound((levels - 1) as nat) + 1
    }
}

/// The most attempts that a batch and what it is split into can still take.
pub open spec fn budget_of(job: JobView, max_retries: nat) -> nat {
    if job.retries <= max_retries {
        attempts_bound((max_retries - job.retries + 1) as nat)
    } else {
        0
    }
}

/// The most attempts that the batches of a run can still take.
pub open spec fn budget(jobs: Seq<JobView>, max_retries: nat) -> nat
    decreases jobs.len(),
{
    if jobs.len() == 0 {
        0
    } else {
        budget_of(jobs.first(), max_retries) + budget(jobs.skip(1), max_retries)
    }
}

proof fn lemma_budget_concat(first: Seq<JobView>, second: Seq<JobView>, max_retries: nat)
    ensures
        budget(first + second, max_retries) == budget(first, max_retries) + budget(
            second,
            max_retries,
        ),
    decreases first.len(),
{
    if first.len() == 0 {
        assert(first + second =~= second);
    } else {
        lemma_budget_concat(first.skip(1), second, max_retries);
        assert((first + second).skip(1) =~= first.skip(1) + second);
    }
}

proof fn lemma_single_job_budget(job: JobView, max_retries: nat)
    ensures
        budget(seq![job], max_retries) == budget_of(job, max_retries),
{
    assert(seq![job].skip(1) =~= Seq::<JobView>::empty());
    assert(budget(Seq::<JobView>::empty(), max_retries) == 0);
}

/// Every attempt uses up budget: after any outcome the batches of the run
/// can take fewer attempts than before, and none of them has more retries
/// counted than the limit allows.
pub proof fn law_attempt_uses_budget(jobs: Seq<JobView>, outcome: Outcome, max_retries: nat)
    requires
        jobs.len() > 0,
        within(jobs, max_retries),
    ensures
        within(after_outcome(jobs, outcome, max_retries), max_retries),
        budget(after_outcome(jobs, outcome, max_retries), max_retries) < budget(
            jobs,
            max_retries,
        ),
{
    let job = jobs.first();
    let rest = jobs.skip(1);
    let next = follow_ups(job, outcome, max_retries);
    lemma_budget_concat(next, rest, max_retries);
    assert(job.retries <= max_retries);
    let levels = (max_retries - job.retries + 1) as nat;
    assert(attempts_bound(levels) == 2 * attempts_bound((levels - 1) as nat) + 1);
    match progress_of(job, outcome, max_retries) {
        Progress::Retrying => {
            lemma_single_job_budget(
                JobView { batch: job.batch, retries: job.retries + 1 },
                max_retries,
            );
        },
        Progress::Splitting => {
            let left = JobView { batch: left_half(job.batch), retries: job.retries + 1 };
            let right = JobView { batch: right_half(job.batch), retries: job.retries + 1 };
            assert(next =~= seq![left] + seq![right]);
            lemma_budget_concat(seq![left], seq![right], max_retries);
            lemma_single_job_budget(left, max_retries);
            lemma_single_job_budget(right, max_retries);
        },
        _ => {
            assert(budget(next, max_retries) == 0);
        },
    }
    let after = after_outcome(jobs, outcome, max_retries);
    assert forall|i: int| 0 <= i < after.len() implies (#[trigger] after[i]).retries
        <= max_retries by {
        if i < next.len() {
            assert(after[i] == next[i]);
        } else {
            assert(after[i] == jobs[i - next.len() + 1]);
        }
    }
}

proof fn lemma_nothing_left_stays_nothing(outcomes: Seq<Outcome>, max_retries: nat)
    ensures
        after_outcomes(Seq::<JobView>::empty(), outcomes, max_retries) == Seq::<JobView>::empty(),
    decreases outcomes.len(),
{
    if outcomes.len() > 0 {
        lemma_nothing_left_stays_nothing(outcomes.skip(1), max_retries);
    }
}

/// A run comes to an end: once it has seen as many outcomes as its batches
/// could take attempts, every batch has left it, delivered, rejected,
/// unencodable or with its retries used up.
pub proof fn law_run_ends_within_budget(
    jobs: Seq<JobView>,
    outcomes: Seq<Outcome>,
    max_retries: nat,
)
    requires
        within(jobs, max_retries),
        outcomes.len() >= budget(jobs, max_retries),
    ensures
        after_outcomes(jobs, outcomes, max_retries).len() == 0,
    decreases outcomes.len(),
{
    if jobs.len() == 0 {
        assert(jobs =~= Seq::<JobView>::empty());
        lemma_nothing_left_stays_nothing(outcomes, max_retries);
    } else {
        assert(jobs.first().retries <= max_retries);
        assert(budget_of(jobs.first(), max_retries) >= 1);
        law_attempt_uses_budget(jobs, outcomes.first(), max_retries);
        law_run_ends_within_budget(
            after_outcome(jobs, outcomes.first(), max_retries),
            outcomes.skip(1),
            max_retries,
        );
    }
}

/// A fresh batch leads to at most `2^(max_retries + 1) - 1` attempts, its
/// own and those on what it is split into.
pub proof fn law_fresh_batch_budget(batch: Seq<Log>, max_retries: nat)
    ensures
        budget(seq![JobView { batch, retries: 0 }], max_retries) + 1 == pow2(max_retries + 1),
{
    lemma_single_job_budget(JobView { batch, retries: 0 }, max_retries);
    lemma_attempts_bound_closed_form(max_retries + 1);
}

proof fn lemma_attempts_bound_closed_form(levels: nat)
    ensures
        attempts_bound(levels) + 1 == pow2(levels),
    decreases levels,
{
    if levels == 0 {
        lemma2_to64();
    } else {
        lemma_attempts_bound_closed_form((levels - 1) as nat);
        lemma_pow2_unfold(levels);
    }
}

/// Whether every outcome is a transient failure.
pub open spec fn all_transient(outcomes: Seq<Outcome>) -> bool {
    forall|i: int|
        0 <= i < outcomes.len() ==> verdict_of(#[trigger] outcomes[i]) == Verdict::Transient
}

/// A batch that keeps failing transiently is retried up to the limit and no
/// further. While the retries counted stay within the limit, each failure
/// leaves the same batch next in the run with one more retry counted. The
/// failure of the attempt that has all retries counted makes the batch
/// leave, exhausted. A fresh batch is thus attempted `max_retries + 1`
/// times in all.
pub proof fn law_transient_failures_are_retried_to_the_limit(
    job: JobView,
    rest: Seq<JobView>,
    outcomes: Seq<Outcome>,
    max_retries: nat,
)
    requires
        job.retries <= max_retries,
        all_transient(outcomes),
        job.retries + outcomes.len() <= max_retries + 1,
    ensures
        job.retries + outcomes.len() <= max_retries ==> after_outcomes(
            seq![job] + rest,
            outcomes,
            max_retries,
        ) == seq![JobView { batch: job.batch, retries: job.retries + outcomes.len() }] + rest
            && segments(seq![job] + rest, outcomes, max_retries) == Seq::<Segment>::empty(),
        job.retries + outcomes.len() == max_retries + 1 ==> after_outcomes(
            seq![job] + rest,
            outcomes,
            max_retries,
        ) == rest && segments(seq![job] + rest, outcomes, max_retries) == seq![
            Segment { batch: job.batch, fate: Fate::Exhausted },
        ],
    decreases outcomes.len(),
{
    let jobs = seq![job] + rest;
    if outcomes.len() == 0 {
        assert(jobs =~= seq![JobView { batch: job.batch, retries: job.retries + 0 }] + rest);
    } else {
        assert(jobs.first() == job);
        assert(jobs.skip(1) =~= rest);
        assert(verdict_of(outcomes[0]) == Verdict::Transient);
        let tail = outcomes.skip(1);
        assert forall|i: int| 0 <= i < tail.len() implies verdict_of(#[trigger] tail[i])
            == Verdict::Transient by {
            assert(tail[i] == outcomes[i + 1]);
        }
        if job.retries < max_retries {
            let again = JobView { batch: job.batch, retries: job.retries + 1 };
            assert(after_outcome(jobs, outcomes.first(), max_retries) =~= seq![again] + rest);
            law_transient_failures_are_retried_to_the_limit(again, rest, tail, max_retries);
            assert(settled_by(jobs, outcomes.first(), max_retries) + segments(
                seq![again] + rest,
                tail,
                max_retries,
            ) =~= segments(seq![again] + rest, tail, max_retries));
        } else {
            assert(outcomes.len() == 1);
            assert(after_outcome(jobs, outcomes.first(), max_retries) =~= rest);
            assert(after_outcomes(rest, tail, max_retries) == rest);
            assert(segments(rest, tail, max_retries) =~= Seq::<Segment>::empty());
            assert(segments(jobs, outcomes, max_retries) =~= seq![
                Segment { batch: job.batch, fate: Fate::Exhausted },
            ]);
        }
    }
}

/// Whether no outcome asks for a split.
pub open spec fn none_too_large(outcomes: Seq<Outcome>) -> bool {
    forall|i: int|
        0 <= i < outcomes.len() ==> verdict_of(#[trigger] outcomes[i]) != Verdict::TooLarge
}

/// How many of the outcomes are attempts on the batch, where it is never
/// split: all up to the first that makes it leave.
pub open spec fn attempts_taken(job: JobView, outcomes: Seq<Outcome>, max_retries: nat) -> nat
    decreases outcomes.len(),
{
    if outcomes.len() == 0 {
        0
    } else {
        match progress_of(job, outcomes.first(), max_retries) {
            Progress::Retrying => 1 + attempts_taken(
                JobView { batch: job.batch, retries: job.retries + 1 },
                outcomes.skip(1),
                max_retries,
            ),
            _ => 1,
        }
    }
}

/// A batch that is never split is attempted `max_retries + 1` times at
/// most, whatever the outcomes: a fresh batch takes no more attempts than
/// that, and after them it has left the run to the batch behind it, unless
/// the outcomes end while it still waits for a retry.
pub proof fn law_unsplit_batch_is_attempted_within_the_limit(
    job: JobView,
    rest: Seq<JobView>,
    outcomes: Seq<Outcome>,
    max_retries: nat,
)
    requires
        job.retries <= max_retries,
        none_too_large(outcomes),
    ensures
        attempts_taken(job, outcomes, max_retries) <= outcomes.len(),
        job.retries + attempts_taken(job, outcomes, max_retries) <= max_retries + 1,
        after_outcomes(
            seq![job] + rest,
            outcomes.take(attempts_taken(job, outcomes, max_retries) as int),
            max_retries,
        ) == rest || (attempts_taken(job, outcomes, max_retries) == outcomes.len()
            && after_outcomes(seq![job] + rest, outcomes, max_retries) == seq![
            JobView { batch: job.batch, retries: job.retries + outcomes.len() },
        ] + rest),
    decreases outcomes.len(),
{
    let jobs = seq![job] + rest;
    let taken = attempts_taken(job, outcomes, max_retries);
    if outcomes.len() == 0 {
        assert(jobs =~= seq![JobView { batch: job.batch, retries: job.retries + 0 }] + rest);
    } else {
        assert(jobs.first() == job);
        assert(jobs.skip(1) =~= rest);
        assert(verdict_of(outcomes[0]) != Verdict::TooLarge);
        let tail = outcomes.skip(1);
        assert forall|i: int| 0 <= i < tail.len() implies verdict_of(#[trigger] tail[i])
            != Verdict::TooLarge by {
            assert(tail[i] == outcomes[i + 1]);
        }
        let used = outcomes.take(taken as int);
        match progress_of(job, outcomes.first(), max_retries) {
            Progress::Retrying => {
                let again = JobView { batch: job.batch, retries: job.retries + 1 };
                law_unsplit_batch_is_attempted_within_the_limit(again, rest, tail, max_retries);
                let later = attempts_taken(again, tail, max_retries);
                assert(taken == 1 + later);
                assert(after_outcome(jobs, outcomes.first(), max_retries) =~= seq![again] + rest);
                assert(used.first() == outcomes.first());
                assert(used.skip(1) =~= tail.take(later as int));
                assert(seq![JobView { batch: again.batch, retries: again.retries + tail.len() }]
                    + rest =~= seq![
                    JobView { batch: job.batch, retries: job.retries + outcomes.len() },
                ] + rest);
            },
            _ => {
                assert(taken == 1);
                assert(used.first() == outcomes.first());
                assert(used.skip(1) =~= Seq::<Outcome>::empty());
                assert(after_outcome(jobs, outcomes.first(), max_retries) =~= rest);
                assert(after_outcomes(rest, used.skip(1), max_retries) == rest);
            },
        }
    }
}

/// A batch that the endpoint rejects for good is attempted once: whatever
/// its retries, it leaves the run on that outcome, nothing takes its place,
/// and the batches behind it are next. This holds of `400`, `401` and `403`
/// as of every `4xx` but `408`, `413` and `429`.
pub proof fn law_rejected_batch_is_attempted_once(
    jobs: Seq<JobView>,
    status: u16,
    max_retries: nat,
)
    requires
        jobs.len() > 0,
        400 <= status <= 499,
        status != 408 && status != 413 && status != 429,
    ensures
        after_outcome(jobs, Outcome::Status(status), max_retries) == jobs.skip(1),
        settled_by(jobs, Outcome::Status(status), max_retries) == seq![
            Segment { batch: jobs.first().batch, fate: Fate::Rejected },
        ],
{
    assert(follow_ups(jobs.first(), Outcome::Status(status), max_retries) + jobs.skip(1)
        =~= jobs.skip(1));
}

} // verus!
