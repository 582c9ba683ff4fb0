//! Delivery of one batch at a time: how an answer of the endpoint is read,
//! and what is attempted next.
use crate::clock::{utc_now, Timestamp};
use crate::config::{Limits, BACKOFF_STEP_MILLIS};
use crate::json::Log;
use crate::queue::{after_batch, next_batch, send_due, stamps_ordered, LogEvent, LogQueue};
use std::collections::VecDeque;
use vstd::prelude::*;

verus! {

/// What one delivery attempt came to.
#[derive(Clone, Copy, Debug, PartialEq, Eq, Structural)]
pub enum Outcome {
    /// The endpoint answered with this HTTP status code.
    Status(u16),
    /// No answer arrived: the connection failed or timed out.
    TransportError,
    /// The batch could not be serialised or compressed; nothing was posted.
    EncodingFailed,
}

/// How an outcome is treated.
#[derive(Clone, Copy, Debug, PartialEq, Eq, Structural)]
pub enum Verdict {
    /// The endpoint accepted the batch.
    Delivered,
    /// The endpoint will never accept this batch; it is dropped at once.
    Rejected,
    /// The attempt may succeed later; the same batch is tried again.
    Transient,
    /// The payload was too large; the batch is cut in two.
    TooLarge,
    /// The batch has no encoding; it is dropped at once.
    Unencodable,
}

/// The verdict on a status code.
///
/// Any `2xx` is a delivery. `413` asks for a split. `408` and `429` are
/// transient, every other `4xx` is a rejection. Everything else, `5xx` and
/// codes outside `200..=599` included, is transient.
pub open spec fn status_verdict(status: u16) -> Verdict {
    if 200 <= status <= 299 {
        Verdict::Delivered
    } else if status == 413 {
        Verdict::TooLarge
    } else if status == 408 || status == 429 {
        Verdict::Transient
    } else if 400 <= status <= 499 {
        Verdict::Rejected
    } else {
        Verdict::Transient
    }
}

/// The verdict on an outcome: a transport error is transient like a `5xx`.
pub open spec fn verdict_of(outcome: Outcome) -> Verdict {
    match outcome {
        Outcome::Status(status) => status_verdict(status),
        Outcome::TransportError => Verdict::Transient,
        Outcome::EncodingFailed => Verdict::Unencodable,
    }
}

/// Reads an outcome.
pub fn classify(outcome: Outcome) -> (verdict: Verdict)
    ensures
        verdict == verdict_of(outcome),
{
    match outcome {
        Outcome::Status(status) => {
            if 200 <= status && status <= 299 {
                Verdict::Delivered
            } else if status == 413 {
                Verdict::TooLarge
            } else if status == 408 || status == 429 {
                Verdict::Transient
            } else if 400 <= status && status <= 499 {
                Verdict::Rejected
            } else {
                Verdict::Transient
            }
        },
        Outcome::TransportError => Verdict::Transient,
        Outcome::EncodingFailed => Verdict::Unencodable,
    }
}

/// A batch on its way to the endpoint, with the number of attempts that
/// led to it: retries of the same batch and splits of a larger one.
pub struct Job {
    pub batch: Vec<Log>,
    pub retries: u8,
}

/// A job as a mathematical value.
pub struct JobView {
    pub batch: Seq<Log>,
    pub retries: nat,
}

impl View for Job {
    type V = JobView;

    open spec fn view(&self) -> JobView {
        JobView { batch: self.batch@, retries: self.retries as nat }
    }
}

/// How a batch left the delivery for good.
#[derive(Clone, Copy, Debug, PartialEq, Eq, Structural)]
pub enum Fate {
    /// The endpoint accepted it.
    Delivered,
    /// The endpoint rejected it for good.
    Rejected,
    /// It could not be encoded.
    Unencodable,
    /// The retries ran out.
    Exhausted,
}

/// What an outcome did to the batch in flight.
#[derive(Clone, Copy, Debug, PartialEq, Eq, Structural)]
pub enum Progress {
    /// The batch left the delivery.
    Settled(Fate),
    /// The same batch waits for its next attempt.
    Retrying,
    /// The two halves of the batch wait for their attempts.
    Splitting,
    /// No batch was in flight; the outcome was ignored.
    Idle,
}

/// The first half of a batch that is split: the first `len / 2` records.
pub open spec fn left_half(batch: Seq<Log>) -> Seq<Log> {
    batch.subrange(0, batch.len() as int / 2)
}

/// The second half of a batch that is split: the records after the first `len / 2`.
pub open spec fn right_half(batch: Seq<Log>) -> Seq<Log> {
    batch.subrange(batch.len() as int / 2, batch.len() as int)
}

/// Whether the job may be attempted once more after a failed attempt.
pub open spec fn may_retry(job: JobView, max_retries: nat) -> bool {
    job.retries < max_retries
}

/// What an outcome does to the job that was attempted.
pub open spec fn progress_of(job: JobView, outcome: Outcome, max_retries: nat) -> Progress {
    match verdict_of(outcome) {
        Verdict::Delivered => Progress::Settled(Fate::Delivered),
        Verdict::Rejected => Progress::Settled(Fate::Rejected),
        Verdict::Unencodable => Progress::Settled(Fate::Unencodable),
        Verdict::Transient => if may_retry(job, max_retries) {
            Progress::Retrying
        } else {
            Progress::Settled(Fate::Exhausted)
        },
        Verdict::TooLarge => if may_retry(job, max_retries) {
            Progress::Splitting
        } else {
            Progress::Settled(Fate::Exhausted)
        },
    }
}

/// The jobs that take the place of the attempted one, in the order of their
/// attempts: none where it is settled, itself with one more retry counted
/// where it is retried, its two halves where it is split.
pub open spec fn follow_ups(job: JobView, outcome: Outcome, max_retries: nat) -> Seq<JobView> {
    match progress_of(job, outcome, max_retries) {
        Progress::Retrying => seq![JobView { batch: job.batch, retries: job.retries + 1 }],
        Progress::Splitting => seq![
            JobView { batch: left_half(job.batch), retries: job.retries + 1 },
            JobView { batch: right_half(job.batch), retries: job.retries + 1 },
        ],
        _ => Seq::empty(),
    }
}

/// The pause before the next attempt: before the `n`-th retry of a batch,
/// `n` times the back-off step. Nothing else is waited for.
pub open spec fn pause_after(job: JobView, outcome: Outcome, max_retries: nat) -> nat {
    match progress_of(job, outcome, max_retries) {
        Progress::Retrying => (BACKOFF_STEP_MILLIS * (job.retries + 1)) as nat,
        _ => 0,
    }
}

/// The jobs of a queue as mathematical values, in the same order.
pub open spec fn jobs_view(jobs: Seq<Job>) -> Seq<JobView> {
    Seq::new(jobs.len(), |i: int| jobs[i]@)
}

/// One run of deliveries: the batch in flight, the batches that wait behind
/// it, and the pause that is due before the next attempt.
///
/// A run is forced when it drains the queue regardless of thresholds.
pub struct Delivery {
    forced: bool,
    max_retries: u8,
    in_flight: Option<Job>,
    pending: VecDeque<Job>,
    pause_millis: u64,
}

/// A run as a mathematical value.
pub struct DeliveryView {
    pub forced: bool,
    pub max_retries: nat,
    /// The batch that was handed out for an attempt whose outcome is awaited.
    pub in_flight: Option<JobView>,
    /// The batches that wait, the next one first.
    pub pending: Seq<JobView>,
    /// Milliseconds to wait before the next attempt.
    pub pause_millis: nat,
}

impl View for Delivery {
    type V = DeliveryView;

    closed spec fn view(&self) -> DeliveryView {
        DeliveryView {
            forced: self.forced,
            max_retries: self.max_retries as nat,
            in_flight: match self.in_flight {
                Some(job) => Some(job@),
                None => None,
            },
            pending: jobs_view(self.pending@),
            pause_millis: self.pause_millis as nat,
        }
    }
}

/// The run after the outcome of the attempt on the batch in flight.
pub open spec fn settled(run: DeliveryView, outcome: Outcome) -> DeliveryView {
    match run.in_flight {
        Some(job) => DeliveryView {
            in_flight: None,
            pending: follow_ups(job, outcome, run.max_retries) + run.pending,
            pause_millis: pause_after(job, outcome, run.max_retries),
            ..run
        },
        None => run,
    }
}

/// What the caller of a run does next.
#[derive(Clone, Copy, Debug, PartialEq, Eq, Structural)]
pub enum Action {
    /// Post the batch in flight and report the outcome.
    Attempt,
    /// Wait for so many milliseconds, then ask again.
    Sleep(u64),
    /// Nothing is left to do; the run is over.
    Finished,
}

/// Where a batch comes from when the run advances and none is in flight.
pub open spec fn takes_from_queue(
    run: DeliveryView,
    events: Seq<LogEvent>,
    limits: Limits,
    now: Timestamp,
) -> bool {
    run.in_flight is None && run.pause_millis == 0 && run.pending.len() == 0 && send_due(
        events,
        limits,
        now,
        run.forced,
    )
}

/// What is to be done next.
///
/// A batch in flight is attempted. Else a pause that is due is slept. Else
/// the batch that waits first is attempted. Else, where the queue is due, a
/// fresh batch is taken from it and attempted. Else the run is over.
pub open spec fn action_of(
    run: DeliveryView,
    events: Seq<LogEvent>,
    limits: Limits,
    now: Timestamp,
) -> Action {
    if run.in_flight is Some {
        Action::Attempt
    } else if run.pause_millis > 0 {
        Action::Sleep(run.pause_millis as u64)
    } else if run.pending.len() > 0 || send_due(events, limits, now, run.forced) {
        Action::Attempt
    } else {
        Action::Finished
    }
}

/// The run once it has advanced.
pub open spec fn advanced(
    run: DeliveryView,
    events: Seq<LogEvent>,
    limits: Limits,
    now: Timestamp,
) -> DeliveryView {
    if run.in_flight is Some {
        run
    } else if run.pause_millis > 0 {
        DeliveryView { pause_millis: 0, ..run }
    } else if run.pending.len() > 0 {
        DeliveryView { in_flight: Some(run.pending.first()), pending: run.pending.skip(1), ..run }
    } else if send_due(events, limits, now, run.forced) {
        DeliveryView {
            in_flight: Some(JobView { batch: next_batch(events, limits), retries: 0 }),
            ..run
        }
    } else {
        run
    }
}

/// The queue once the run has advanced: shortened by a batch where one was
/// taken from it, else as it was.
pub open spec fn queue_advanced(
    run: DeliveryView,
    events: Seq<LogEvent>,
    limits: Limits,
    now: Timestamp,
) -> Seq<LogEvent> {
    if takes_from_queue(run, events, limits, now) {
        after_batch(events, limits)
    } else {
        events
    }
}

impl Delivery {
    /// A run with nothing in flight and nothing waiting.
    pub fn new(forced: bool, max_retries: u8) -> (run: Delivery)
        ensures
            run@ == (DeliveryView {
                forced,
                max_retries: max_retries as nat,
                in_flight: None,
                pending: Seq::empty(),
                pause_millis: 0,
            }),
    {
        let run = Delivery {
            forced,
            max_retries,
            in_flight: None,
            pending: VecDeque::new(),
            pause_millis: 0,
        };
        assert(jobs_view(run.pending@) =~= Seq::empty());
        run
    }

    /// Takes in the outcome of the attempt on the batch in flight.
    ///
    /// A delivered, rejected or unencodable batch leaves the run. After a
    /// transient failure the same batch is next again, with one more retry
    /// counted and a pause before it; after a payload that was too large its
    /// two halves are next, the first half first, each with one more retry
    /// counted. Where the retries have run out the batch leaves the run
    /// instead. Batches that waited keep their places behind.
    pub fn settle(&mut self, outcome: Outcome) -> (progress: Progress)
        ensures
            final(self)@ == settled(old(self)@, outcome),
            progress == match old(self)@.in_flight {
                Some(job) => progress_of(job, outcome, old(self)@.max_retries),
                None => Progress::Idle,
            },
    {
        let ghost before = self@;
        match self.in_flight.take() {
            None => {
                assert(self@ == before);
                Progress::Idle
            },
            Some(job) => {
                let ghost attempted = job@;
                let may_retry = job.retries < self.max_retries;
                self.pause_millis = 0;
                let progress = match classify(outcome) {
                    Verdict::Delivered => Progress::Settled(Fate::Delivered),
                    Verdict::Rejected => Progress::Settled(Fate::Rejected),
                    Verdict::Unencodable => Progress::Settled(Fate::Unencodable),
                    Verdict::Transient => {
                        if may_retry {
                            let next = job.retries + 1;
                            self.pending.push_front(Job { batch: job.batch, retries: next });
                            self.pause_millis = BACKOFF_STEP_MILLIS * (next as u64);
                            Progress::Retrying
                        } else {
                            Progress::Settled(Fate::Exhausted)
                        }
                    },
                    Verdict::TooLarge => {
                        if may_retry {
                            let next = job.retries + 1;
                            let mut left = job.batch;
                            let half = left.len() / 2;
                            let right = left.split_off(half);
                            self.pending.push_front(Job { batch: right, retries: next });
                            self.pending.push_front(Job { batch: left, retries: next });
                            Progress::Splitting
                        } else {
                            Progress::Settled(Fate::Exhausted)
                        }
                    },
                };
                assert(self@.pending =~= follow_ups(attempted, outcome, before.max_retries)
                    + before.pending);
                progress
            },
        }
    }

    /// Whether the run drains the queue regardless of thresholds.
    pub fn is_forced(&self) -> (forced: bool)
        ensures
            forced == self@.forced,
    {
        self.forced
    }

    /// Whether the run holds no batch and no pause: nothing in flight,
    /// nothing waiting, nothing to sleep.
    pub fn is_idle(&self) -> (idle: bool)
        ensures
            idle == (self@.in_flight is None && self@.pending.len() == 0 && self@.pause_millis
                == 0),
    {
        self.in_flight.is_none() && self.pending.len() == 0 && self.pause_millis == 0
    }

    /// The batch whose attempt is awaited, if there is one.
    pub fn in_flight(&self) -> (batch: Option<&Vec<Log>>)
        ensures
            match batch {
                Some(records) => self@.in_flight is Some && self@.in_flight->Some_0.batch
                    == records@,
                None => self@.in_flight is None,
            },
    {
        match &self.in_flight {
            Some(job) => Some(&job.batch),
            None => None,
        }
    }

    /// Decides what is done next at the time `now`, and prepares it: a batch
    /// that is to be attempted is put in flight, a pause that is handed out
    /// is no longer due.
    ///
    /// A batch is taken from `queue` only where no batch is in flight, no
    /// pause is due and none waits.
    pub fn next_action_at(&mut self, queue: &mut LogQueue, now: Timestamp) -> (action: Action)
        ensures
            action == action_of(old(self)@, old(queue)@, old(queue).spec_limits(), now),
            final(self)@ == advanced(old(self)@, old(queue)@, old(queue).spec_limits(), now),
            final(queue)@ == queue_advanced(
                old(self)@,
                old(queue)@,
                old(queue).spec_limits(),
                now,
            ),
            final(queue).spec_limits() == old(queue).spec_limits(),
            stamps_ordered(old(queue)@) ==> stamps_ordered(final(queue)@),
    {
        if self.in_flight.is_some() {
            Action::Attempt
        } else if self.pause_millis > 0 {
            let pause = self.pause_millis;
            self.pause_millis = 0;
            Action::Sleep(pause)
        } else if self.pending.len() > 0 {
            let ghost waiting = self.pending@;
            let job = self.pending.pop_front().unwrap();
            self.in_flight = Some(job);
            assert(jobs_view(self.pending@) =~= jobs_view(waiting).skip(1));
            Action::Attempt
        } else if queue.is_due(now, self.forced) {
            let batch = queue.take_batch();
            self.in_flight = Some(Job { batch, retries: 0 });
            Action::Attempt
        } else {
            Action::Finished
        }
    }

    /// Decides what is done next at the present time.
    pub fn next_action(&mut self, queue: &mut LogQueue) -> (action: Action)
        ensures
            exists|now: Timestamp|
                {
                    &&& action == #[trigger] action_of(
                        old(self)@,
                        old(queue)@,
                        old(queue).spec_limits(),
                        now,
                    )
                    &&& final(self)@ == advanced(
                        old(self)@,
                        old(queue)@,
                        old(queue).spec_limits(),
                        now,
                    )
                    &&& final(queue)@ == queue_advanced(
                        old(self)@,
                        old(queue)@,
                        old(queue).spec_limits(),
                        now,
                    )
                },
            final(queue).spec_limits() == old(queue).spec_limits(),
            stamps_ordered(old(queue)@) ==> stamps_ordered(final(queue)@),
    {
        let now = utc_now();
        self.next_action_at(queue, now)
    }
}

} // verus!
