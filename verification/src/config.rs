//! The thresholds that govern batching and retrying.
use vstd::prelude::*;

verus! {

/// Records per batch unless configured otherwise.
pub const MAX_BATCH_SIZE: usize = 1000;

/// Seconds a queued record may wait unless configured otherwise.
pub const MAX_BATCH_DURATION_SECS: i64 = 5;

/// Retries per batch unless configured otherwise.
pub const MAX_RETRIES: u8 = 3;

/// Milliseconds of back-off per retry already made, plus one.
pub const BACKOFF_STEP_MILLIS: u64 = 100;

/// The thresholds of one ingestor, fixed when it is built.
///
/// A batch holds at least one record, so the batch size is never zero. The
/// age limit is also the period of the flush timer, so it is at least one
/// second.
#[derive(Clone, Copy, Debug)]
pub struct Limits {
    max_batch_size: usize,
    max_batch_age_secs: i64,
    max_retries: u8,
}

impl Limits {
    #[verifier::type_invariant]
    spec fn positive_thresholds(self) -> bool {
        self.max_batch_size >= 1 && self.max_batch_age_secs >= 1
    }

    /// The most records that one batch holds.
    pub closed spec fn spec_max_batch_size(&self) -> usize {
        self.max_batch_size
    }

    /// The age, in seconds, at which the newest queued record makes the queue due.
    pub closed spec fn spec_max_batch_age_secs(&self) -> i64 {
        self.max_batch_age_secs
    }

    /// How often one batch is tried again after its first attempt.
    pub closed spec fn spec_max_retries(&self) -> u8 {
        self.max_retries
    }

    /// Whether the batch size and the age limit are at least one, as they
    /// are for every value built by this crate.
    pub open spec fn valid(&self) -> bool {
        self.spec_max_batch_size() >= 1 && self.spec_max_batch_age_secs() >= 1
    }

    /// Whether these are the thresholds of an ingestor that was given none:
    /// a thousand records, five seconds, three retries.
    pub open spec fn is_default(&self) -> bool {
        &&& self.spec_max_batch_size() == MAX_BATCH_SIZE
        &&& self.spec_max_batch_age_secs() == MAX_BATCH_DURATION_SECS
        &&& self.spec_max_retries() == MAX_RETRIES
    }

    /// The given thresholds, or nothing where the batch size is zero or the
    /// age limit is less than a second.
    pub fn new(max_batch_size: usize, max_batch_age_secs: i64, max_retries: u8) -> (limits: Option<
        Limits,
    >)
        ensures
            limits is Some <==> max_batch_size >= 1 && max_batch_age_secs >= 1,
            limits matches Some(l) ==> l.spec_max_batch_size() == max_batch_size
                && l.spec_max_batch_age_secs() == max_batch_age_secs && l.spec_max_retries()
                == max_retries && l.valid(),
    {
        if max_batch_size >= 1 && max_batch_age_secs >= 1 {
            Some(Limits { max_batch_size, max_batch_age_secs, max_retries })
        } else {
            None
        }
    }

    #[verifier::when_used_as_spec(spec_max_batch_size)]
    pub fn max_batch_size(&self) -> (size: usize)
        ensures
            size == self.spec_max_batch_size(),
            size >= 1,
    {
        proof {
            use_type_invariant(self);
        }
        self.max_batch_size
    }

    #[verifier::when_used_as_spec(spec_max_batch_age_secs)]
    pub fn max_batch_age_secs(&self) -> (secs: i64)
        ensures
            secs == self.spec_max_batch_age_secs(),
            secs >= 1,
    {
        proof {
            use_type_invariant(self);
        }
        self.max_batch_age_secs
    }

    #[verifier::when_used_as_spec(spec_max_retries)]
    pub fn max_retries(&self) -> (retries: u8)
        ensures
            retries == self.spec_max_retries(),
    {
        self.max_retries
    }
}

impl Default for Limits {
    /// A thousand records, five seconds, three retries.
    fn default() -> (limits: Limits)
        ensures
            limits.is_default(),
            limits.valid(),
    {
        Limits {
            max_batch_size: MAX_BATCH_SIZE,
            max_batch_age_secs: MAX_BATCH_DURATION_SECS,
            max_retries: MAX_RETRIES,
        }
    }
}

} // verus!
