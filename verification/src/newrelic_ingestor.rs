//! The ingestor that tags each record with `source` and `service`, and
//! authenticates with an `Api-Key` header.
use crate::clock::{utc_now, Timestamp};
use crate::config::Limits;
use crate::delivery::{Delivery, DeliveryView};
use crate::json::{json_text, log_fields, log_insert, Fields, JsonModel, Log};
use crate::queue::{queued, stamp_for, stamps_ordered, LogEvent, LogQueue};
use vstd::prelude::*;

verus! {

/// The value of the `source` field of every record.
pub const DD_SOURCE: &'static str = "newrelic-tracing-layer";

/// The name of the worker thread of this ingestor.
pub const NAME: &'static str = "new_relic";

/// The value of the `User-Agent` header.
pub const USER_AGENT: &'static str = "newrelic-tracing-subscriber/0.1.0";

/// The site that receives the records.
#[derive(Debug, Clone, Copy, PartialEq, Eq, Structural)]
pub enum Region {
    US,
    EU,
    FedRAMP,
}

/// What an ingestor is built from.
#[derive(Debug)]
pub struct NewRelicOptions {
    pub api_key: String,
    pub service_name: String,
    pub region: Option<Region>,
    pub url: Option<String>,
    pub common: Option<Vec<String>>,
}

impl Default for NewRelicOptions {
    fn default() -> (options: NewRelicOptions)
        ensures
            options.api_key@ == Seq::<char>::empty(),
            options.service_name@ == Seq::<char>::empty(),
            options.region is None,
            options.url is None,
            options.common is None,
    {
        NewRelicOptions {
            api_key: String::new(),
            service_name: String::new(),
            region: None,
            url: None,
            common: None,
        }
    }
}

impl NewRelicOptions {
    /// Options with a service name and an API key, and nothing else set.
    pub fn new(service_name: &str, api_key: &str) -> (options: NewRelicOptions)
        ensures
            options.service_name@ == service_name@,
            options.api_key@ == api_key@,
            options.region is None,
            options.url is None,
            options.common is None,
    {
        NewRelicOptions {
            service_name: service_name.to_owned(),
            api_key: api_key.to_owned(),
            region: None,
            url: None,
            common: None,
        }
    }

    /// The same options with the region set.
    #[must_use]
    pub fn with_region(self, region: Region) -> (options: NewRelicOptions)
        ensures
            options.region == Some(region),
            options.api_key == self.api_key,
            options.service_name == self.service_name,
            options.url == self.url,
            options.common == self.common,
    {
        let mut options = self;
        options.region = Some(region);
        options
    }

    /// The same options with the common attributes set.
    #[must_use]
    pub fn with_commons(self, common: Vec<String>) -> (options: NewRelicOptions)
        ensures
            options.common == Some(common),
            options.api_key == self.api_key,
            options.service_name == self.service_name,
            options.region == self.region,
            options.url == self.url,
    {
        let mut options = self;
        options.common = Some(common);
        options
    }

    /// The same options with the destination set. It takes precedence over
    /// the region.
    #[must_use]
    pub fn with_url(self, url: &str) -> (options: NewRelicOptions)
        ensures
            options.url is Some,
            options.url->Some_0@ == url@,
            options.api_key == self.api_key,
            options.service_name == self.service_name,
            options.region == self.region,
            options.common == self.common,
    {
        let mut options = self;
        options.url = Some(url.to_owned());
        options
    }
}

/// The intake of a region; without a region, that of `US`.
pub open spec fn region_url(region: Option<Region>) -> Seq<char> {
    match region {
        Some(Region::US) | None => "https://log-api.newrelic.com/log/v1"@,
        Some(Region::EU) => "https://log-api.eu.newrelic.com/log/v1"@,
        Some(Region::FedRAMP) => "https://gov-log-api.newrelic.com/log/v1"@,
    }
}

/// The destination: the explicit one where it is set, else that of the region.
pub open spec fn destination(url: Option<String>, region: Option<Region>) -> Seq<char> {
    match url {
        Some(explicit) => explicit@,
        None => region_url(region),
    }
}

/// A record with the fields that this ingestor adds to each: the source and
/// the service. They replace fields of the same names.
pub open spec fn tagged(fields: Fields, service_name: Seq<char>) -> Fields {
    fields.insert("source"@, JsonModel::Text(DD_SOURCE@)).insert(
        "service"@,
        JsonModel::Text(service_name),
    )
}

/// The header lines of every request, as names and values.
pub open spec fn header_lines(api_key: Seq<char>) -> Seq<(Seq<char>, Seq<char>)> {
    seq![
        ("User-Agent"@, USER_AGENT@),
        ("Api-Key"@, api_key),
        ("Content-Type"@, "application/json"@),
        ("Content-Encoding"@, "gzip"@),
    ]
}

/// The names and values of a list of header lines.
pub open spec fn lines_view(lines: Seq<(String, String)>) -> Seq<(Seq<char>, Seq<char>)> {
    Seq::new(lines.len(), |i: int| (lines[i].0@, lines[i].1@))
}

/// Queues records for one destination and decides when they leave.
pub struct NewRelicLogIngestor {
    pub url: String,
    pub service_name: String,
    pub api_key: String,
    pub queue: LogQueue,
}

/// Whether two ingestors differ in their queued records at most.
pub open spec fn same_settings(a: NewRelicLogIngestor, b: NewRelicLogIngestor) -> bool {
    &&& a.url == b.url
    &&& a.service_name == b.service_name
    &&& a.api_key == b.api_key
    &&& a.queue.spec_limits() == b.queue.spec_limits()
}

fn region_intake(region: Option<Region>) -> (url: String)
    ensures
        url@ == region_url(region),
{
    match region {
        Some(Region::US) | None => "https://log-api.newrelic.com/log/v1",
        Some(Region::EU) => "https://log-api.eu.newrelic.com/log/v1",
        Some(Region::FedRAMP) => "https://gov-log-api.newrelic.com/log/v1",
    }.to_owned()
}

impl NewRelicLogIngestor {
    /// An ingestor with the default thresholds and an empty queue.
    pub fn new(options: NewRelicOptions) -> (ingestor: NewRelicLogIngestor)
        ensures
            ingestor.url@ == destination(options.url, options.region),
            ingestor.service_name == options.service_name,
            ingestor.api_key == options.api_key,
            ingestor.queue@ == Seq::<LogEvent>::empty(),
            ingestor.queue.spec_limits().is_default(),
    {
        Self::with_limits(options, Limits::default())
    }

    /// An ingestor with the given thresholds and an empty queue.
    pub fn with_limits(options: NewRelicOptions, limits: Limits) -> (ingestor: NewRelicLogIngestor)
        ensures
            ingestor.url@ == destination(options.url, options.region),
            ingestor.service_name == options.service_name,
            ingestor.api_key == options.api_key,
            ingestor.queue@ == Seq::<LogEvent>::empty(),
            ingestor.queue.spec_limits() == limits,
    {
        let url = match options.url {
            Some(explicit) => explicit,
            None => region_intake(options.region),
        };
        NewRelicLogIngestor {
            url,
            service_name: options.service_name,
            api_key: options.api_key,
            queue: LogQueue::new(limits),
        }
    }

    /// The name of the worker thread.
    pub fn name(&self) -> (name: &'static str)
        ensures
            name@ == NAME@,
    {
        NAME
    }

    /// The period, in seconds, of the timer that starts a flush attempt: the
    /// age limit of the queue.
    pub fn start(&self) -> (period_secs: u64)
        ensures
            period_secs == self.queue.spec_limits().max_batch_age_secs(),
            period_secs >= 1,
    {
        self.queue.limits().max_batch_age_secs() as u64
    }

    /// The header lines of every request, in the order in which they are set.
    pub fn headers(&self) -> (lines: Vec<(String, String)>)
        ensures
            lines_view(lines@) == header_lines(self.api_key@),
    {
        let mut lines: Vec<(String, String)> = Vec::new();
        lines.push(("User-Agent".to_owned(), USER_AGENT.to_owned()));
        lines.push(("Api-Key".to_owned(), self.api_key.clone()));
        lines.push(("Content-Type".to_owned(), "application/json".to_owned()));
        lines.push(("Content-Encoding".to_owned(), "gzip".to_owned()));
        assert(lines_view(lines@) =~= header_lines(self.api_key@));
        lines
    }

    /// Queues a record as received at `received_at`, with the source and the
    /// service added to it. Where `received_at` lies before the time of the
    /// newest queued record, that time is stamped instead, so the times of
    /// the queue never descend. No batch is taken.
    pub fn ingest_at(&mut self, log: Log, received_at: Timestamp)
        ensures
            queued(
                old(self).queue@,
                final(self).queue@,
                tagged(log_fields(log), old(self).service_name@),
                stamp_for(old(self).queue@, received_at),
            ),
            stamps_ordered(old(self).queue@) ==> stamps_ordered(final(self).queue@),
            same_settings(*final(self), *old(self)),
    {
        let mut log = log;
        log_insert(&mut log, "source".to_owned(), json_text(DD_SOURCE));
        log_insert(&mut log, "service".to_owned(), json_text(self.service_name.as_str()));
        let ghost before = self.queue@;
        self.queue.push(log, received_at);
        assert(self.queue@.drop_last() =~= before);
    }

    /// Queues a record as received now.
    pub fn ingest(&mut self, log: Log)
        ensures
            exists|received_at: Timestamp| #[trigger]
                queued(
                    old(self).queue@,
                    final(self).queue@,
                    tagged(log_fields(log), old(self).service_name@),
                    stamp_for(old(self).queue@, received_at),
                ),
            stamps_ordered(old(self).queue@) ==> stamps_ordered(final(self).queue@),
            same_settings(*final(self), *old(self)),
    {
        let now = utc_now();
        self.ingest_at(log, now);
    }

    /// A run of deliveries from this ingestor's queue, with nothing taken
    /// yet. A flush ignores the thresholds of the queue.
    pub fn try_send(&self, is_flush: bool) -> (run: Delivery)
        ensures
            run@ == (DeliveryView {
                forced: is_flush,
                max_retries: self.queue.spec_limits().max_retries() as nat,
                in_flight: None,
                pending: Seq::empty(),
                pause_millis: 0,
            }),
    {
        Delivery::new(is_flush, self.queue.limits().max_retries())
    }

    /// A run that drains the queue regardless of thresholds.
    pub fn flush(&self) -> (run: Delivery)
        ensures
            run@ == (DeliveryView {
                forced: true,
                max_retries: self.queue.spec_limits().max_retries() as nat,
                in_flight: None,
                pending: Seq::empty(),
                pause_millis: 0,
            }),
    {
        self.try_send(true)
    }
}

} // verus!
