//! The life of the delivery worker: it starts the ingestor, hands it every
//! record that the channel yields, flushes once when the channel is closed,
//! and stops when the flush has returned.
use crate::json::Log;
use vstd::prelude::*;

verus! {

/// Where the worker stands.
#[derive(Clone, Copy, Debug, PartialEq, Eq, Structural)]
pub enum Phase {
    /// The ingestor has not been started.
    Created,
    /// Records are received and queued.
    Running,
    /// The channel is closed; the queue is being drained.
    Flushing,
    /// The flush has returned; the thread may end.
    Stopped,
}

/// What the worker does with what the channel yielded.
pub enum Command {
    /// Hand the record to the ingestor, then receive again.
    Ingest(Log),
    /// Begin the forced flush; nothing will be received any more.
    Flush,
    /// Nothing: the worker does not receive in this phase.
    Ignore,
}

/// The worker's place in its life.
pub struct Worker {
    phase: Phase,
}

/// The phase after a call to start: running where the worker was new.
pub open spec fn phase_after_start(phase: Phase) -> Phase {
    if phase == Phase::Created {
        Phase::Running
    } else {
        phase
    }
}

/// The phase after the flush has returned: stopped where the worker was
/// flushing.
pub open spec fn phase_after_flushed(phase: Phase) -> Phase {
    if phase == Phase::Flushing {
        Phase::Stopped
    } else {
        phase
    }
}

/// The phase after the channel yielded a record, or its end.
pub open spec fn phase_after_receive(phase: Phase, closed: bool) -> Phase {
    if phase == Phase::Running && closed {
        Phase::Flushing
    } else {
        phase
    }
}

impl Worker {
    /// The phase of the worker.
    pub closed spec fn spec_phase(&self) -> Phase {
        self.phase
    }

    /// A worker that has not started.
    pub fn new() -> (worker: Worker)
        ensures
            worker.spec_phase() == Phase::Created,
    {
        Worker { phase: Phase::Created }
    }

    #[verifier::when_used_as_spec(spec_phase)]
    pub fn phase(&self) -> (phase: Phase)
        ensures
            phase == self.spec_phase(),
    {
        self.phase
    }

    /// Starts the worker. Only the first call does: it tells the caller to
    /// start the ingestor, once.
    pub fn start(&mut self) -> (started: bool)
        ensures
            started == (old(self).spec_phase() == Phase::Created),
            final(self).spec_phase() == phase_after_start(old(self).spec_phase()),
    {
        match self.phase {
            Phase::Created => {
                self.phase = Phase::Running;
                true
            },
            _ => false,
        }
    }

    /// Takes what the channel yielded: a record, or nothing once every
    /// producer is gone. While running, a record is to be ingested, and the
    /// end of the channel begins the flush. In any other phase nothing is
    /// received.
    pub fn on_received(&mut self, received: Option<Log>) -> (command: Command)
        ensures
            final(self).spec_phase() == phase_after_receive(
                old(self).spec_phase(),
                received is None,
            ),
            command == match received {
                _ if old(self).spec_phase() != Phase::Running => Command::Ignore,
                Some(log) => Command::Ingest(log),
                None => Command::Flush,
            },
    {
        match self.phase {
            Phase::Running => match received {
                Some(log) => Command::Ingest(log),
                None => {
                    self.phase = Phase::Flushing;
                    Command::Flush
                },
            },
            _ => Command::Ignore,
        }
    }

    /// Takes the return of the forced flush: a worker that is flushing
    /// stops. In any other phase nothing changes.
    pub fn on_flushed(&mut self) -> (stopped: bool)
        ensures
            stopped == (old(self).spec_phase() == Phase::Flushing),
            final(self).spec_phase() == phase_after_flushed(old(self).spec_phase()),
    {
        match self.phase {
            Phase::Flushing => {
                self.phase = Phase::Stopped;
                true
            },
            _ => false,
        }
    }
}

/// The worker ends only after the flush: whatever it is told, a worker that
/// has not stopped stops on nothing but the return of the flush while it is
/// flushing, and it flushes only once the channel is closed.
pub proof fn law_only_the_flush_stops_the_worker(phase: Phase, closed: bool)
    requires
        phase != Phase::Stopped,
    ensures
        phase_after_start(phase) != Phase::Stopped,
        phase_after_receive(phase, closed) != Phase::Stopped,
        phase_after_flushed(phase) == Phase::Stopped <==> phase == Phase::Flushing,
        phase_after_receive(phase, closed) == Phase::Flushing && phase != Phase::Flushing
            ==> closed,
        phase_after_start(phase) != Phase::Flushing || phase == Phase::Flushing,
        phase_after_flushed(phase) != Phase::Flushing,
{
}

} // verus!
