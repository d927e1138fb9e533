use vstd::prelude::*;
use crate::error::ErrorKind;

verus! {

/// Largest number of messages the queue hands out in one receive.
pub const MAX_POLL_BATCH: usize = 10;

/// Where a consumer stands within its polling cycle.
#[derive(Clone, Copy, Debug, PartialEq, Eq, Structural)]
pub enum Phase {
    /// No work in flight; waiting to poll.
    Idle,
    /// A receive request is outstanding.
    Polling,
    /// Received messages are being handed to pipelines.
    Dispatching,
    /// Waiting for every dispatched pipeline of the cycle to finish.
    Awaiting,
    /// The cycle's outcomes are with the completion handler.
    Completing,
    /// Shut down; no further work.
    Stopped,
}

/// What the driver of a consumer reports back.
#[derive(Clone, Copy, Debug, PartialEq, Eq, Structural)]
pub enum ConsumerEvent {
    /// The backoff or idle wait is over.
    Tick,
    /// A receive returned this many messages.
    Received { count: usize },
    /// Every received message has been handed to a pipeline.
    Dispatched,
    /// Every pipeline of the cycle has produced its outcome.
    Joined,
    /// The completion handler is done with the cycle's outcomes.
    Completed,
    /// Shutdown was asked for.
    ShutdownRequested,
}

/// What the driver of a consumer is to do next.
#[derive(Clone, Copy, Debug, PartialEq, Eq, Structural)]
pub enum ConsumerAction {
    /// Receive up to this many messages.
    Poll { max_messages: usize },
    /// Wait for the backoff interval, then report `Tick`.
    Backoff,
    /// Start this many message pipelines, within the concurrency limit.
    Dispatch { count: usize },
    /// Wait for all of the cycle's pipelines.
    Join,
    /// Hand the cycle's outcomes to the completion handler.
    Complete,
    /// Stop: nothing is in flight.
    Stop,
    /// Nothing to do for this event in this phase.
    Wait,
}

/// The consumer's decision for one event: the next phase, whether it is now
/// draining, and the action. A shutdown is observed at poll boundaries: with
/// nothing in flight it stops at once, otherwise the consumer drains, so the
/// cycle in flight runs to completion and no new poll is issued. Messages of a
/// receive that was outstanding when it stopped are left to redelivery.
pub open spec fn consumer_step(
    phase: Phase,
    draining: bool,
    poll_size: usize,
    event: ConsumerEvent,
) -> (Phase, bool, ConsumerAction) {
    match (phase, event) {
        (Phase::Stopped, _) => (Phase::Stopped, draining, ConsumerAction::Wait),
        (Phase::Idle, ConsumerEvent::ShutdownRequested) => (Phase::Stopped, true, ConsumerAction::Stop),
        (Phase::Polling, ConsumerEvent::ShutdownRequested) => (Phase::Stopped, true, ConsumerAction::Stop),
        (_, ConsumerEvent::ShutdownRequested) => (phase, true, ConsumerAction::Wait),
        (Phase::Idle, ConsumerEvent::Tick) => if draining {
            (Phase::Stopped, draining, ConsumerAction::Stop)
        } else {
            (Phase::Polling, draining, ConsumerAction::Poll { max_messages: poll_size })
        },
        (Phase::Polling, ConsumerEvent::Received { count }) => if count == 0 {
            if draining {
                (Phase::Stopped, draining, ConsumerAction::Stop)
            } else {
                (Phase::Idle, draining, ConsumerAction::Backoff)
            }
        } else {
            (Phase::Dispatching, draining, ConsumerAction::Dispatch { count })
        },
        (Phase::Dispatching, ConsumerEvent::Dispatched) => (Phase::Awaiting, draining, ConsumerAction::Join),
        (Phase::Awaiting, ConsumerEvent::Joined) => (Phase::Completing, draining, ConsumerAction::Complete),
        (Phase::Completing, ConsumerEvent::Completed) => if draining {
            (Phase::Stopped, draining, ConsumerAction::Stop)
        } else {
            (Phase::Polling, draining, ConsumerAction::Poll { max_messages: poll_size })
        },
        _ => (phase, draining, ConsumerAction::Wait),
    }
}

/// The polling state machine of a queue consumer.
pub struct SqsConsumer {
    phase: Phase,
    draining: bool,
    poll_size: usize,
}

impl SqsConsumer {
    pub closed spec fn phase_of(&self) -> Phase {
        self.phase
    }

    pub closed spec fn is_draining(&self) -> bool {
        self.draining
    }

    pub closed spec fn poll_size_of(&self) -> usize {
        self.poll_size
    }

    pub open spec fn wf(&self) -> bool {
        0 < self.poll_size_of() <= MAX_POLL_BATCH
    }

    /// A consumer in `Idle` that asks for up to `poll_batch_size` messages per
    /// receive, capped at the queue's maximum; `None` for a size of zero.
    pub fn new(poll_batch_size: usize) -> (r: Option<Self>)
        ensures
            poll_batch_size == 0 <==> r is None,
            r matches Some(c) ==> c.wf() && c.phase_of() == Phase::Idle && !c.is_draining()
                && c.poll_size_of() == if poll_batch_size > MAX_POLL_BATCH {
                MAX_POLL_BATCH
            } else {
                poll_batch_size
            },
    {
        if poll_batch_size == 0 {
            return None;
        }
        let size = if poll_batch_size > MAX_POLL_BATCH {
            MAX_POLL_BATCH
        } else {
            poll_batch_size
        };
        Some(SqsConsumer { phase: Phase::Idle, draining: false, poll_size: size })
    }

    pub fn phase(&self) -> (r: Phase)
        ensures
            r == self.phase_of(),
    {
        self.phase
    }

    pub fn draining(&self) -> (r: bool)
        ensures
            r == self.is_draining(),
    {
        self.draining
    }

    /// Takes one event and returns the action it calls for. Once draining,
    /// the consumer never polls again, and it only stops with no pipeline in
    /// flight.
    pub fn on_event(&mut self, event: ConsumerEvent) -> (r: ConsumerAction)
        requires
            old(self).wf(),
        ensures
            final(self).wf(),
            final(self).poll_size_of() == old(self).poll_size_of(),
            (final(self).phase_of(), final(self).is_draining(), r) == consumer_step(
                old(self).phase_of(),
                old(self).is_draining(),
                old(self).poll_size_of(),
                event,
            ),
            old(self).is_draining() ==> final(self).is_draining(),
            final(self).is_draining() ==> !(r is Poll),
            r is Stop ==> final(self).phase_of() == Phase::Stopped,
            r is Stop ==> old(self).phase_of() == Phase::Idle || old(self).phase_of()
                == Phase::Polling || old(self).phase_of() == Phase::Completing,
    {
        let (phase, draining, action) = match (self.phase, event) {
            (Phase::Stopped, _) => (Phase::Stopped, self.draining, ConsumerAction::Wait),
            (Phase::Idle, ConsumerEvent::ShutdownRequested) => (Phase::Stopped, true, ConsumerAction::Stop),
            (Phase::Polling, ConsumerEvent::ShutdownRequested) => (Phase::Stopped, true, ConsumerAction::Stop),
            (_, ConsumerEvent::ShutdownRequested) => (self.phase, true, ConsumerAction::Wait),
            (Phase::Idle, ConsumerEvent::Tick) => if self.draining {
                (Phase::Stopped, self.draining, ConsumerAction::Stop)
            } else {
                (Phase::Polling, self.draining, ConsumerAction::Poll { max_messages: self.poll_size })
            },
            (Phase::Polling, ConsumerEvent::Received { count }) => if count == 0 {
                if self.draining {
                    (Phase::Stopped, self.draining, ConsumerAction::Stop)
                } else {
                    (Phase::Idle, self.draining, ConsumerAction::Backoff)
                }
            } else {
                (Phase::Dispatching, self.draining, ConsumerAction::Dispatch { count })
            },
            (Phase::Dispatching, ConsumerEvent::Dispatched) => (Phase::Awaiting, self.draining, ConsumerAction::Join),
            (Phase::Awaiting, ConsumerEvent::Joined) => (Phase::Completing, self.draining, ConsumerAction::Complete),
            (Phase::Completing, ConsumerEvent::Completed) => if self.draining {
                (Phase::Stopped, self.draining, ConsumerAction::Stop)
            } else {
                (Phase::Polling, self.draining, ConsumerAction::Poll { max_messages: self.poll_size })
            },
            _ => (self.phase, self.draining, ConsumerAction::Wait),
        };
        self.phase = phase;
        self.draining = draining;
        action
    }
}

/// A counting gate that bounds how many pipelines run at once.
pub struct ConcurrencyGate {
    limit: usize,
    in_flight: usize,
}

impl ConcurrencyGate {
    pub closed spec fn limit_of(&self) -> usize {
        self.limit
    }

    pub closed spec fn in_flight_of(&self) -> usize {
        self.in_flight
    }

    pub open spec fn wf(&self) -> bool {
        0 < self.limit_of() && self.in_flight_of() <= self.limit_of()
    }

    /// A gate admitting up to `limit` pipelines; the limit has no default and
    /// must be positive, so a limit of zero gives `None`.
    pub fn new(limit: usize) -> (r: Option<Self>)
        ensures
            limit == 0 <==> r is None,
            r matches Some(g) ==> g.wf() && g.limit_of() == limit && g.in_flight_of() == 0,
    {
        if limit == 0 {
            None
        } else {
            Some(ConcurrencyGate { limit, in_flight: 0 })
        }
    }

    pub fn in_flight(&self) -> (r: usize)
        ensures
            r == self.in_flight_of(),
    {
        self.in_flight
    }

    pub fn limit(&self) -> (r: usize)
        ensures
            r == self.limit_of(),
    {
        self.limit
    }

    /// Takes a slot if one is free. A caller that gets `false` waits for a
    /// release before dispatching more.
    pub fn try_acquire(&mut self) -> (r: bool)
        requires
            old(self).wf(),
        ensures
            final(self).wf(),
            final(self).limit_of() == old(self).limit_of(),
            r == (old(self).in_flight_of() < old(self).limit_of()),
            final(self).in_flight_of() == if r {
                old(self).in_flight_of() + 1
            } else {
                old(self).in_flight_of() as int
            },
    {
        if self.in_flight < self.limit {
            self.in_flight = self.in_flight + 1;
            true
        } else {
            false
        }
    }

    /// Gives back the slot of a finished pipeline.
    pub fn release(&mut self)
        requires
            old(self).wf(),
            old(self).in_flight_of() > 0,
        ensures
            final(self).wf(),
            final(self).limit_of() == old(self).limit_of(),
            final(self).in_flight_of() == old(self).in_flight_of() - 1,
    {
        self.in_flight = self.in_flight - 1;
    }
}

/// What the run loop does after the queue transport failed: reconnect while
/// attempts remain, else give up with `TransportUnavailable`.
#[derive(Clone, Debug, PartialEq, Eq)]
pub enum RunDecision {
    Reconnect { attempt: u32 },
    GiveUp(ErrorKind),
}

/// Decides on a transport failure after `failures_so_far` earlier consecutive
/// failures, allowing at most `max_reconnects` reconnects.
pub fn on_transport_failure(failures_so_far: u32, max_reconnects: u32) -> (r: RunDecision)
    ensures
        failures_so_far < max_reconnects ==> r == (RunDecision::Reconnect {
            attempt: (failures_so_far + 1) as u32,
        }),
        failures_so_far >= max_reconnects ==> r == RunDecision::GiveUp(
            ErrorKind::TransportUnavailable,
        ),
{
    if failures_so_far < max_reconnects {
        RunDecision::Reconnect { attempt: failures_so_far + 1 }
    } else {
        RunDecision::GiveUp(ErrorKind::TransportUnavailable)
    }
}

} // verus!
