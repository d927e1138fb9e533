use s3_event_pipeline::consumer::{on_transport_failure, ConcurrencyGate, ConsumerAction, ConsumerEvent, Phase, RunDecision, SqsConsumer};
use s3_event_pipeline::error::ErrorKind;

#[test]
fn full_cycle_returns_to_polling() {
    let mut c = SqsConsumer::new(25).unwrap();
    assert_eq!(c.phase(), Phase::Idle);
    assert_eq!(c.on_event(ConsumerEvent::Tick), ConsumerAction::Poll { max_messages: 10 });
    assert_eq!(c.on_event(ConsumerEvent::Received { count: 3 }), ConsumerAction::Dispatch { count: 3 });
    assert_eq!(c.on_event(ConsumerEvent::Dispatched), ConsumerAction::Join);
    assert_eq!(c.on_event(ConsumerEvent::Joined), ConsumerAction::Complete);
    assert_eq!(c.on_event(ConsumerEvent::Completed), ConsumerAction::Poll { max_messages: 10 });
    assert_eq!(c.phase(), Phase::Polling);
}

#[test]
fn empty_poll_backs_off() {
    let mut c = SqsConsumer::new(4).unwrap();
    assert_eq!(c.on_event(ConsumerEvent::Tick), ConsumerAction::Poll { max_messages: 4 });
    assert_eq!(c.on_event(ConsumerEvent::Received { count: 0 }), ConsumerAction::Backoff);
    assert_eq!(c.phase(), Phase::Idle);
    assert!(SqsConsumer::new(0).is_none());
}

#[test]
fn shutdown_when_idle_stops_at_once() {
    let mut c = SqsConsumer::new(10).unwrap();
    assert_eq!(c.on_event(ConsumerEvent::ShutdownRequested), ConsumerAction::Stop);
    assert_eq!(c.phase(), Phase::Stopped);
    assert_eq!(c.on_event(ConsumerEvent::Tick), ConsumerAction::Wait);
}

#[test]
fn shutdown_in_flight_drains_cycle() {
    let mut c = SqsConsumer::new(10).unwrap();
    c.on_event(ConsumerEvent::Tick);
    c.on_event(ConsumerEvent::Received { count: 2 });
    c.on_event(ConsumerEvent::Dispatched);
    assert_eq!(c.on_event(ConsumerEvent::ShutdownRequested), ConsumerAction::Wait);
    assert!(c.draining());
    assert_eq!(c.phase(), Phase::Awaiting);
    assert_eq!(c.on_event(ConsumerEvent::Joined), ConsumerAction::Complete);
    assert_eq!(c.on_event(ConsumerEvent::Completed), ConsumerAction::Stop);
    assert_eq!(c.phase(), Phase::Stopped);
}

#[test]
fn gate_bounds_concurrency() {
    assert!(ConcurrencyGate::new(0).is_none());
    let mut g = ConcurrencyGate::new(2).unwrap();
    assert!(g.try_acquire());
    assert!(g.try_acquire());
    assert!(!g.try_acquire());
    assert_eq!(g.in_flight(), 2);
    g.release();
    assert!(g.try_acquire());
    assert_eq!(g.limit(), 2);
}

#[test]
fn transport_failures_escalate_after_retries() {
    assert_eq!(on_transport_failure(0, 3), RunDecision::Reconnect { attempt: 1 });
    assert_eq!(on_transport_failure(2, 3), RunDecision::Reconnect { attempt: 3 });
    assert_eq!(on_transport_failure(3, 3), RunDecision::GiveUp(ErrorKind::TransportUnavailable));
}
