use voice_relay::backoff::{Backoff, BackoffVariant};
use voice_relay::heartbeat::{plan_after_poll, Heartbeat, HeartbeatStep};

#[test]
fn exponential_backoff_squares_the_attempt_count() {
    let mut backoff = Backoff::new(BackoffVariant::Exponential, None);
    assert_eq!(backoff.next(), 0);
    assert_eq!(backoff.next(), 1);
    assert_eq!(backoff.next(), 4);
    assert_eq!(backoff.next(), 9);
    assert_eq!(backoff.next(), 16);
}

#[test]
fn backoff_is_clamped_to_the_maximum() {
    let mut backoff = Backoff::new(BackoffVariant::Exponential, Some(9));
    assert_eq!(backoff.next(), 0);
    assert_eq!(backoff.next(), 1);
    assert_eq!(backoff.next(), 4);
    assert_eq!(backoff.next(), 9);
    assert_eq!(backoff.next(), 9);
    assert_eq!(backoff.next(), 9);
}

#[test]
fn reset_starts_the_sequence_over() {
    let mut backoff = Backoff::new(BackoffVariant::Exponential, None);
    assert_eq!(backoff.next(), 0);
    assert_eq!(backoff.next(), 1);
    assert_eq!(backoff.next(), 4);
    backoff.reset();
    assert_eq!(backoff.next(), 0);
    assert_eq!(backoff.next(), 1);
}

#[test]
fn healthy_poll_awaits_the_tick_and_resets() {
    let mut backoff = Backoff::new(BackoffVariant::Exponential, Some(3600));
    assert!(matches!(
        plan_after_poll(&mut backoff, None),
        HeartbeatStep::RetryAfter(0)
    ));
    assert!(matches!(
        plan_after_poll(&mut backoff, Some(500)),
        HeartbeatStep::RetryAfter(1)
    ));
    assert!(matches!(
        plan_after_poll(&mut backoff, Some(404)),
        HeartbeatStep::RetryAfter(4)
    ));
    assert!(matches!(
        plan_after_poll(&mut backoff, Some(200)),
        HeartbeatStep::AwaitTick
    ));
    // the reset took: the next failure starts the waits over
    assert!(matches!(
        plan_after_poll(&mut backoff, None),
        HeartbeatStep::RetryAfter(0)
    ));
}

#[test]
fn heartbeat_keeps_its_endpoint_and_interval() {
    let heartbeat = Heartbeat::new("http://localhost:8080/health".to_owned(), 60000);
    assert_eq!(heartbeat.endpoint().as_str(), "http://localhost:8080/health");
    assert_eq!(heartbeat.interval_ms(), 60000);
}
