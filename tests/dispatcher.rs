use mqtt_core::dispatcher::{BackPressure, Dispatcher, Phase, TickAction};
use mqtt_core::error::MqttError;

#[test]
fn responses_leave_in_arrival_order() {
    let mut d: Dispatcher<&str> = Dispatcher::new(16, 0, 3000, 1024, 256, 0);
    let a = d.on_frame(1);
    let b = d.on_frame(2);
    let c = d.on_frame(3);
    // the later requests finish first
    assert!(d.on_response(c, Some("puback-3")));
    assert!(d.on_response(b, Some("suback-2")));
    assert!(d.take_ready().is_empty());
    assert_eq!(d.slots.len(), 3);
    assert!(d.on_response(a, Some("puback-1")));
    assert_eq!(d.take_ready(), vec!["puback-1", "suback-2", "puback-3"]);
    assert!(d.slots.is_empty());
}

#[test]
fn empty_responses_are_skipped_but_keep_order() {
    let mut d: Dispatcher<u32> = Dispatcher::new(4, 0, 0, 10, 5, 0);
    let a = d.on_frame(0);
    let b = d.on_frame(0);
    assert!(d.on_response(b, Some(2)));
    assert!(d.on_response(a, None));
    assert_eq!(d.take_ready(), vec![2]);
}

#[test]
fn unknown_or_repeated_response_is_refused() {
    let mut d: Dispatcher<u32> = Dispatcher::new(4, 0, 0, 10, 5, 0);
    let a = d.on_frame(0);
    assert!(!d.on_response(a + 7, Some(1)));
    assert!(d.on_response(a, Some(1)));
    assert!(!d.on_response(a, Some(2)));
    assert_eq!(d.take_ready(), vec![1]);
}

#[test]
fn reading_stops_at_inflight_bound() {
    let mut d: Dispatcher<u32> = Dispatcher::new(2, 0, 0, 10, 5, 0);
    assert!(d.can_read());
    let a = d.on_frame(0);
    d.on_frame(0);
    assert!(!d.can_read());
    assert!(d.on_response(a, None));
    assert!(d.take_ready().is_empty());
    assert!(d.can_read());
}

#[test]
fn keepalive_fires_once_then_drains() {
    let mut d: Dispatcher<u32> = Dispatcher::new(16, 5, 3000, 10, 5, 1_000);
    assert_eq!(d.tick(5_999), TickAction::Idle);
    assert_eq!(d.tick(7_000), TickAction::KeepAliveTimeout);
    assert_eq!(d.phase, Phase::ShuttingDown);
    assert!(d.keepalive_fired);
    assert!(!d.can_read());
    // nothing pending: the drain is over at once
    assert_eq!(d.tick(7_001), TickAction::Stop);
    assert_eq!(d.tick(9_000), TickAction::Idle);
}

#[test]
fn keepalive_zero_never_fires() {
    let mut d: Dispatcher<u32> = Dispatcher::new(16, 0, 3000, 10, 5, 0);
    assert_eq!(d.tick(u64::MAX), TickAction::Idle);
    assert_eq!(d.phase, Phase::Running);
}

#[test]
fn frames_restart_keepalive() {
    let mut d: Dispatcher<u32> = Dispatcher::new(16, 2, 3000, 10, 5, 0);
    d.on_frame(1_500);
    assert_eq!(d.tick(3_000), TickAction::Idle);
    assert_eq!(d.tick(3_500), TickAction::KeepAliveTimeout);
}

#[test]
fn drain_deadline_stops_without_responses() {
    let mut d: Dispatcher<u32> = Dispatcher::new(16, 0, 3000, 10, 5, 0);
    d.on_frame(10);
    assert!(d.begin_shutdown(100));
    assert!(!d.begin_shutdown(200));
    assert_eq!(d.tick(3_099), TickAction::Idle);
    assert_eq!(d.tick(3_100), TickAction::Stop);
    assert_eq!(d.phase, Phase::Stopped);
}

#[test]
fn drain_ends_when_responses_written() {
    let mut d: Dispatcher<u32> = Dispatcher::new(16, 0, 0, 10, 5, 0);
    let a = d.on_frame(10);
    d.begin_shutdown(100);
    assert_eq!(d.tick(1_000_000), TickAction::Idle);
    d.on_response(a, Some(9));
    assert_eq!(d.take_ready(), vec![9]);
    assert_eq!(d.tick(1_000_001), TickAction::Stop);
}

#[test]
fn back_pressure_reports_transitions_only() {
    let mut d: Dispatcher<u32> = Dispatcher::new(16, 0, 0, 100, 10, 0);
    assert_eq!(d.on_write_buffer(50), BackPressure::Unchanged);
    assert_eq!(d.on_write_buffer(101), BackPressure::Enabled);
    assert_eq!(d.on_write_buffer(500), BackPressure::Unchanged);
    assert_eq!(d.on_write_buffer(11), BackPressure::Unchanged);
    assert_eq!(d.on_write_buffer(10), BackPressure::Disabled);
    assert_eq!(d.on_write_buffer(0), BackPressure::Unchanged);
    assert_eq!(d.on_write_buffer(101), BackPressure::Enabled);
}

#[test]
fn back_pressure_pauses_reading() {
    let mut d: Dispatcher<u32> = Dispatcher::new(16, 0, 0, 100, 10, 0);
    d.on_frame(0);
    assert_eq!(d.on_write_buffer(200), BackPressure::Enabled);
    assert!(!d.can_read());
    assert_eq!(d.on_write_buffer(5), BackPressure::Disabled);
    assert!(d.can_read());
    d.on_frame(1);
    assert_eq!(d.slots.len(), 2);
}

#[test]
fn codec_error_is_delivered_once_and_stops_reading() {
    let mut d: Dispatcher<u32> = Dispatcher::new(16, 0, 3000, 10, 5, 0);
    assert!(d.on_error(50));
    assert_eq!(d.phase, Phase::ShuttingDown);
    assert!(!d.can_read());
    assert!(!d.on_error(60));
    assert_eq!(d.tick(61), TickAction::Stop);
}

#[test]
fn force_close_abandons_pending_responses() {
    let mut d: Dispatcher<&str> = Dispatcher::new(16, 0, 3000, 10, 5, 0);
    let a = d.on_frame(0);
    d.force_close();
    assert_eq!(d.phase, Phase::Stopped);
    // the publish service answers after the close: nothing is written
    assert!(!d.on_response(a, Some("puback")));
    assert!(d.take_ready().is_empty());
}

#[test]
fn service_error_aborts_without_response() {
    let mut d: Dispatcher<&str> = Dispatcher::new(16, 0, 3000, 10, 5, 0);
    let a = d.on_frame(0);
    let b = d.on_frame(0);
    assert!(d.on_response(b, Some("suback")));
    let e: MqttError<&str, ()> = d.on_service_error("publish failed");
    assert_eq!(e, MqttError::Service("publish failed"));
    assert_eq!(d.phase, Phase::Stopped);
    assert!(!d.on_response(a, Some("puback")));
    assert!(d.take_ready().is_empty());
}
