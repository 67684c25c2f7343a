use mock_event_source::config::{Parameters, PartialConfiguration};
use mock_event_source::event::{Event, EventKind, Payload};
use mock_event_source::ranges::{AccelRange, FilterBandwidthHz, GyroRange};
use mock_event_source::state::{RunFlags, ServerState, StartStatus, StopStatus, DEFAULT_CAPACITY};
use rocket::tokio::sync::broadcast::error::TryRecvError;

#[test]
fn fresh_state_is_stopped_with_default_configuration() {
    let state = ServerState::new(DEFAULT_CAPACITY);
    let (configuration, flags) = state.snapshot();
    assert_eq!(flags, RunFlags { requested: false, running: false });
    assert_eq!(state.flags(), flags);
    assert_eq!(configuration.empty_weight, "0.0");
    assert_eq!(configuration.water_weight, "0.0");
    assert_eq!(configuration.air_pressure, "0.0");
    assert_eq!(configuration.accel_range, AccelRange::Range8G);
    assert_eq!(configuration.gyro_range, GyroRange::Range500DPS);
    assert_eq!(configuration.filter_bandwidth, FilterBandwidthHz::BandWidth21);
    assert_eq!(state.events_sent(), 0);
    assert_eq!(DEFAULT_CAPACITY, 100);
}

#[test]
fn start_twice_reports_already_running() {
    let mut state = ServerState::new(DEFAULT_CAPACITY);
    assert_eq!(state.request_start(), StartStatus::Started);
    assert_eq!(state.flags(), RunFlags { requested: true, running: false });
    assert_eq!(state.request_start(), StartStatus::AlreadyRunning);
    assert_eq!(state.flags(), RunFlags { requested: true, running: false });
}

#[test]
fn stop_without_start_reports_already_stopped() {
    let mut state = ServerState::new(DEFAULT_CAPACITY);
    assert_eq!(state.request_stop(), StopStatus::AlreadyStopped);
    assert_eq!(state.flags(), RunFlags { requested: false, running: false });
}

#[test]
fn stop_after_start_reports_stopped_once() {
    let mut state = ServerState::new(DEFAULT_CAPACITY);
    state.request_start();
    assert_eq!(state.request_stop(), StopStatus::Stopped);
    assert_eq!(state.flags(), RunFlags { requested: false, running: false });
    assert_eq!(state.request_stop(), StopStatus::AlreadyStopped);
    assert_eq!(state.request_start(), StartStatus::Started);
}

#[test]
fn requests_send_no_event() {
    let mut state = ServerState::new(DEFAULT_CAPACITY);
    let mut listener = state.subscribe();
    state.request_start();
    state.request_stop();
    assert_eq!(state.events_sent(), 0);
    assert_eq!(listener.try_recv(), Err(TryRecvError::Empty));
}

#[test]
fn statuses_in_words() {
    assert_eq!(StartStatus::Started.message(), "Telemetry started");
    assert_eq!(StartStatus::AlreadyRunning.message(), "Telemetry already running");
    assert_eq!(StopStatus::Stopped.message(), "Telemetry stopped");
    assert_eq!(StopStatus::AlreadyStopped.message(), "Telemetry already stopped");
}

#[test]
fn merge_configuration_overwrites_accel_range_only() {
    let mut state = ServerState::new(DEFAULT_CAPACITY);
    let mut listener = state.subscribe();
    let mut partial = PartialConfiguration::empty();
    partial.accel_range = Some(AccelRange::Range16G);
    let configuration = state.merge_configuration(partial);
    assert_eq!(configuration.accel_range, AccelRange::Range16G);
    assert_eq!(configuration.gyro_range, GyroRange::Range500DPS);
    assert_eq!(configuration.filter_bandwidth, FilterBandwidthHz::BandWidth21);
    assert_eq!(configuration.empty_weight, "0.0");
    assert_eq!(configuration.water_weight, "0.0");
    assert_eq!(configuration.air_pressure, "0.0");
    assert_eq!(state.snapshot().0, configuration);
    let event = listener.try_recv().unwrap();
    assert_eq!(
        event,
        Event {
            sequence_id: 0,
            kind: EventKind::Parameters,
            payload: Some(Payload::Parameters(Parameters {
                empty_weight: "0.0".to_string(),
                water_weight: "0.0".to_string(),
                air_pressure: "0.0".to_string(),
                accel_range: 16,
                gyro_range: 500,
                filter_bandwidth: 21,
            })),
        }
    );
    assert_eq!(listener.try_recv(), Err(TryRecvError::Empty));
    assert_eq!(state.events_sent(), 1);
}

#[test]
fn merge_configuration_keeps_text_as_given() {
    let mut state = ServerState::new(DEFAULT_CAPACITY);
    let mut partial = PartialConfiguration::empty();
    partial.empty_weight = Some("heavy".to_string());
    partial.air_pressure = Some("-1e999".to_string());
    let configuration = state.merge_configuration(partial);
    assert_eq!(configuration.empty_weight, "heavy");
    assert_eq!(configuration.water_weight, "0.0");
    assert_eq!(configuration.air_pressure, "-1e999");
}

#[test]
fn merge_configuration_leaves_the_flags_alone() {
    let mut state = ServerState::new(DEFAULT_CAPACITY);
    state.request_start();
    state.merge_configuration(PartialConfiguration::empty());
    assert_eq!(state.flags(), RunFlags { requested: true, running: false });
}

#[test]
fn sending_without_listeners_is_no_failure() {
    let mut state = ServerState::new(DEFAULT_CAPACITY);
    let event = state.send_event(EventKind::Idle, None);
    assert_eq!(event, Event { sequence_id: 0, kind: EventKind::Idle, payload: None });
    let event = state.send_event(EventKind::Idle, None);
    assert_eq!(event.sequence_id, 1);
    assert_eq!(state.events_sent(), 2);
}

#[test]
fn sequence_ids_count_every_event_sent() {
    let mut state = ServerState::new(DEFAULT_CAPACITY);
    for expected in 0..25u64 {
        assert_eq!(state.events_sent(), expected);
        let event = if expected % 2 == 0 {
            state.send_event(EventKind::Idle, None)
        } else {
            state.send_event(EventKind::TelemetryStopped, None)
        };
        assert_eq!(event.sequence_id, expected);
    }
    state.merge_configuration(PartialConfiguration::empty());
    assert_eq!(state.events_sent(), 26);
}

#[test]
fn a_listener_sees_only_what_is_sent_after_it_subscribed() {
    let mut state = ServerState::new(DEFAULT_CAPACITY);
    state.send_event(EventKind::Idle, None);
    state.send_event(EventKind::Idle, None);
    let mut listener = state.subscribe();
    assert_eq!(listener.try_recv(), Err(TryRecvError::Empty));
    state.send_event(EventKind::Idle, None);
    assert_eq!(listener.try_recv().unwrap().sequence_id, 2);
    assert_eq!(listener.try_recv(), Err(TryRecvError::Empty));
}

#[test]
fn every_listener_sees_every_event_in_order() {
    let mut state = ServerState::new(DEFAULT_CAPACITY);
    let mut first = state.subscribe();
    let mut second = state.subscribe();
    for _ in 0..50 {
        state.send_event(EventKind::Idle, None);
    }
    for expected in 0..50u64 {
        assert_eq!(first.try_recv().unwrap().sequence_id, expected);
    }
    for expected in 0..50u64 {
        assert_eq!(second.try_recv().unwrap().sequence_id, expected);
    }
    assert_eq!(first.try_recv(), Err(TryRecvError::Empty));
    assert_eq!(second.try_recv(), Err(TryRecvError::Empty));
}

#[test]
fn a_slow_listener_gets_one_lag_signal_and_then_what_is_left() {
    let mut state = ServerState::new(4);
    let mut listener = state.subscribe();
    for _ in 0..10 {
        state.send_event(EventKind::Idle, None);
    }
    assert_eq!(listener.try_recv(), Err(TryRecvError::Lagged(6)));
    for expected in 6..10u64 {
        assert_eq!(listener.try_recv().unwrap().sequence_id, expected);
    }
    assert_eq!(listener.try_recv(), Err(TryRecvError::Empty));
    state.send_event(EventKind::Idle, None);
    assert_eq!(listener.try_recv().unwrap().sequence_id, 10);
}

#[test]
fn a_listener_within_capacity_misses_nothing() {
    let mut state = ServerState::new(4);
    let mut listener = state.subscribe();
    for _ in 0..4 {
        state.send_event(EventKind::Idle, None);
    }
    for expected in 0..4u64 {
        assert_eq!(listener.try_recv().unwrap().sequence_id, expected);
    }
    assert_eq!(listener.try_recv(), Err(TryRecvError::Empty));
}

#[test]
fn dropping_the_state_closes_the_channel() {
    let mut state = ServerState::new(DEFAULT_CAPACITY);
    let mut listener = state.subscribe();
    state.send_event(EventKind::Idle, None);
    drop(state);
    assert_eq!(listener.try_recv().unwrap().sequence_id, 0);
    assert_eq!(listener.try_recv(), Err(TryRecvError::Closed));
}

#[test]
fn capacity_of_one_is_accepted() {
    let mut state = ServerState::new(1);
    let mut listener = state.subscribe();
    state.send_event(EventKind::Idle, None);
    assert_eq!(listener.try_recv().unwrap().sequence_id, 0);
}

#[test]
fn a_late_listener_starts_where_the_channel_stands() {
    let mut state = ServerState::new(DEFAULT_CAPACITY);
    let mut early = state.subscribe();
    for _ in 0..3 {
        state.send_event(EventKind::Idle, None);
    }
    let mut late = state.subscribe();
    assert_eq!(late.try_recv(), Err(TryRecvError::Empty));
    for _ in 0..2 {
        state.send_event(EventKind::Idle, None);
    }
    for expected in 0..5u64 {
        assert_eq!(early.try_recv().unwrap().sequence_id, expected);
    }
    for expected in 3..5u64 {
        assert_eq!(late.try_recv().unwrap().sequence_id, expected);
    }
    assert_eq!(early.try_recv(), Err(TryRecvError::Empty));
    assert_eq!(late.try_recv(), Err(TryRecvError::Empty));
}

#[test]
fn listeners_that_subscribe_together_start_together() {
    let mut state = ServerState::new(DEFAULT_CAPACITY);
    let mut keeper = state.subscribe();
    state.send_event(EventKind::Idle, None);
    let mut first = state.subscribe();
    let mut second = state.subscribe();
    state.send_event(EventKind::TelemetryStopped, None);
    state.send_event(EventKind::Idle, None);
    let seen_by_first = first.try_recv().unwrap();
    let seen_by_second = second.try_recv().unwrap();
    assert_eq!(seen_by_first, seen_by_second);
    assert_eq!(seen_by_first.sequence_id, 1);
    assert_eq!(keeper.try_recv().unwrap().sequence_id, 0);
}
