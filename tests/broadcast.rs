use cpu_telemetry::hub::Hub;
use cpu_telemetry::sampler::{sampling_interval_for, sampling_interval_ms, Sampler, TickOutcome};
use cpu_telemetry::snapshot::Snapshot;
use cpu_telemetry::viewer::{viewer_step, ViewerAction, ViewerEvent};

fn bits(values: &[f32]) -> Vec<u32> {
    values.iter().map(|v| v.to_bits()).collect()
}

fn message(s: &Snapshot) -> String {
    let values: Vec<f32> = s.readings.iter().map(|b| f32::from_bits(*b)).collect();
    serde_json::to_string(&values).unwrap()
}

fn deliver(hub: &mut Hub, id: u64) -> Option<String> {
    match viewer_step(hub, id, ViewerEvent::Ready) {
        ViewerAction::Deliver(s) => Some(message(&s)),
        ViewerAction::Wait => None,
        ViewerAction::Stop => panic!("subscription {id} stopped"),
    }
}

#[test]
fn single_viewer_receives_both_ticks_in_order() {
    let mut hub = Hub::new();
    let mut sampler = Sampler::new();
    let viewer = hub.subscribe().unwrap();
    let mut received = Vec::new();
    for reading in [[10.0f32, 20.0, 30.0, 40.0], [15.0, 25.0, 35.0, 45.0]] {
        assert_eq!(sampler.tick(&mut hub, Some(bits(&reading))), TickOutcome::Published);
        while let Some(m) = deliver(&mut hub, viewer) {
            received.push(m);
        }
    }
    assert_eq!(received, vec!["[10.0,20.0,30.0,40.0]".to_string(), "[15.0,25.0,35.0,45.0]".to_string()]);
}

#[test]
fn publish_with_no_viewers_keeps_nothing() {
    let mut hub = Hub::new();
    let mut sampler = Sampler::new();
    assert!(!hub.has_subscribers());
    for _ in 0..3 {
        assert_eq!(sampler.tick(&mut hub, Some(bits(&[1.0, 2.0]))), TickOutcome::Published);
    }
    assert!(!hub.has_subscribers());
    let late = hub.subscribe().unwrap();
    assert!(!hub.has_pending(late));
    assert!(deliver(&mut hub, late).is_none());
}

#[test]
fn second_viewer_misses_first_publish() {
    let mut hub = Hub::new();
    let mut sampler = Sampler::new();
    let first = hub.subscribe().unwrap();
    sampler.tick(&mut hub, Some(bits(&[10.0, 20.0])));
    let second = hub.subscribe().unwrap();
    assert_ne!(first, second);
    assert!(!hub.has_pending(second));
    assert_eq!(deliver(&mut hub, second), None);
    sampler.tick(&mut hub, Some(bits(&[11.0, 21.0])));
    assert_eq!(deliver(&mut hub, second), Some("[11.0,21.0]".to_string()));
    assert_eq!(deliver(&mut hub, second), None);
    assert_eq!(deliver(&mut hub, first), Some("[11.0,21.0]".to_string()));
}

#[test]
fn slow_viewer_gets_newest_snapshot_only() {
    let mut hub = Hub::new();
    let id = hub.subscribe().unwrap();
    hub.publish(&Snapshot::new(vec![1, 2, 3]));
    hub.publish(&Snapshot::new(vec![4, 5, 6]));
    let got = hub.try_receive(id).unwrap();
    assert_eq!(got.readings, vec![4, 5, 6]);
    assert!(hub.try_receive(id).is_none());
}

#[test]
fn publish_reaches_every_subscriber_whatever_they_hold() {
    let mut hub = Hub::new();
    let ids: Vec<u64> = (0..5).map(|_| hub.subscribe().unwrap()).collect();
    assert_eq!(ids, vec![0, 1, 2, 3, 4]);
    hub.publish(&Snapshot::new(vec![7]));
    hub.try_receive(ids[1]);
    hub.publish(&Snapshot::new(vec![8]));
    for id in &ids {
        assert_eq!(hub.try_receive(*id).unwrap().readings, vec![8]);
    }
}

#[test]
fn torn_down_subscription_receives_nothing() {
    let mut hub = Hub::new();
    let keep = hub.subscribe().unwrap();
    let gone = hub.subscribe().unwrap();
    hub.publish(&Snapshot::new(vec![1]));
    assert!(hub.unsubscribe(gone));
    assert!(!hub.is_subscribed(gone));
    assert!(hub.try_receive(gone).is_none());
    hub.publish(&Snapshot::new(vec![2]));
    assert!(hub.try_receive(gone).is_none());
    assert!(!hub.unsubscribe(gone));
    assert_eq!(hub.try_receive(keep).unwrap().readings, vec![2]);
    let next = hub.subscribe().unwrap();
    assert_ne!(next, gone);
}

#[test]
fn viewer_stops_and_unsubscribes_on_failure_or_close() {
    let mut hub = Hub::new();
    let a = hub.subscribe().unwrap();
    let b = hub.subscribe().unwrap();
    hub.publish(&Snapshot::new(vec![3]));
    assert!(matches!(viewer_step(&mut hub, a, ViewerEvent::SendFailed), ViewerAction::Stop));
    assert!(matches!(viewer_step(&mut hub, b, ViewerEvent::PeerClosed), ViewerAction::Stop));
    assert!(!hub.is_subscribed(a));
    assert!(!hub.is_subscribed(b));
    assert!(!hub.has_subscribers());
    assert!(matches!(viewer_step(&mut hub, a, ViewerEvent::Ready), ViewerAction::Stop));
}

#[test]
fn core_order_is_kept_across_ticks() {
    let mut hub = Hub::new();
    let mut sampler = Sampler::new();
    let id = hub.subscribe().unwrap();
    assert_eq!(sampler.core_count(), None);
    assert_eq!(sampler.tick(&mut hub, Some(vec![9, 8, 7, 6])), TickOutcome::Published);
    assert_eq!(sampler.core_count(), Some(4));
    assert_eq!(hub.try_receive(id).unwrap().readings, vec![9, 8, 7, 6]);
    assert_eq!(sampler.tick(&mut hub, Some(vec![1, 2, 3])), TickOutcome::CoreCountChanged);
    assert!(!hub.has_pending(id));
    assert_eq!(sampler.tick(&mut hub, Some(vec![1, 2, 3, 4])), TickOutcome::Published);
    assert_eq!(hub.try_receive(id).unwrap().readings, vec![1, 2, 3, 4]);
    assert_eq!(sampler.core_count(), Some(4));
}

#[test]
fn failed_measurement_skips_the_tick() {
    let mut hub = Hub::new();
    let mut sampler = Sampler::new();
    let id = hub.subscribe().unwrap();
    assert_eq!(sampler.tick(&mut hub, None), TickOutcome::NoReading);
    assert_eq!(sampler.tick(&mut hub, Some(Vec::new())), TickOutcome::NoReading);
    assert!(!hub.has_pending(id));
    assert_eq!(sampler.core_count(), None);
    assert_eq!(sampler.tick(&mut hub, Some(vec![5, 6])), TickOutcome::Published);
    assert!(hub.has_pending(id));
}

#[test]
fn interval_is_five_times_the_floor() {
    assert_eq!(sampling_interval_for(0), 0);
    assert_eq!(sampling_interval_for(200), 1000);
    assert_eq!(sampling_interval_for(u64::MAX), u64::MAX);
    assert_eq!(sampling_interval_for(u64::MAX / 5 + 1), u64::MAX);
    let host = sampling_interval_ms();
    assert!(host <= 1000);
    assert_eq!(host % 5, 0);
    // sysinfo's floor on Linux is 200 ms.
    assert_eq!(host, 1000);
}

#[test]
fn snapshot_accessors_and_copies() {
    let s = Snapshot::new(vec![10, 20, 30]);
    assert_eq!(s.core_count(), 3);
    assert_eq!(s.reading(0), Some(10));
    assert_eq!(s.reading(2), Some(30));
    assert_eq!(s.reading(3), None);
    let c = s.duplicate();
    assert_eq!(c.readings, s.readings);
    assert_eq!(c.into_readings(), vec![10, 20, 30]);
}
