use pizerocamera::{
    route, subscription_topics, BaseSettings, Dispatcher, Family, LoopAction, LoopEvent,
    LoopState, Route, Settings, TaskRegistry,
};

fn base() -> BaseSettings {
    BaseSettings {
        pi_zero_id: "A0".to_string(),
        server_url: "http://server".to_string(),
        mqtt_url: "broker".to_string(),
        mqtt_port: 1883,
        update_topic: "update".to_string(),
    }
}

fn settings() -> Settings {
    Settings {
        ntp_server_url: "pool.ntp.org".to_string(),
        ntp_topic: "ntp".to_string(),
        camera_topic: "camera".to_string(),
        command_topic: "command".to_string(),
        status_topic: "status".to_string(),
        cancel_topic: "cancel".to_string(),
    }
}

fn message(topic: &str) -> LoopEvent {
    LoopEvent::Message { topic: topic.to_string() }
}

#[test]
fn registry_counts_outstanding_work() {
    let mut r = TaskRegistry::new();
    let a = r.register().unwrap();
    let b = r.register().unwrap();
    let c = r.register().unwrap();
    assert!(a != b && b != c && a != c);
    assert_eq!(r.len(), 3);
    assert!(r.finish(b));
    assert!(!r.finish(b));
    assert_eq!(r.len(), 2);
    assert_eq!(r.cancel_all(), 2);
    assert_eq!(r.len(), 0);
    assert_eq!(r.cancel_all(), 0);
}

#[test]
fn routes_by_topic() {
    let (b, s) = (base(), settings());
    assert_eq!(route(&"camera".to_string(), &b, &s), Route::Handle(Family::Camera));
    assert_eq!(route(&"camera/A0".to_string(), &b, &s), Route::Handle(Family::Camera));
    assert_eq!(route(&"update/A0".to_string(), &b, &s), Route::Handle(Family::Update));
    assert_eq!(route(&"ntp".to_string(), &b, &s), Route::Handle(Family::Ntp));
    assert_eq!(route(&"command/A0".to_string(), &b, &s), Route::Handle(Family::Command));
    assert_eq!(route(&"status".to_string(), &b, &s), Route::Handle(Family::Status));
    assert_eq!(route(&"cancel/A0".to_string(), &b, &s), Route::Cancel);
    assert_eq!(route(&"camera/A1".to_string(), &b, &s), Route::Ignore);
    assert_eq!(route(&"weather".to_string(), &b, &s), Route::Ignore);
}

#[test]
fn subscriptions_cover_every_logical_topic() {
    let topics = subscription_topics(&base(), &settings());
    assert_eq!(topics.len(), 24);
    assert_eq!(&topics[..4], &["update/A0", "update/0", "update/A", "update"]);
    assert_eq!(&topics[20..], &["cancel/A0", "cancel/0", "cancel/A", "cancel"]);
}

#[test]
fn cancel_with_three_in_flight() {
    let (b, s) = (base(), settings());
    let mut d = Dispatcher::new();
    for _ in 0..3 {
        assert!(matches!(d.on_event(message("camera"), &b, &s), LoopAction::Spawn { family: Family::Camera, .. }));
    }
    match d.on_event(message("cancel"), &b, &s) {
        LoopAction::Cancelled { count, topic, reply } => {
            assert_eq!(count, 3);
            assert!(count <= 3);
            assert_eq!(topic, "cancel/answer/A0");
            assert!(reply.success);
            assert_eq!(reply.value, 3);
        }
        _ => panic!("expected a cancellation"),
    }
    assert_eq!(d.registry.len(), 0);
    assert_eq!(d.state, LoopState::Polling);
}

#[test]
fn cancel_after_some_completed() {
    let (b, s) = (base(), settings());
    let mut d = Dispatcher::new();
    let mut ids = vec![];
    for _ in 0..4 {
        match d.on_event(message("update"), &b, &s) {
            LoopAction::Spawn { task, .. } => ids.push(task),
            _ => panic!("expected a spawn"),
        }
    }
    d.on_event(LoopEvent::TaskFinished(ids[0]), &b, &s);
    d.on_event(LoopEvent::TaskFinished(ids[2]), &b, &s);
    match d.on_event(message("cancel/A0"), &b, &s) {
        LoopAction::Cancelled { count, .. } => assert_eq!(count, 2),
        _ => panic!("expected a cancellation"),
    }
}

#[test]
fn unknown_topic_is_dropped() {
    let (b, s) = (base(), settings());
    let mut d = Dispatcher::new();
    assert!(matches!(d.on_event(message("other"), &b, &s), LoopAction::Nothing));
    assert_eq!(d.registry.len(), 0);
}

#[test]
fn reconnect_resubscribes() {
    let (b, s) = (base(), settings());
    let mut d = Dispatcher::new();
    match d.on_event(LoopEvent::Reconnected, &b, &s) {
        LoopAction::Resubscribe(topics) => assert_eq!(topics, subscription_topics(&b, &s)),
        _ => panic!("expected a resubscription"),
    }
}

#[test]
fn restart_flag_stops_dispatch() {
    let (b, s) = (base(), settings());
    let mut d = Dispatcher::new();
    assert!(matches!(d.check_restart(false), LoopAction::Nothing));
    assert_eq!(d.state, LoopState::Polling);
    assert!(matches!(d.check_restart(true), LoopAction::Restart));
    assert_eq!(d.state, LoopState::Restarting);
    assert!(matches!(d.on_event(message("camera"), &b, &s), LoopAction::Nothing));
}

#[test]
fn interrupt_shuts_down() {
    let (b, s) = (base(), settings());
    let mut d = Dispatcher::new();
    assert!(matches!(d.on_event(LoopEvent::Interrupted, &b, &s), LoopAction::Exit));
    assert_eq!(d.state, LoopState::ShuttingDown);
    assert!(matches!(d.on_event(message("camera"), &b, &s), LoopAction::Nothing));
}
