use kasou::{VmEventBus, VmEventKind, VmId, VmState};

#[test]
fn event_bus_emits_to_subscriber() {
    let bus = VmEventBus::default();
    let mut rx = bus.subscribe();

    bus.state_changed(VmId::from("test-vm"), VmState::Stopped, VmState::Running);

    let event = rx.try_recv().unwrap();
    assert_eq!(event.vm_id, VmId::from("test-vm"));
    match event.kind {
        VmEventKind::StateChanged { from, to } => {
            assert_eq!(from, VmState::Stopped);
            assert_eq!(to, VmState::Running);
        }
        other => panic!("expected StateChanged, got {other:?}"),
    }
}

#[test]
fn event_bus_no_subscribers_does_not_panic() {
    let bus = VmEventBus::default();
    // Emitting with no subscribers should not panic
    bus.state_changed(VmId::from("x"), VmState::Running, VmState::Stopped);
}

#[test]
fn event_bus_multiple_subscribers() {
    let bus = VmEventBus::default();
    let mut rx1 = bus.subscribe();
    let mut rx2 = bus.subscribe();

    bus.state_changed(VmId::from("vm"), VmState::Running, VmState::Paused);

    assert!(rx1.try_recv().is_ok());
    assert!(rx2.try_recv().is_ok());
}

#[test]
fn state_change_event_records_its_arguments() {
    let now = std::time::Instant::now();
    let e = kasou::VmEvent::state_change(now, VmId::from("vm"), VmState::Paused, VmState::Running);
    assert_eq!(e.timestamp, now);
    assert_eq!(e.vm_id, VmId::from("vm"));
    assert!(matches!(
        e.kind,
        VmEventKind::StateChanged { from: VmState::Paused, to: VmState::Running }
    ));
}

#[test]
fn bus_capacity_is_rounded_up_to_a_power_of_two() {
    // Capacity 3 keeps 4 events: a subscriber 5 events behind lags by one.
    let bus = VmEventBus::new(3);
    let mut rx = bus.subscribe();
    for _ in 0..5 {
        bus.state_changed(VmId::from("v"), VmState::Stopped, VmState::Running);
    }
    assert!(matches!(
        rx.try_recv(),
        Err(tokio::sync::broadcast::error::TryRecvError::Lagged(1))
    ));
}
