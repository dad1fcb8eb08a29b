use bambu::hub::{Commands, Hub, Step};

/// Runs one transport message through the hub; `closed` are the listeners
/// whose receiving end is gone. Returns who received the text.
fn deliver(hub: &mut Hub, text: &str, closed: &[u64]) -> Vec<u64> {
    match hub.on_transport(Some(("device/report".to_string(), text.as_bytes().to_vec()))) {
        Step::Deliver { topic, text: t, targets } => {
            assert_eq!(topic, "device/report");
            assert_eq!(t, text);
            let failed: Vec<u64> = targets.iter().copied().filter(|id| closed.contains(id)).collect();
            let reached: Vec<u64> = targets.iter().copied().filter(|id| !closed.contains(id)).collect();
            hub.delivered(&failed);
            reached
        }
        other => panic!("expected a delivery, got {other:?}"),
    }
}

#[test]
fn fanout_reaches_every_listener_in_order() {
    let mut hub = Hub::new();
    assert!(matches!(hub.on_command(Commands::Subscribe(1)), Step::Continue));
    assert!(matches!(hub.on_command(Commands::Subscribe(2)), Step::Continue));
    let mut inbox1 = Vec::new();
    let mut inbox2 = Vec::new();
    for m in ["a", "b", "c"] {
        let reached = deliver(&mut hub, m, &[]);
        if reached.contains(&1) {
            inbox1.push(m);
        }
        if reached.contains(&2) {
            inbox2.push(m);
        }
    }
    assert_eq!(inbox1, vec!["a", "b", "c"]);
    assert_eq!(inbox2, vec!["a", "b", "c"]);
}

#[test]
fn late_listener_sees_no_replay() {
    let mut hub = Hub::new();
    hub.on_command(Commands::Subscribe(1));
    deliver(&mut hub, "one", &[]);
    deliver(&mut hub, "two", &[]);
    hub.on_command(Commands::Subscribe(7));
    let reached = deliver(&mut hub, "three", &[]);
    assert_eq!(reached, vec![1, 7]);
}

#[test]
fn closed_listener_is_pruned_after_one_attempt() {
    let mut hub = Hub::new();
    hub.on_command(Commands::Subscribe(1));
    hub.on_command(Commands::Subscribe(2));
    hub.on_command(Commands::Subscribe(3));
    let reached = deliver(&mut hub, "x", &[2]);
    assert_eq!(reached, vec![1, 3]);
    match hub.on_transport(Some(("t".to_string(), b"y".to_vec()))) {
        Step::Deliver { targets, .. } => assert_eq!(targets, vec![1, 3]),
        other => panic!("expected a delivery, got {other:?}"),
    }
}

#[test]
fn duplicate_registration_is_kept() {
    let mut hub = Hub::new();
    hub.on_command(Commands::Subscribe(4));
    hub.on_command(Commands::Subscribe(4));
    assert_eq!(deliver(&mut hub, "x", &[]), vec![4, 4]);
}

#[test]
fn non_utf8_payload_is_discarded() {
    let mut hub = Hub::new();
    hub.on_command(Commands::Subscribe(1));
    let step = hub.on_transport(Some(("t".to_string(), vec![0xff, 0xfe, 0x41])));
    assert!(matches!(step, Step::Discard));
    assert!(hub.running());
    assert_eq!(deliver(&mut hub, "after", &[]), vec![1]);
}

#[test]
fn stream_end_and_disconnect_stop_the_loop() {
    let mut hub = Hub::new();
    assert!(matches!(hub.on_transport(None), Step::Close));
    assert!(!hub.running());

    let mut hub = Hub::new();
    assert!(matches!(hub.on_command(Commands::Disconnect), Step::Close));
    assert!(!hub.running());
}
