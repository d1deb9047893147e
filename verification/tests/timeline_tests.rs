use getso::timeline::EventLog;

#[test]
fn timeline_starts_empty() {
    let log: EventLog<String> = EventLog::new();
    assert_eq!(log.log.len(), 0);
}

#[test]
fn timeline_preserves_insertion_order() {
    let mut log: EventLog<String> = EventLog::new();
    log.add("Connection Established");
    log.add("TLS Handshake");
    log.add("Reading Response");
    log.add("Response Fetched");
    let labels: Vec<&str> = log.log.iter().map(|e| e.description.as_str()).collect();
    assert_eq!(
        labels,
        vec![
            "Connection Established",
            "TLS Handshake",
            "Reading Response",
            "Response Fetched"
        ]
    );
}

#[test]
fn timeline_offsets_never_decrease() {
    let mut log: EventLog<String> = EventLog::new();
    for i in 0..50 {
        log.add(&format!("milestone {}", i));
    }
    for w in log.log.windows(2) {
        let a = (&w[0], &w[1]);
        assert!(
            a.0.seconds < a.1.seconds || (a.0.seconds == a.1.seconds && a.0.nanos <= a.1.nanos)
        );
    }
    for e in log.log.iter() {
        assert!(e.nanos < 1_000_000_000);
    }
}

#[test]
fn timeline_attaches_metadata() {
    let mut log: EventLog<String> = EventLog::new();
    log.add("plain");
    log.add_with_metadata(String::from("with payload"), String::from("certificate record"));
    assert_eq!(log.log.len(), 2);
    assert!(log.log[0].metadata.is_none());
    assert_eq!(log.log[1].description, "with payload");
    assert_eq!(log.log[1].metadata.as_deref(), Some("certificate record"));
}
