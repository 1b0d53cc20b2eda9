use school_registry::audit::AuditTracker;

#[test]
fn missing_token_reads_never() {
    assert_eq!(AuditTracker::last_update(None), "never");
}

#[test]
fn epoch_renders_exactly() {
    assert_eq!(AuditTracker::record_update(0), "1970-01-01T00:00:00+00:00");
}

#[test]
fn recorded_payload_reads_back_unchanged() {
    let payload = AuditTracker::record_update(1_600_000_000);
    let read = AuditTracker::last_update(Some(payload.clone()));
    assert_eq!(read, payload);
    assert_eq!(read, "2020-09-13T12:26:40+00:00");
}

#[test]
fn recorded_payload_round_trips_through_the_calendar() {
    for secs in [0i64, 1, 59, 1_600_000_000, 253402300799] {
        let payload = AuditTracker::record_update(secs);
        let parsed = chrono::DateTime::parse_from_rfc3339(&payload)
            .expect("the payload is RFC 3339 text");
        assert_eq!(parsed.timestamp(), secs);
    }
}

#[test]
fn recording_now_yields_parsable_payload() {
    let payload = AuditTracker::record_update_now();
    let parsed = chrono::DateTime::parse_from_rfc3339(&payload)
        .expect("the payload is RFC 3339 text");
    assert!(parsed.timestamp() >= 0);
}

#[test]
fn later_instants_render_later() {
    let a = AuditTracker::record_update(5);
    let b = AuditTracker::record_update(6);
    assert_ne!(a, b);
    let ta = chrono::DateTime::parse_from_rfc3339(&a).unwrap().timestamp();
    let tb = chrono::DateTime::parse_from_rfc3339(&b).unwrap().timestamp();
    assert!(ta < tb);
}
