use streamkey_gate::audit::AuditLog;

#[test]
fn sequences_are_consecutive_from_one() {
    let mut log = AuditLog::new();
    assert_eq!(log.next_sequence_number(), 1);
    for k in 0..5u64 {
        let e = log.append(format!("key{}", k), "Stream key not found".to_string());
        assert_eq!(e.sequence, k + 1);
    }
    let entries = log.snapshot();
    assert_eq!(entries.len(), 5);
    for k in 0..5usize {
        assert_eq!(entries[k].sequence, k as u64 + 1);
        assert_eq!(entries[k].subject, format!("key{}", k));
    }
    assert_eq!(log.next_sequence_number(), 6);
}

#[test]
fn append_returns_the_created_entry() {
    let mut log = AuditLog::new();
    let e = log.append("alice/SECRET123".to_string(), "Stream key accepted".to_string());
    assert_eq!(e.sequence, 1);
    assert_eq!(e.subject, "alice/SECRET123");
    assert_eq!(e.message, "Stream key accepted");
    let entries = log.snapshot();
    assert_eq!(entries[0].timestamp_local, e.timestamp_local);
}

#[test]
fn eviction_keeps_capacity_and_drops_oldest() {
    let mut log = AuditLog::new();
    for k in 0..101u64 {
        log.append(format!("key{}", k), "Stream key expired".to_string());
        assert!(log.snapshot().len() <= 100);
    }
    let entries = log.snapshot();
    assert_eq!(entries.len(), 100);
    assert_eq!(entries[0].sequence, 2);
    assert_eq!(entries[99].sequence, 101);
    for k in 0..entries.len() {
        assert_ne!(entries[k].sequence, 1);
        if k > 0 {
            assert!(entries[k - 1].sequence < entries[k].sequence);
        }
    }
}

#[test]
fn long_run_stays_bounded_and_ordered() {
    let mut log = AuditLog::new();
    for k in 0..250u64 {
        let e = log.append(format!("key{}", k), "Stream key not found".to_string());
        assert_eq!(e.sequence, k + 1);
    }
    let entries = log.snapshot();
    assert_eq!(entries.len(), 100);
    assert_eq!(entries[0].sequence, 151);
    assert_eq!(entries[99].sequence, 250);
}

#[test]
fn snapshot_is_a_point_in_time_copy() {
    let mut log = AuditLog::new();
    log.append("a/b".to_string(), "Stream key accepted".to_string());
    let before = log.snapshot();
    log.append("c/d".to_string(), "Stream key expired".to_string());
    assert_eq!(before.len(), 1);
    assert_eq!(log.snapshot().len(), 2);
}
