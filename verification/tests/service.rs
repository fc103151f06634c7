use clipboard_syncer::sync::service::{check_address, SyncService, SyncStatus};
use clipboard_syncer::sync::syncer::{md5_list, to_record_caches};
use clipboard_syncer::sync_proto::{SyncData, SyncRecord};

fn wire(md5: &str, create_time: i32) -> SyncData {
    SyncData {
        md5: md5.to_string(),
        create_time,
    }
}

#[test]
fn test_ping_answers_pong() {
    let svc = SyncService::new();
    assert_eq!(svc.ping(), "PONG");
}

#[test]
fn test_add_empty_payload_is_invalid_argument() {
    // An absent payload is rejected and the index is left unchanged.
    let mut svc = SyncService::new();
    svc.add(Some(wire("abc", 100))).unwrap();

    let err = svc.add(None).unwrap_err();
    assert!(matches!(err, SyncStatus::InvalidArgument(_)));
    let snapshot = svc.list();
    assert_eq!(snapshot.len(), 1);
    assert_eq!(snapshot[0].md5, "abc");
    assert_eq!(snapshot[0].create_time, 100);
}

#[test]
fn test_remove_empty_payload_is_invalid_argument() {
    let mut svc = SyncService::new();
    let err = svc.remove(None).unwrap_err();
    assert!(matches!(err, SyncStatus::InvalidArgument(_)));
}

#[test]
fn test_add_reports_whether_to_fan_out() {
    let mut svc = SyncService::new();
    assert!(svc.add(Some(wire("h", 10))).unwrap());
    // An equally fresh re-announcement is deduplicated: no fan-out.
    assert!(!svc.add(Some(wire("h", 10))).unwrap());
    // A stale one neither.
    assert!(!svc.add(Some(wire("h", 3))).unwrap());
    // A fresher one replaces and fans out.
    assert!(svc.add(Some(wire("h", 20))).unwrap());
}

#[test]
fn test_remove_by_hash_whenever_present() {
    let mut svc = SyncService::new();
    svc.add(Some(wire("h", 100))).unwrap();

    // Removal goes by hash alone: even an announcement with an older
    // timestamp removes the stored record.
    assert!(svc.remove(Some(wire("h", 50))).unwrap());
    assert_eq!(svc.list().len(), 0);

    svc.add(Some(wire("h", 100))).unwrap();
    assert!(svc.remove(Some(wire("h", 200))).unwrap());
    assert_eq!(svc.list().len(), 0);

    // Removing what is absent reports false.
    assert!(!svc.remove(Some(wire("h", 100))).unwrap());
}

#[test]
fn test_check_address_rules() {
    assert!(check_address("192.168.1.5:7777"));
    assert!(!check_address("127.0.0.1:8080"));
    assert!(!check_address("127.0.0.1:1"));
    // A host that merely starts with the loopback digits is a different host.
    assert!(check_address("127.0.0.10:8080"));
    assert!(!check_address("127.0.0.1"));
    assert!(!check_address("localhost:8080"));
    assert!(!check_address(""));
}

#[test]
fn test_register_invalid_address_is_rejected() {
    let mut svc = SyncService::new();
    let err = svc.register("nonsense".to_string()).unwrap_err();
    assert!(matches!(err, SyncStatus::InvalidArgument(_)));

    // A loopback address never registers, whatever its port.
    let err = svc.register("127.0.0.1:8080".to_string()).unwrap_err();
    assert!(matches!(err, SyncStatus::InvalidArgument(_)));
    assert!(!svc.syncer.check_client_exist("127.0.0.1:8080"));
}

#[test]
fn test_register_returns_snapshot_and_remembers_peer() {
    let mut svc = SyncService::new();
    svc.add(Some(wire("abc", 100))).unwrap();

    let (snapshot, newly) = svc.register("192.168.1.5:7777".to_string()).unwrap();
    assert!(newly);
    assert_eq!(snapshot.len(), 1);
    assert_eq!(snapshot[0].md5, "abc");
    assert!(svc.syncer.check_client_exist("192.168.1.5:7777"));

    // Registering again is a no-op: no new reconciliation pull.
    let (_, newly_again) = svc.register("192.168.1.5:7777".to_string()).unwrap();
    assert!(!newly_again);
}

#[test]
fn test_sync_data_rewrites_loopback_origin() {
    let svc = SyncService::new();
    let records = vec![
        SyncRecord {
            md5: "a".to_string(),
            create_time: 1,
            content: "x".to_string(),
            content_preview: None,
            data_type: "text".to_string(),
            is_favorite: 0,
            tags: "".to_string(),
            latest_addr: "127.0.0.1".to_string(),
        },
        SyncRecord {
            md5: "b".to_string(),
            create_time: 2,
            content: "y".to_string(),
            content_preview: None,
            data_type: "text".to_string(),
            is_favorite: 0,
            tags: "".to_string(),
            latest_addr: "10.1.1.1".to_string(),
        },
    ];
    let shaped = svc.sync_data(records, "192.168.0.9");
    assert_eq!(shaped.len(), 2);
    assert_eq!(shaped[0].latest_addr, "192.168.0.9");
    assert_eq!(shaped[0].content, "x");
    assert_eq!(shaped[1].latest_addr, "10.1.1.1");
}

#[test]
fn test_register_round_trip_covers_snapshot() {
    // A registers with B; B's snapshot, diffed and merged with the backfill,
    // makes A's index cover everything B had.
    let mut b = SyncService::new();
    b.add(Some(wire("x", 20))).unwrap();
    b.add(Some(wire("y", 5))).unwrap();

    let mut a = SyncService::new();
    a.add(Some(wire("x", 10))).unwrap();

    // A -> B: Register; B answers with its snapshot.
    let (b_snapshot, _) = b.register("192.168.1.2:7000".to_string()).unwrap();

    // A computes its deficit and asks for exactly those hashes.
    let fingerprints = to_record_caches(&b_snapshot);
    let diff = a.store.calculate_diff(&fingerprints);
    let wanted = md5_list(&diff);
    assert_eq!(wanted.len(), 2);

    // After the backfill A merges the diff.
    a.store.merge_data(&diff);
    for d in &b_snapshot {
        let held = a.store.get(&d.md5).unwrap();
        assert!(held.create_time >= d.create_time);
    }
    assert_eq!(a.store.get("x").unwrap().create_time, 20);
    assert_eq!(a.store.get("y").unwrap().create_time, 5);
}
