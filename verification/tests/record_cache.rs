use std::collections::hash_map::DefaultHasher;
use std::hash::Hash;

use clipboard_syncer::models::record_cache::RecordCache;
use clipboard_syncer::sync_proto::SyncData;

#[test]
fn test_eq() {
    assert_eq!(
        RecordCache {
            md5: "1".to_string(),
            create_time: 22,
        },
        RecordCache {
            md5: "1".to_string(),
            create_time: 1,
        }
    )
}

#[test]
fn test_hash() {
    let mut hasher1 = DefaultHasher::new();
    let mut hasher2 = DefaultHasher::new();

    assert_eq!(
        RecordCache {
            md5: "1".to_string(),
            create_time: 22,
        }
        .hash(&mut hasher1),
        RecordCache {
            md5: "1".to_string(),
            create_time: 1,
        }
        .hash(&mut hasher2)
    )
}

#[test]
fn test_wire_round_trip() {
    let rc = RecordCache {
        md5: "abc".to_string(),
        create_time: 17,
    };
    let wire = SyncData::from(rc.clone());
    assert_eq!(wire.md5, "abc");
    assert_eq!(wire.create_time, 17);
    let back = RecordCache::from(wire);
    assert_eq!(back, rc);
    assert_eq!(back.create_time, 17);
}
