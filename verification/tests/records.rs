use clipboard_syncer::model::record::Record as TableRecord;
use clipboard_syncer::models::image_data::ImageData;
use clipboard_syncer::models::record::{DataTypeEnum, Record};
use clipboard_syncer::sync_proto::{SyncMeta, SyncRecord};

#[test]
fn record_test_build() {}

#[test]
fn test_create_table_sql_mentions_table() {
    let sql = TableRecord::create_table_sql();
    assert!(sql.contains("create table if not exists t_record"));
    assert!(sql.contains("create_time INTEGER"));
}

#[test]
fn test_data_type_names() {
    assert_eq!(DataTypeEnum::TEXT.as_string(), "text");
    assert_eq!(DataTypeEnum::IMAGE.as_string(), "image");
}

#[test]
fn test_image_data_defaults() {
    let img = ImageData::default();
    assert_eq!(img.width, 0);
    assert_eq!(img.height, 0);
    assert_eq!(img.base64, "");
}

#[test]
fn test_record_sync_round_trip() {
    let rec = Record {
        content: "hello".to_string(),
        content_preview: Some("hello".to_string()),
        data_type: "text".to_string(),
        md5: "m".to_string(),
        create_time: 42,
        is_favorite: 1,
        tags: "t".to_string(),
        latest_addr: "1.2.3.4".to_string(),
        is_deleted: 0,
    };
    let wire = rec.clone().into_sync();
    assert_eq!(wire.md5, "m");
    assert_eq!(wire.create_time, 42);
    assert_eq!(wire.content, "hello");
    let back = Record::from_sync(wire);
    assert_eq!(back.md5, rec.md5);
    assert_eq!(back.content, rec.content);
    assert_eq!(back.is_deleted, 0);
}

#[test]
fn test_meta_expansion_is_empty_record() {
    let meta = SyncMeta {
        md5: "m".to_string(),
        create_time: 9,
    };
    let rec = SyncRecord::from_meta(meta);
    assert_eq!(rec.md5, "m");
    assert_eq!(rec.create_time, 9);
    assert_eq!(rec.content, "");
    assert!(rec.content_preview.is_none());
    assert_eq!(rec.latest_addr, "");

    let back = rec.into_meta();
    assert_eq!(back.md5, "m");
    assert_eq!(back.create_time, 9);
}
