use vstd::prelude::*;

use crate::sync_proto::SyncRecord;

verus! {

/// Identifier of the record schema on the authoritative ledger.
pub const SCHEMA_ID: &'static str =
    "record_002017915c937c1c44d1d6a7bc6697b2760396843676cc418a02b481fb08009e099f";

/// Full clipboard record as kept by the authoritative store: the payload,
/// its preview, and the replication metadata.
#[derive(Debug, Clone, Default)]
pub struct Record {
    pub content: String,
    pub content_preview: Option<String>,
    pub data_type: String,
    pub md5: String,
    pub create_time: i32,
    pub is_favorite: i32,
    pub tags: String,
    pub latest_addr: String,
    pub is_deleted: i32,
}

impl Record {
    /// Wire form of this record for the bulk backfill exchange.
    pub fn into_sync(self) -> (r: SyncRecord)
        ensures
            r.md5 == self.md5,
            r.create_time == self.create_time,
            r.content == self.content,
            r.content_preview == self.content_preview,
            r.data_type == self.data_type,
            r.is_favorite == self.is_favorite,
            r.tags == self.tags,
            r.latest_addr == self.latest_addr,
    {
        SyncRecord {
            md5: self.md5,
            create_time: self.create_time,
            content: self.content,
            content_preview: self.content_preview,
            data_type: self.data_type,
            is_favorite: self.is_favorite,
            tags: self.tags,
            latest_addr: self.latest_addr,
        }
    }

    /// A record received over the wire; it is not locally deleted.
    pub fn from_sync(value: SyncRecord) -> (r: Self)
        ensures
            r.md5 == value.md5,
            r.create_time == value.create_time,
            r.content == value.content,
            r.content_preview == value.content_preview,
            r.data_type == value.data_type,
            r.is_favorite == value.is_favorite,
            r.tags == value.tags,
            r.latest_addr == value.latest_addr,
            r.is_deleted == 0,
    {
        Record {
            content: value.content,
            content_preview: value.content_preview,
            data_type: value.data_type,
            md5: value.md5,
            create_time: value.create_time,
            is_favorite: value.is_favorite,
            tags: value.tags,
            latest_addr: value.latest_addr,
            is_deleted: 0,
        }
    }
}

/// The two payload kinds a record can carry.
#[derive(Debug)]
pub enum DataTypeEnum {
    TEXT,
    IMAGE,
}

impl DataTypeEnum {
    /// The wire name of this payload kind.
    pub open spec fn spec_name(self) -> Seq<char> {
        match self {
            DataTypeEnum::TEXT => "text"@,
            DataTypeEnum::IMAGE => "image"@,
        }
    }

    /// Wire name of this payload kind.
    pub fn as_string(&self) -> (r: String)
        ensures
            r@ == self.spec_name(),
    {
        match self {
            DataTypeEnum::TEXT => "text".to_owned(),
            DataTypeEnum::IMAGE => "image".to_owned(),
        }
    }
}

} // verus!
