use vstd::prelude::*;

verus! {

/// Wire shape of one record fingerprint as carried by the List, Add, Remove
/// and Register operations.
#[derive(Debug, Clone)]
pub struct SyncData {
    pub md5: String,
    pub create_time: i32,
}

/// Wire shape of a fingerprint as embedded in bulk backfill bookkeeping.
#[derive(Debug, Clone)]
pub struct SyncMeta {
    pub md5: String,
    pub create_time: i32,
}

/// Full record as exchanged by the bulk backfill (SyncData) operation: the
/// only call that carries record content across the wire.
#[derive(Debug, Clone)]
pub struct SyncRecord {
    pub md5: String,
    pub create_time: i32,
    pub content: String,
    pub content_preview: Option<String>,
    pub data_type: String,
    pub is_favorite: i32,
    pub tags: String,
    pub latest_addr: String,
}

impl SyncData {
    /// Field-wise copy whose value verified callers can rely on.
    pub fn duplicate(&self) -> (r: Self)
        ensures
            r == *self,
    {
        SyncData { md5: self.md5.clone(), create_time: self.create_time }
    }
}

impl SyncRecord {
    /// Field-wise copy whose value verified callers can rely on.
    pub fn duplicate(&self) -> (r: Self)
        ensures
            r == *self,
    {
        SyncRecord {
            md5: self.md5.clone(),
            create_time: self.create_time,
            content: self.content.clone(),
            content_preview: match &self.content_preview {
                Some(p) => Some(p.clone()),
                None => None,
            },
            data_type: self.data_type.clone(),
            is_favorite: self.is_favorite,
            tags: self.tags.clone(),
            latest_addr: self.latest_addr.clone(),
        }
    }
}

} // verus!
