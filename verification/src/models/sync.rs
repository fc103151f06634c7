use vstd::prelude::*;

use crate::sync_proto::{SyncMeta, SyncRecord};

verus! {

impl SyncRecord {
    /// Expand a bare fingerprint into a full wire record with empty content
    /// fields, as used when only the metadata of a record is known.
    pub fn from_meta(value: SyncMeta) -> (r: Self)
        ensures
            r.md5 == value.md5,
            r.create_time == value.create_time,
            r.content@ == Seq::<char>::empty(),
            r.content_preview is None,
            r.data_type@ == Seq::<char>::empty(),
            r.is_favorite == 0,
            r.tags@ == Seq::<char>::empty(),
            r.latest_addr@ == Seq::<char>::empty(),
    {
        SyncRecord {
            md5: value.md5,
            create_time: value.create_time,
            content: String::new(),
            content_preview: None,
            data_type: String::new(),
            is_favorite: 0,
            tags: String::new(),
            latest_addr: String::new(),
        }
    }

    /// Strip a full wire record down to its fingerprint.
    pub fn into_meta(self) -> (r: SyncMeta)
        ensures
            r.md5 == self.md5,
            r.create_time == self.create_time,
    {
        SyncMeta { md5: self.md5, create_time: self.create_time }
    }
}

} // verus!
