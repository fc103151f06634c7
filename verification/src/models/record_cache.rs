use vstd::prelude::*;

use crate::sync_proto::SyncData;

verus! {

/// The index fingerprint a wire fingerprint denotes.
pub open spec fn fingerprint_of(d: SyncData) -> RecordCache {
    RecordCache { md5: d.md5, create_time: d.create_time }
}

/// Lightweight fingerprint of one replicated clipboard record.
///
/// The content hash (`md5`) identifies the record; `create_time` orders
/// conflicting arrivals of the same record (last write wins).  Equality is
/// by content hash alone: two fingerprints with the same hash denote the
/// same logical record, whatever their timestamps.
#[derive(Debug, Clone)]
pub struct RecordCache {
    pub md5: String,
    pub create_time: i32,
}

impl core::hash::Hash for RecordCache {
    /// Relies on `String`'s `Hash`: feeds the content hash alone to the
    /// hasher, so fingerprints that are equal (same content hash) hash
    /// alike whatever their timestamps.
    #[verifier::external_body]
    fn hash<H: core::hash::Hasher>(&self, state: &mut H) {
        self.md5.hash(state)
    }
}

impl RecordCache {
    /// The key under which this fingerprint is indexed.
    pub open spec fn key(self) -> Seq<char> {
        self.md5@
    }
}

impl RecordCache {
    /// Field-wise copy whose value verified callers can rely on.
    pub fn duplicate(&self) -> (r: Self)
        ensures
            r == *self,
    {
        RecordCache { md5: self.md5.clone(), create_time: self.create_time }
    }
}

impl PartialEq for RecordCache {
    fn eq(&self, other: &Self) -> bool {
        self.md5 == other.md5
    }
}

impl vstd::std_specs::cmp::PartialEqSpecImpl for RecordCache {
    open spec fn obeys_eq_spec() -> bool {
        true
    }

    open spec fn eq_spec(&self, other: &Self) -> bool {
        self.md5@ == other.md5@
    }
}

impl From<RecordCache> for SyncData {
    fn from(val: RecordCache) -> Self {
        SyncData { md5: val.md5, create_time: val.create_time }
    }
}

impl vstd::std_specs::convert::FromSpecImpl<RecordCache> for SyncData {
    open spec fn obeys_from_spec() -> bool {
        true
    }

    open spec fn from_spec(v: RecordCache) -> Self {
        SyncData { md5: v.md5, create_time: v.create_time }
    }
}

impl From<SyncData> for RecordCache {
    fn from(value: SyncData) -> Self {
        RecordCache { md5: value.md5, create_time: value.create_time }
    }
}

impl vstd::std_specs::convert::FromSpecImpl<SyncData> for RecordCache {
    open spec fn obeys_from_spec() -> bool {
        true
    }

    open spec fn from_spec(v: SyncData) -> Self {
        RecordCache { md5: v.md5, create_time: v.create_time }
    }
}

} // verus!
