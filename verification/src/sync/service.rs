use vstd::prelude::*;
use vstd::string::{StrSliceExecFns, StringExecFns};

use crate::consts::{LOCALHOST, PONG};
use crate::models::record_cache::{fingerprint_of, RecordCache};
use crate::storage::cache::{as_map, distinct_keys, lww_insert, needs_pull, CacheHandler};
use crate::sync::syncer::Syncer;
use crate::sync_proto::{SyncData, SyncRecord};
use crate::utils::ip::{addr_matches, check_addr};

verus! {

/// Errors the service surfaces to a calling peer: a malformed request or
/// address, or a failure of the storage collaborator.
#[derive(Debug)]
pub enum SyncStatus {
    InvalidArgument(String),
    Internal(String),
}

/// The host part of `s` — the characters before the port separator — reads
/// exactly as the loopback address.
pub open spec fn loopback_host(s: Seq<char>) -> bool {
    &&& LOCALHOST@.len() < s.len()
    &&& s.take(LOCALHOST@.len() as int) == LOCALHOST@
    &&& s[LOCALHOST@.len() as int] == ':'
}

/// A syntactically valid peer address whose host is not the loopback
/// address.
pub open spec fn spec_check_address(s: Seq<char>) -> bool {
    addr_matches(s) && !loopback_host(s)
}

/// Whether `addr` may be registered as a peer: well-formed, and its host is
/// not the loopback address.
pub fn check_address(addr: &str) -> (r: bool)
    ensures
        r == spec_check_address(addr@),
{
    if !check_addr(addr) {
        return false;
    }
    let n = addr.unicode_len();
    let loopback_len = LOCALHOST.unicode_len();
    if n <= loopback_len {
        return true;
    }
    if addr.get_char(loopback_len) != ':' {
        return true;
    }
    let host = addr.substring_char(0, loopback_len);
    let host_is_loopback = host.to_owned() == LOCALHOST.to_owned();
    proof {
        assert(addr@.take(LOCALHOST@.len() as int) =~= addr@.subrange(
            0,
            LOCALHOST@.len() as int,
        ));
    }
    !host_is_loopback
}

/// A wire snapshot faithfully renders the index map `m`: read back as
/// fingerprints it denotes exactly `m`, one entry per hash.
pub open spec fn snapshot_matches(snap: Seq<SyncData>, m: Map<Seq<char>, int>) -> bool {
    &&& distinct_keys(snap.map_values(|d: SyncData| fingerprint_of(d)))
    &&& as_map(snap.map_values(|d: SyncData| fingerprint_of(d))) == m
    &&& snap.len() == m.len()
}

/// The wire-facing synchronisation service: the record index and the peer
/// registry, together with the request/response logic of the six
/// operations.  Transport, storage lookups and fan-out delivery happen
/// outside and hand results in as plain values.
pub struct SyncService {
    pub store: CacheHandler,
    pub syncer: Syncer,
}

impl SyncService {
    /// Both components are well-formed.
    pub open spec fn wf(self) -> bool {
        self.store.wf() && self.syncer.wf()
    }

    /// A service with an empty index and no registered peers.
    pub fn new() -> (r: Self)
        ensures
            r.wf(),
            r.store@ == Map::<Seq<char>, int>::empty(),
            r.syncer@ == Set::<Seq<char>>::empty(),
    {
        SyncService { store: CacheHandler::new(), syncer: Syncer::new() }
    }

    /// Liveness probe: always answers the fixed literal.
    pub fn ping(&self) -> (r: String)
        ensures
            r@ == PONG@,
    {
        PONG.to_owned()
    }

    /// Full fingerprint snapshot of the index, in wire form.
    pub fn list(&self) -> (r: Vec<SyncData>)
        requires
            self.wf(),
        ensures
            snapshot_matches(r@, self.store@),
    {
        let ghost back = |d: SyncData| fingerprint_of(d);
        let copy = self.store.get_copy_data();
        let mut out: Vec<SyncData> = Vec::new();
        let mut idx: usize = 0;
        while idx < copy.len()
            invariant
                idx <= copy@.len(),
                back == (|d: SyncData| fingerprint_of(d)),
                out@.len() == idx,
                out@.map_values(back) =~= copy@.take(idx as int),
            decreases copy@.len() - idx,
        {
            let rc = &copy[idx];
            out.push(SyncData { md5: rc.md5.clone(), create_time: rc.create_time });
            proof {
                assert(out@.map_values(back) =~= out@.drop_last().map_values(back).push(
                    back(out@.last()),
                ));
                assert(copy@.take(idx as int + 1).drop_last() =~= copy@.take(idx as int));
                assert(back(out@.last()) == copy@[idx as int]);
                assert(out@.map_values(back) =~= copy@.take(idx as int + 1));
            }
            idx += 1;
        }
        proof {
            assert(copy@.take(copy@.len() as int) =~= copy@);
            assert(out@.map_values(back) =~= copy@);
        }
        out
    }

    /// Apply a peer's Add announcement: reject an empty payload, otherwise
    /// insert-if-fresher.  The returned flag says whether the index changed,
    /// and with it whether the mutation is fanned out further.
    pub fn add(&mut self, data: Option<SyncData>) -> (r: Result<bool, SyncStatus>)
        requires
            old(self).wf(),
        ensures
            final(self).wf(),
            final(self).syncer == old(self).syncer,
            match r {
                Err(e) => data is None && (e matches SyncStatus::InvalidArgument(_))
                    && final(self).store == old(self).store,
                Ok(fanned) => (data matches Some(d) && final(self).store@ == lww_insert(
                    old(self).store@,
                    fingerprint_of(d),
                ) && fanned == needs_pull(old(self).store@, fingerprint_of(d))),
            },
    {
        match data {
            None => Err(SyncStatus::InvalidArgument("Request is empty".to_owned())),
            Some(d) => {
                let rc = RecordCache { md5: d.md5, create_time: d.create_time };
                Ok(self.store.add(rc))
            },
        }
    }

    /// Apply a peer's Remove announcement: reject an empty payload;
    /// otherwise remove the record by hash whenever one is present.  The
    /// returned flag says whether a removal happened, and with it whether
    /// the mutation is fanned out further.
    pub fn remove(&mut self, data: Option<SyncData>) -> (r: Result<bool, SyncStatus>)
        requires
            old(self).wf(),
        ensures
            final(self).wf(),
            final(self).syncer == old(self).syncer,
            match r {
                Err(e) => data is None && (e matches SyncStatus::InvalidArgument(_))
                    && final(self).store == old(self).store,
                Ok(removed) => (data matches Some(d)
                    && final(self).store@ == old(self).store@.remove(d.md5@)
                    && removed == old(self).store@.dom().contains(d.md5@)),
            },
    {
        match data {
            None => Err(SyncStatus::InvalidArgument("Request is empty".to_owned())),
            Some(d) => {
                let rc = RecordCache { md5: d.md5, create_time: d.create_time };
                Ok(self.store.remove(&rc))
            },
        }
    }

    /// Handle a Register call: reject a malformed or loopback address;
    /// otherwise remember the caller as a peer and answer with the current
    /// snapshot.  The returned flag says whether the peer is new — only
    /// then is a reconciliation pull scheduled against it.
    pub fn register(&mut self, connect_addr: String) -> (r: Result<(Vec<SyncData>, bool), SyncStatus>)
        requires
            old(self).wf(),
        ensures
            final(self).wf(),
            final(self).store == old(self).store,
            match r {
                Err(e) => !spec_check_address(connect_addr@) && (e matches
                    SyncStatus::InvalidArgument(_)) && final(self).syncer == old(self).syncer,
                Ok(pair) => spec_check_address(connect_addr@)
                    && final(self).syncer@ == old(self).syncer@.insert(connect_addr@)
                    && pair.1 == !old(self).syncer@.contains(connect_addr@)
                    && snapshot_matches(pair.0@, old(self).store@),
            },
    {
        if !check_address(connect_addr.as_str()) {
            let mut msg = "Invalid address: ".to_owned();
            msg.append(connect_addr.as_str());
            return Err(SyncStatus::InvalidArgument(msg));
        }
        let newly = self.syncer.add_client(connect_addr);
        let snapshot = self.list();
        Ok((snapshot, newly))
    }

    /// Shape the reply of a SyncData (backfill) call from the records the
    /// storage collaborator found: every record whose origin address still
    /// reads as loopback is rewritten to this node's externally visible
    /// address, so a peer never learns "localhost" as an origin.
    pub fn sync_data(&self, records: Vec<SyncRecord>, local_addr: &str) -> (r: Vec<SyncRecord>)
        ensures
            r@.len() == records@.len(),
            forall|i: int| 0 <= i < records@.len() ==> rewritten(
                #[trigger] r@[i],
                records@[i],
                local_addr@,
            ),
    {
        let loopback = LOCALHOST.to_owned();
        let mut out: Vec<SyncRecord> = Vec::new();
        let mut idx: usize = 0;
        while idx < records.len()
            invariant
                idx <= records@.len(),
                out@.len() == idx,
                loopback@ == LOCALHOST@,
                forall|i: int| 0 <= i < idx ==> rewritten(#[trigger] out@[i], records@[i], local_addr@),
            decreases records@.len() - idx,
        {
            let rec = &records[idx];
            let mut shaped = rec.duplicate();
            if shaped.latest_addr == loopback {
                shaped.latest_addr = local_addr.to_owned();
            }
            out.push(shaped);
            idx += 1;
        }
        out
    }
}

/// `out` is `orig` with its origin address rewritten to `local` exactly when
/// the stored origin was the loopback address; all other fields carry over.
pub open spec fn rewritten(out: SyncRecord, orig: SyncRecord, local: Seq<char>) -> bool {
    &&& out.md5 == orig.md5
    &&& out.create_time == orig.create_time
    &&& out.content == orig.content
    &&& out.content_preview == orig.content_preview
    &&& out.data_type == orig.data_type
    &&& out.is_favorite == orig.is_favorite
    &&& out.tags == orig.tags
    &&& out.latest_addr@ == (if orig.latest_addr@ == LOCALHOST@ {
        local
    } else {
        orig.latest_addr@
    })
}

} // verus!
