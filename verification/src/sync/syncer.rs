use vstd::prelude::*;

use crate::consts::PONG;
use crate::models::record_cache::RecordCache;
use crate::sync_proto::SyncData;

verus! {

/// No two registered addresses read the same.
pub open spec fn distinct_addrs(s: Seq<String>) -> bool {
    forall|i: int, j: int| 0 <= i < j < s.len() ==> s[i]@ != s[j]@
}

/// The set of addresses a sequence of peers denotes.
pub open spec fn addr_set(s: Seq<String>) -> Set<Seq<char>>
    decreases s.len(),
{
    if s.len() == 0 {
        Set::empty()
    } else {
        addr_set(s.drop_last()).insert(s.last()@)
    }
}

proof fn lemma_addr_set_contains(s: Seq<String>, k: Seq<char>)
    ensures
        addr_set(s).contains(k) <==> exists|i: int| 0 <= i < s.len() && s[i]@ == k,
    decreases s.len(),
{
    if s.len() > 0 {
        lemma_addr_set_contains(s.drop_last(), k);
        if addr_set(s).contains(k) && s.last()@ != k {
            let i = choose|i: int| 0 <= i < s.drop_last().len() && s.drop_last()[i]@ == k;
            assert(s[i]@ == k);
        }
        if exists|i: int| 0 <= i < s.len() && s[i]@ == k {
            let i = choose|i: int| 0 <= i < s.len() && s[i]@ == k;
            if i < s.len() - 1 {
                assert(s.drop_last()[i]@ == k);
            }
        }
    }
}

/// Registry of the peer addresses this node currently syncs with, and the
/// planning half of fan-out: which peers a mutation is delivered to.  The
/// network calls themselves happen outside this crate and report back as
/// plain values.
#[derive(Debug)]
pub struct Syncer {
    clients: Vec<String>,
}

/// The two mutations a fan-out round can broadcast.
#[derive(Debug)]
pub enum SyncOptEnum {
    Add,
    Remove,
}

/// One peer just probed for liveness: its address, and the reply it gave —
/// `None` when the connection or the call itself failed.
#[derive(Debug)]
pub struct PeerProbe {
    pub addr: String,
    pub reply: Option<String>,
}

/// The probe found a healthy peer: it answered with the liveness literal.
pub open spec fn probe_healthy(p: PeerProbe) -> bool {
    p.reply matches Some(m) && m@ == PONG@
}

/// Outcome of planning one fan-out round: the peers to deliver the mutation
/// to, and the peers found unreachable this round (they are only reported,
/// never dropped from the registry).
#[derive(Debug)]
pub struct FanOutPlan {
    pub deliver: Vec<String>,
    pub disconnected: Vec<String>,
}

impl View for Syncer {
    type V = Set<Seq<char>>;

    closed spec fn view(&self) -> Set<Seq<char>> {
        addr_set(self.clients@)
    }
}

impl Syncer {
    /// The registry holds each address once.
    pub closed spec fn wf(self) -> bool {
        distinct_addrs(self.clients@)
    }

    /// Fresh, empty registry.
    pub fn new() -> (r: Self)
        ensures
            r.wf(),
            r@ == Set::<Seq<char>>::empty(),
    {
        Syncer { clients: Vec::new() }
    }

    fn index_of(&self, addr: &String) -> (r: Option<usize>)
        ensures
            match r {
                Some(i) => 0 <= i < self.clients@.len() && self.clients@[i as int]@ == addr@,
                None => forall|i: int| 0 <= i < self.clients@.len() ==> self.clients@[i]@ != addr@,
            },
    {
        let mut idx: usize = 0;
        while idx < self.clients.len()
            invariant
                idx <= self.clients@.len(),
                forall|i: int| 0 <= i < idx ==> self.clients@[i]@ != addr@,
            decreases self.clients@.len() - idx,
        {
            if self.clients[idx] == *addr {
                return Some(idx);
            }
            idx += 1;
        }
        None
    }

    /// Whether `addr` is already registered as a sync partner.
    pub fn check_client_exist(&self, addr: &str) -> (r: bool)
        requires
            self.wf(),
        ensures
            r == self@.contains(addr@),
    {
        proof {
            lemma_addr_set_contains(self.clients@, addr@);
        }
        let key = addr.to_owned();
        self.index_of(&key).is_some()
    }

    /// Register `addr` as a sync partner; a no-op when it is already
    /// registered.  Reports whether the peer is new — only then does the
    /// caller schedule a reconciliation pull against it.
    pub fn add_client(&mut self, addr: String) -> (r: bool)
        requires
            old(self).wf(),
        ensures
            final(self).wf(),
            final(self)@ == old(self)@.insert(addr@),
            r == !old(self)@.contains(addr@),
    {
        proof {
            lemma_addr_set_contains(self.clients@, addr@);
        }
        match self.index_of(&addr) {
            Some(_) => {
                proof {
                    assert(self@.insert(addr@) =~= self@);
                }
                false
            },
            None => {
                let ghost s0 = self.clients@;
                self.clients.push(addr);
                proof {
                    assert(self.clients@.drop_last() =~= s0);
                }
                true
            },
        }
    }

    /// Snapshot of the registered addresses, taken before a fan-out round so
    /// that no lock is held while peers are contacted.
    pub fn client_list(&self) -> (r: Vec<String>)
        requires
            self.wf(),
        ensures
            distinct_addrs(r@),
            addr_set(r@) == self@,
    {
        let mut out: Vec<String> = Vec::new();
        let mut idx: usize = 0;
        while idx < self.clients.len()
            invariant
                idx <= self.clients@.len(),
                out@ =~= self.clients@.take(idx as int),
            decreases self.clients@.len() - idx,
        {
            out.push(self.clients[idx].clone());
            idx += 1;
        }
        proof {
            assert(out@ =~= self.clients@);
        }
        out
    }

    /// Decide one fan-out round from the probe results: deliver the mutation
    /// to exactly the peers that answered the liveness probe correctly, and
    /// report the rest as unreachable for this round.
    pub fn plan_fan_out(probes: &Vec<PeerProbe>) -> (r: FanOutPlan)
        ensures
            r.deliver@ == probes@.filter(|p: PeerProbe| probe_healthy(p)).map_values(
                |p: PeerProbe| p.addr,
            ),
            r.disconnected@ == probes@.filter(|p: PeerProbe| !probe_healthy(p)).map_values(
                |p: PeerProbe| p.addr,
            ),
    {
        let ghost healthy = |p: PeerProbe| probe_healthy(p);
        let ghost unhealthy = |p: PeerProbe| !probe_healthy(p);
        let ghost addr_of = |p: PeerProbe| p.addr;
        let mut deliver: Vec<String> = Vec::new();
        let mut disconnected: Vec<String> = Vec::new();
        let mut idx: usize = 0;
        proof {
            reveal(Seq::filter);
            assert(probes@.take(0).filter(healthy) =~= Seq::<PeerProbe>::empty());
            assert(probes@.take(0).filter(unhealthy) =~= Seq::<PeerProbe>::empty());
        }
        while idx < probes.len()
            invariant
                idx <= probes@.len(),
                healthy == (|p: PeerProbe| probe_healthy(p)),
                unhealthy == (|p: PeerProbe| !probe_healthy(p)),
                addr_of == (|p: PeerProbe| p.addr),
                deliver@ == probes@.take(idx as int).filter(healthy).map_values(addr_of),
                disconnected@ == probes@.take(idx as int).filter(unhealthy).map_values(addr_of),
            decreases probes@.len() - idx,
        {
            let probe = &probes[idx];
            let is_healthy = match &probe.reply {
                Some(msg) => check_health(msg.as_str()),
                None => false,
            };
            if is_healthy {
                deliver.push(probe.addr.clone());
            } else {
                disconnected.push(probe.addr.clone());
            }
            proof {
                reveal(Seq::filter);
                let t0 = probes@.take(idx as int);
                let t1 = probes@.take(idx as int + 1);
                assert(t1.drop_last() =~= t0);
                assert(t1.last() == probes@[idx as int]);
                assert(t0.filter(healthy).push(probes@[idx as int]).map_values(addr_of)
                    =~= t0.filter(healthy).map_values(addr_of).push(probes@[idx as int].addr));
                assert(t0.filter(unhealthy).push(probes@[idx as int]).map_values(addr_of)
                    =~= t0.filter(unhealthy).map_values(addr_of).push(probes@[idx as int].addr));
            }
            idx += 1;
        }
        proof {
            assert(probes@.take(probes@.len() as int) =~= probes@);
        }
        FanOutPlan { deliver, disconnected }
    }
}

/// Decide the liveness check of a fan-out round: a peer is healthy exactly
/// when its reply is the expected literal.
pub fn check_health(reply: &str) -> (r: bool)
    ensures
        r == (reply@ == PONG@),
{
    let actual = reply.to_owned();
    let expected = PONG.to_owned();
    actual == expected
}

/// Convert a wire snapshot into index fingerprints, in order.
pub fn to_record_caches(data: &Vec<SyncData>) -> (r: Vec<RecordCache>)
    ensures
        r@ == data@.map_values(
            |d: SyncData| (RecordCache { md5: d.md5, create_time: d.create_time }),
        ),
{
    let ghost conv = |d: SyncData| (RecordCache { md5: d.md5, create_time: d.create_time });
    let mut out: Vec<RecordCache> = Vec::new();
    let mut idx: usize = 0;
    while idx < data.len()
        invariant
            idx <= data@.len(),
            conv == (|d: SyncData| (RecordCache { md5: d.md5, create_time: d.create_time })),
            out@ =~= data@.take(idx as int).map_values(conv),
        decreases data@.len() - idx,
    {
        let d = &data[idx];
        out.push(RecordCache { md5: d.md5.clone(), create_time: d.create_time });
        proof {
            assert(data@.take(idx as int + 1).map_values(conv) =~= data@.take(
                idx as int,
            ).map_values(conv).push(conv(data@[idx as int])));
        }
        idx += 1;
    }
    proof {
        assert(data@.take(data@.len() as int) =~= data@);
    }
    out
}

/// The content hashes of a computed diff, in order: exactly what the node
/// requests from the peer in the backfill pull.
pub fn md5_list(diff: &Vec<RecordCache>) -> (r: Vec<String>)
    ensures
        r@ == diff@.map_values(|rc: RecordCache| rc.md5),
{
    let ghost key_of = |rc: RecordCache| rc.md5;
    let mut out: Vec<String> = Vec::new();
    let mut idx: usize = 0;
    while idx < diff.len()
        invariant
            idx <= diff@.len(),
            key_of == (|rc: RecordCache| rc.md5),
            out@ =~= diff@.take(idx as int).map_values(key_of),
        decreases diff@.len() - idx,
    {
        out.push(diff[idx].md5.clone());
        proof {
            assert(diff@.take(idx as int + 1).map_values(key_of) =~= diff@.take(
                idx as int,
            ).map_values(key_of).push(key_of(diff@[idx as int])));
        }
        idx += 1;
    }
    proof {
        assert(diff@.take(diff@.len() as int) =~= diff@);
    }
    out
}

} // verus!
