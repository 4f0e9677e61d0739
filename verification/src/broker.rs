//! The in-process broadcast fabric: a fixed array of shards, each a
//! bounded ring of events, so one busy organization cannot evict
//! another's events. Subscribers read one shard and filter by
//! organization; a full shard evicts its oldest event and laggards learn
//! how much they missed.

use vstd::prelude::*;
use vstd::string::StringSliceAdditionalSpecFns;

use crate::event::ActivityEvent;

verus! {

/// FNV-1a offset basis.
pub const FNV_OFFSET_BASIS: u64 = 0xcbf29ce484222325;

/// FNV-1a prime.
pub const FNV_PRIME: u64 = 0x100000001b3;

/// One FNV-1a step: fold a byte into the accumulator.
pub open spec fn fnv1a_step(h: u64, b: u8) -> u64 {
    vstd::wrapping::u64_specs::wrapping_mul(h ^ (b as u64), FNV_PRIME)
}

/// The shard hash of an organization id: FNV-1a over its UTF-8 bytes.
pub open spec fn org_hash(org: String) -> u64 {
    fnv1a_hash(vstd::utf8::encode_utf8(org@))
}

/// FNV-1a over a byte string.
pub open spec fn fnv1a_hash(bytes: Seq<u8>) -> u64
    decreases bytes.len(),
{
    if bytes.len() == 0 {
        FNV_OFFSET_BASIS
    } else {
        fnv1a_step(fnv1a_hash(bytes.drop_last()), bytes.last())
    }
}

/// Hashes an organization id to a stable 64-bit value.
pub fn hash_organization_id(organization_id: &String) -> (r: u64)
    ensures
        r == org_hash(*organization_id),
{
    let bytes = organization_id.as_str().as_bytes();
    let n = bytes.len();
    let mut h: u64 = FNV_OFFSET_BASIS;
    let mut k: usize = 0;
    while k < n
        invariant
            n == bytes@.len(),
            0 <= k <= n,
            h == fnv1a_hash(bytes@.subrange(0, k as int)),
        decreases n - k,
    {
        proof {
            let sub1 = bytes@.subrange(0, k as int + 1);
            assert(sub1.drop_last() =~= bytes@.subrange(0, k as int));
            assert(sub1.last() == bytes@[k as int]);
        }
        h = (h ^ (bytes[k] as u64)).wrapping_mul(FNV_PRIME);
        k += 1;
    }
    proof {
        assert(bytes@.subrange(0, n as int) =~= bytes@);
    }
    h
}

/// One shard: a bounded ring of events. `dropped` counts the events
/// evicted so far, so the buffer holds absolute positions
/// `dropped .. dropped + buffer.len()`.
pub struct Shard {
    pub dropped: u64,
    pub buffer: Vec<ActivityEvent>,
}

/// A subscriber's handle: its shard, the absolute position of the next
/// event to read, and the organization it filters for.
pub struct Subscription {
    pub shard: usize,
    pub pos: u64,
    pub organization_id: String,
}

/// What one receive attempt yields.
pub enum RecvOutcome {
    /// No further event for this organization is buffered yet.
    Pending,
    /// The shard evicted this many events the subscriber had not read;
    /// the position snaps to the oldest retained event.
    Lagged(u64),
    /// The next buffered event of the subscriber's organization.
    Event(ActivityEvent),
}

/// The buffer index of the first event at or past `from` that belongs to
/// the organization; the buffer length when there is none.
pub open spec fn first_match_from(buf: Seq<ActivityEvent>, org: Seq<char>, from: int) -> int
    decreases buf.len() - from,
{
    if from < 0 || from >= buf.len() {
        buf.len() as int
    } else if buf[from].organization_id@ == org {
        from
    } else {
        first_match_from(buf, org, from + 1)
    }
}

/// The sharded broadcast fabric.
pub struct ActivityBroker {
    pub shards: Vec<Shard>,
    pub capacity: usize,
}

impl ActivityBroker {
    /// At least one shard; every buffer bounded by the capacity; no
    /// position counter near overflow.
    pub open spec fn wf(self) -> bool {
        &&& self.shards@.len() >= 1
        &&& self.capacity >= 1
        &&& forall|s: int|
            0 <= s < self.shards@.len() ==> (#[trigger] self.shards@[s]).buffer@.len()
                <= self.capacity
        &&& forall|s: int|
            0 <= s < self.shards@.len() ==> (#[trigger] self.shards@[s]).dropped
                + self.shards@[s].buffer@.len() < u64::MAX
    }

    /// Builds the fabric with the given shard count and per-shard
    /// capacity, each clamped to at least 1.
    pub fn new(shard_count: usize, shard_capacity: usize) -> (r: Self)
        ensures
            r.wf(),
            r.shards@.len() == if shard_count < 1 {
                1int
            } else {
                shard_count as int
            },
            r.capacity == if shard_capacity < 1 {
                1int
            } else {
                shard_capacity as int
            },
            forall|s: int|
                0 <= s < r.shards@.len() ==> (#[trigger] r.shards@[s]).dropped == 0
                    && r.shards@[s].buffer@.len() == 0,
    {
        let shard_count = if shard_count < 1 {
            1
        } else {
            shard_count
        };
        let shard_capacity = if shard_capacity < 1 {
            1
        } else {
            shard_capacity
        };
        let mut shards: Vec<Shard> = Vec::new();
        let mut k: usize = 0;
        while k < shard_count
            invariant
                0 <= k <= shard_count,
                shards@.len() == k,
                forall|s: int|
                    0 <= s < k ==> (#[trigger] shards@[s]).dropped == 0 && shards@[s].buffer@.len()
                        == 0,
            decreases shard_count - k,
        {
            shards.push(Shard { dropped: 0, buffer: Vec::new() });
            k += 1;
        }
        ActivityBroker { shards, capacity: shard_capacity }
    }

    /// The shard an organization maps to.
    pub fn shard_index(&self, organization_id: &String) -> (r: usize)
        requires
            self.wf(),
        ensures
            r < self.shards@.len(),
            r as int == org_hash(*organization_id) as int % (self.shards@.len() as int),
    {
        let h = hash_organization_id(organization_id);
        (h % (self.shards.len() as u64)) as usize
    }

    /// Subscribes to an organization's shard: a hot stream, positioned
    /// after everything already published.
    pub fn subscribe(&self, organization_id: String) -> (r: Subscription)
        requires
            self.wf(),
        ensures
            r.shard < self.shards@.len(),
            r.shard as int == org_hash(organization_id) as int % (self.shards@.len() as int),
            r.pos == self.shards@[r.shard as int].dropped
                + self.shards@[r.shard as int].buffer@.len(),
            r.organization_id == organization_id,
    {
        let index = self.shard_index(&organization_id);
        let shard = &self.shards[index];
        Subscription {
            shard: index,
            pos: shard.dropped + (shard.buffer.len() as u64),
            organization_id,
        }
    }

    /// Publishes an event to its organization's shard without blocking:
    /// a full shard evicts its oldest event.
    pub fn publish(&mut self, event: ActivityEvent)
        requires
            old(self).wf(),
            forall|s: int|
                0 <= s < old(self).shards@.len() ==> (#[trigger] old(self).shards@[s]).dropped
                    + old(self).shards@[s].buffer@.len() + 1 < u64::MAX,
        ensures
            final(self).wf(),
            final(self).capacity == old(self).capacity,
            final(self).shards@.len() == old(self).shards@.len(),
            ({
                let s = org_hash(event.organization_id) as int % (old(self).shards@.len() as int);
                let before = old(self).shards@[s];
                let after = final(self).shards@[s];
                &&& (forall|t: int|
                    0 <= t < old(self).shards@.len() && t != s ==> final(self).shards@[t] == old(
                        self,
                    ).shards@[t])
                &&& (before.buffer@.len() < old(self).capacity ==> after.buffer@ ==
                    before.buffer@.push(event) && after.dropped == before.dropped)
                &&& (before.buffer@.len() >= old(self).capacity ==> after.buffer@ ==
                    before.buffer@.push(event).drop_first() && after.dropped == before.dropped
                    + 1)
            }),
    {
        let ghost prev = *self;
        let ghost e = event;
        let index = self.shard_index(&event.organization_id);
        let shard = &mut self.shards[index];
        shard.buffer.push(event);
        if shard.buffer.len() > self.capacity {
            shard.buffer.remove(0);
            shard.dropped = shard.dropped + 1;
        }
        proof {
            let before = prev.shards@[index as int];
            let after = self.shards@[index as int];
            assert(self.shards@ == prev.shards@.update(index as int, after));
            if before.buffer@.len() < prev.capacity {
                assert(after.buffer@ == before.buffer@.push(e));
            } else {
                assert(after.buffer@ =~= before.buffer@.push(e).drop_first());
            }
            assert forall|t: int| 0 <= t < self.shards@.len() implies (
            #[trigger] self.shards@[t]).buffer@.len() <= self.capacity && self.shards@[t].dropped
                + self.shards@[t].buffer@.len() < u64::MAX by {
                if t != index as int {
                    assert(self.shards@[t] == prev.shards@[t]);
                }
            }
        }
    }

    /// One receive attempt for a subscriber: a position behind the
    /// shard's oldest retained event reports how many events were
    /// dropped; otherwise the next event of the subscriber's
    /// organization is returned, skipping other organizations' events;
    /// `Pending` when the shard holds nothing further for it.
    pub fn recv(&self, sub: &mut Subscription) -> (r: RecvOutcome)
        requires
            self.wf(),
            old(sub).shard < self.shards@.len(),
            old(sub).pos <= self.shards@[old(sub).shard as int].dropped + self.shards@[
                old(sub).shard as int
            ].buffer@.len(),
        ensures
            final(sub).shard == old(sub).shard,
            final(sub).organization_id == old(sub).organization_id,
            final(sub).pos <= self.shards@[old(sub).shard as int].dropped + self.shards@[
                old(sub).shard as int
            ].buffer@.len(),
            ({
                let shard = self.shards@[old(sub).shard as int];
                let end = shard.dropped + shard.buffer@.len();
                &&& (old(sub).pos < shard.dropped ==> (r matches RecvOutcome::Lagged(n) && n
                    == shard.dropped - old(sub).pos) && final(sub).pos == shard.dropped)
                &&& (old(sub).pos >= shard.dropped ==> {
                    let from = old(sub).pos - shard.dropped;
                    let fm = first_match_from(
                        shard.buffer@,
                        old(sub).organization_id@,
                        from as int,
                    );
                    &&& (fm < shard.buffer@.len() ==> (r matches RecvOutcome::Event(e) && e
                        == shard.buffer@[fm]) && final(sub).pos == shard.dropped + fm + 1)
                    &&& (fm >= shard.buffer@.len() ==> r is Pending && final(sub).pos == end)
                })
            }),
            r matches RecvOutcome::Event(e) ==> e.organization_id@ == old(sub).organization_id@,
    {
        let shard = &self.shards[sub.shard];
        if sub.pos < shard.dropped {
            let n = shard.dropped - sub.pos;
            sub.pos = shard.dropped;
            return RecvOutcome::Lagged(n);
        }
        let len = shard.buffer.len();
        let mut k: usize = (sub.pos - shard.dropped) as usize;
        let ghost from0 = sub.pos - shard.dropped;
        while k < len
            invariant
                self.wf(),
                sub.shard == old(sub).shard,
                sub.organization_id == old(sub).organization_id,
                sub.pos == old(sub).pos,
                sub.shard < self.shards@.len(),
                shard == &self.shards@[sub.shard as int],
                len == shard.buffer@.len(),
                old(sub).pos >= shard.dropped,
                from0 == old(sub).pos - shard.dropped,
                0 <= from0 <= k <= len,
                first_match_from(shard.buffer@, sub.organization_id@, from0 as int)
                    == first_match_from(shard.buffer@, sub.organization_id@, k as int),
            decreases len - k,
        {
            let e = &shard.buffer[k];
            if e.organization_id == sub.organization_id {
                sub.pos = shard.dropped + (k as u64) + 1;
                proof {
                    assert(shard.buffer@[k as int].organization_id@ == sub.organization_id@);
                    assert(first_match_from(shard.buffer@, sub.organization_id@, k as int)
                        == k as int);
                }
                return RecvOutcome::Event(e.dup());
            }
            k += 1;
        }
        sub.pos = shard.dropped + (len as u64);
        RecvOutcome::Pending
    }
}



/// The eviction count of one shard after a run of publishes, starting
/// empty: each publish follows the same step the `publish` contract
/// fixes — the buffer grows until the capacity is reached, after which
/// every further publish evicts exactly one event.
pub open spec fn backlog_dropped(published: nat, capacity: nat) -> nat
    decreases published,
{
    if published == 0 {
        0
    } else if (published - 1) as nat >= capacity {
        backlog_dropped((published - 1) as nat, capacity) + 1
    } else {
        backlog_dropped((published - 1) as nat, capacity)
    }
}

/// Broker lag over a whole backlog run: publishing `published` events
/// into an empty shard of the given capacity evicts exactly
/// `published - capacity` of them (none while the ring still has room),
/// so a subscriber still at the start is `published - capacity` behind
/// the oldest retained event — the count `recv` reports as `Lagged`.
pub proof fn lemma_backlog_drop_count(published: nat, capacity: nat)
    requires
        capacity >= 1,
    ensures
        published <= capacity ==> backlog_dropped(published, capacity) == 0,
        published > capacity ==> backlog_dropped(published, capacity) == published - capacity,
    decreases published,
{
    if published > 0 {
        lemma_backlog_drop_count((published - 1) as nat, capacity);
    }
}

impl Default for ActivityBroker {
    /// The default fabric: 16 shards of 512 events each.
    fn default() -> (r: Self)
        ensures
            r.wf(),
            r.shards@.len() == 16,
            r.capacity == 512,
    {
        ActivityBroker::new(16, 512)
    }
}

} // verus!
