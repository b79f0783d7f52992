use rand::Rng;
use vstd::prelude::*;

verus! {

/// One cached pre-authentication credential: an opaque key, the
/// credential string, and the moment it entered the cache.
pub struct PreauthEntry {
    pub key: String,
    pub value: String,
    pub inserted_at: u64,
}

/// An entry is live at `now` while less than the time-to-live has
/// passed since it was inserted; afterwards it is expired and invisible
/// to every operation.
pub open spec fn entry_live(e: PreauthEntry, ttl_secs: u64, now: u64) -> bool {
    now < e.inserted_at + ttl_secs
}

/// The live entries of a sequence, in order.
pub open spec fn live_filter(s: Seq<PreauthEntry>, ttl_secs: u64, now: u64) -> Seq<PreauthEntry> {
    s.filter(|e: PreauthEntry| entry_live(e, ttl_secs, now))
}

/// The credential the cache holds for a key at `now`: the value of the
/// newest live entry with that key, if any.
pub open spec fn seq_lookup(s: Seq<PreauthEntry>, k: Seq<char>, ttl_secs: u64, now: u64) -> Option<
    Seq<char>,
>
    decreases s.len(),
{
    if s.len() == 0 {
        None
    } else if entry_live(s.last(), ttl_secs, now) && s.last().key@ == k {
        Some(s.last().value@)
    } else {
        seq_lookup(s.drop_last(), k, ttl_secs, now)
    }
}

/// Whether some entry of `s` carries the key `k`, live or not.
pub open spec fn seq_has_key(s: Seq<PreauthEntry>, k: Seq<char>) -> bool {
    exists|i: int| 0 <= i < s.len() && (#[trigger] s[i]).key@ == k
}

/// What insert-if-absent leaves in the cache: the live entries of `s`,
/// untouched if one of them already carries the key, extended by the new
/// entry otherwise — evicting the oldest survivor if the cache is full.
pub open spec fn spec_push_entries(
    s: Seq<PreauthEntry>,
    e: PreauthEntry,
    cap: usize,
    k: Seq<char>,
    ttl_secs: u64,
    now: u64,
) -> Seq<PreauthEntry> {
    let purged = live_filter(s, ttl_secs, now);
    if seq_has_key(purged, k) {
        purged
    } else if purged.len() >= cap {
        purged.remove(0).push(e)
    } else {
        purged.push(e)
    }
}

/// The bounded, time-to-live cache of pre-authentication credentials.
/// Capacity and time-to-live are fixed at construction; expiry is
/// enforced lazily, at access time.
pub struct PreauthCache {
    pub entries: Vec<PreauthEntry>,
    pub capacity: usize,
    pub ttl_secs: u64,
}

impl PreauthCache {
    pub open spec fn wf(self) -> bool {
        &&& self.entries@.len() <= self.capacity
        &&& self.capacity > 0
        &&& self.ttl_secs > 0
    }

    pub open spec fn lookup(self, k: Seq<char>, now: u64) -> Option<Seq<char>> {
        seq_lookup(self.entries@, k, self.ttl_secs, now)
    }

    pub open spec fn has_live_key(self, k: Seq<char>, now: u64) -> bool {
        exists|i: int|
            0 <= i < self.entries@.len() && entry_live(
                #[trigger] self.entries@[i],
                self.ttl_secs,
                now,
            ) && self.entries@[i].key@ == k
    }

    pub open spec fn has_live(self, now: u64) -> bool {
        exists|i: int|
            0 <= i < self.entries@.len() && entry_live(
                #[trigger] self.entries@[i],
                self.ttl_secs,
                now,
            )
    }

    pub open spec fn has_live_value(self, v: Seq<char>, now: u64) -> bool {
        exists|i: int|
            0 <= i < self.entries@.len() && entry_live(
                #[trigger] self.entries@[i],
                self.ttl_secs,
                now,
            ) && self.entries@[i].value@ == v
    }

    pub fn new(capacity: usize, ttl_secs: u64) -> (r: PreauthCache)
        requires
            capacity > 0,
            ttl_secs > 0,
        ensures
            r.wf(),
            r.entries@.len() == 0,
            r.capacity == capacity,
            r.ttl_secs == ttl_secs,
    {
        PreauthCache { entries: Vec::new(), capacity, ttl_secs }
    }

    /// Drop every expired entry, keeping the live ones in order.
    fn purge(&mut self, now: u64)
        requires
            old(self).wf(),
        ensures
            final(self).wf(),
            final(self).capacity == old(self).capacity,
            final(self).ttl_secs == old(self).ttl_secs,
            final(self).entries@ == live_filter(old(self).entries@, old(self).ttl_secs, now),
    {
        broadcast use vstd::seq_lib::group_filter_ensures;

        let mut kept: Vec<PreauthEntry> = Vec::new();
        let mut i: usize = 0;
        while i < self.entries.len()
            invariant
                *self == *old(self),
                old(self).wf(),
                i <= self.entries@.len(),
                kept@ == live_filter(
                    old(self).entries@.take(i as int),
                    old(self).ttl_secs,
                    now,
                ),
            decreases self.entries@.len() - i,
        {
            let e = &self.entries[i];
            if is_live(e, self.ttl_secs, now) {
                kept.push(clone_entry(e));
            }
            proof {
                reveal(Seq::filter);
                let s = old(self).entries@;
                assert(s.take(i as int + 1).drop_last() =~= s.take(i as int));
                assert(s.take(i as int + 1).last() == s[i as int]);
            }
            i += 1;
        }
        proof {
            assert(old(self).entries@.take(self.entries@.len() as int) =~= old(self).entries@);
        }
        self.entries = kept;
    }

    /// Insert-if-absent. If an unexpired entry for the key exists it is
    /// left untouched and the new value is discarded; otherwise the new
    /// credential is recorded at `now`, evicting the oldest surviving
    /// entry if the cache is full. Expired entries are purged on the way.
    pub fn push(&mut self, key: String, value: String, now: u64)
        requires
            old(self).wf(),
        ensures
            final(self).wf(),
            final(self).capacity == old(self).capacity,
            final(self).ttl_secs == old(self).ttl_secs,
            final(self).entries@ == spec_push_entries(
                old(self).entries@,
                (PreauthEntry { key: key, value: value, inserted_at: now }),
                old(self).capacity,
                key@,
                old(self).ttl_secs,
                now,
            ),
            old(self).lookup(key@, now) matches Some(v0) ==> final(self).lookup(key@, now)
                == Some(v0),
            !old(self).has_live_key(key@, now) ==> final(self).lookup(key@, now) == Some(value@),
            forall|i: int|
                0 <= i < final(self).entries@.len() ==> entry_live(
                    #[trigger] final(self).entries@[i],
                    old(self).ttl_secs,
                    now,
                ) && (old(self).entries@.contains(final(self).entries@[i])
                    || final(self).entries@[i]
                    == (PreauthEntry { key: key, value: value, inserted_at: now })),
    {
        broadcast use vstd::seq_lib::group_filter_ensures;

        let ghost pre = *old(self);
        let ghost live_pred = |e: PreauthEntry| entry_live(e, pre.ttl_secs, now);
        self.purge(now);
        let ghost purged = self.entries@;
        proof {
            lemma_lookup_filter(pre.entries@, key@, pre.ttl_secs, now);
            lemma_filter_is_subset(pre.entries@, live_pred);
        }
        let mut i: usize = 0;
        let mut found = false;
        while i < self.entries.len()
            invariant
                self.entries@ == purged,
                self.capacity == pre.capacity,
                self.ttl_secs == pre.ttl_secs,
                i <= purged.len(),
                found ==> exists|j: int| 0 <= j < purged.len() && (#[trigger] purged[j]).key@
                    == key@,
                !found ==> forall|j: int| 0 <= j < i ==> (#[trigger] purged[j]).key@ != key@,
            decreases purged.len() - i,
        {
            if self.entries[i].key.eq(&key) {
                found = true;
            }
            i += 1;
        }
        if found {
            proof {
                let j = choose|j: int| 0 <= j < purged.len() && (#[trigger] purged[j]).key@
                    == key@;
                assert(live_pred(purged[j]));
                assert(pre.entries@.contains(purged[j]));
                assert(!pre.has_live_key(key@, now) ==> false) by {
                    if !pre.has_live_key(key@, now) {
                        let w = choose|w: int|
                            0 <= w < pre.entries@.len() && pre.entries@[w] == purged[j];
                        assert(entry_live(pre.entries@[w], pre.ttl_secs, now));
                    }
                };
            }
            return ;
        }
        proof {
            // no live entry with this key survives in `purged`, so none
            // existed: a live entry of the original would be kept.
            if pre.has_live_key(key@, now) {
                let w = choose|w: int|
                    0 <= w < pre.entries@.len() && entry_live(
                        #[trigger] pre.entries@[w],
                        pre.ttl_secs,
                        now,
                    ) && pre.entries@[w].key@ == key@;
                assert(live_pred(pre.entries@[w]));
                assert(purged.contains(pre.entries@[w]));
            }
            assert(!pre.has_live_key(key@, now));
            lemma_lookup_some_implies_witness(purged, key@, pre.ttl_secs, now);
            assert(seq_lookup(purged, key@, pre.ttl_secs, now) is None) by {
                if seq_lookup(purged, key@, pre.ttl_secs, now) matches Some(v) {
                    assert(false);
                }
            };
        }
        if self.entries.len() >= self.capacity {
            self.entries.remove(0);
        }
        let ghost room = self.entries@;
        self.entries.push(PreauthEntry { key, value, inserted_at: now });
        proof {
            let e = PreauthEntry { key: key, value: value, inserted_at: now };
            assert(self.entries@.last() == e);
            assert(self.entries@.drop_last() =~= room);
            assert(entry_live(e, pre.ttl_secs, now));
            assert(seq_lookup(self.entries@, key@, pre.ttl_secs, now) == Some(value@));
            assert forall|i2: int| 0 <= i2 < self.entries@.len() implies entry_live(
                #[trigger] self.entries@[i2],
                pre.ttl_secs,
                now,
            ) && (pre.entries@.contains(self.entries@[i2]) || self.entries@[i2] == e) by {
                if i2 < self.entries@.len() - 1 {
                    if room.len() < purged.len() {
                        // one entry was evicted from the front
                        assert(room =~= purged.remove(0));
                        assert(self.entries@[i2] == purged[i2 + 1]);
                    } else {
                        assert(self.entries@[i2] == purged[i2]);
                    }
                    assert(live_pred(self.entries@[i2]));
                    assert(pre.entries@.contains(self.entries@[i2]));
                }
            };
        }
    }

    /// True exactly when at least one live entry exists at `now`.
    pub fn has_any(&self, now: u64) -> (r: bool)
        requires
            self.wf(),
        ensures
            r == self.has_live(now),
    {
        let mut i: usize = 0;
        let mut found = false;
        while i < self.entries.len()
            invariant
                self.wf(),
                i <= self.entries@.len(),
                found ==> self.has_live(now),
                !found ==> forall|j: int|
                    0 <= j < i ==> !entry_live(#[trigger] self.entries@[j], self.ttl_secs, now),
            decreases self.entries@.len() - i,
        {
            if is_live(&self.entries[i], self.ttl_secs, now) {
                found = true;
            }
            i += 1;
        }
        found
    }

    /// Select one live entry at random and return a copy of its
    /// credential, removing nothing: the pool is shared, not a queue.
    /// Returns nothing exactly when no live entry exists.
    pub fn pop(&self, now: u64) -> (r: Option<String>)
        requires
            self.wf(),
        ensures
            (r is Some) == self.has_live(now),
            r matches Some(v) ==> self.has_live_value(v@, now),
    {
        let mut live_idx: Vec<usize> = Vec::new();
        let mut i: usize = 0;
        while i < self.entries.len()
            invariant
                self.wf(),
                i <= self.entries@.len(),
                forall|j: int|
                    0 <= j < live_idx@.len() ==> (#[trigger] live_idx@[j]) < self.entries@.len()
                        && entry_live(self.entries@[live_idx@[j] as int], self.ttl_secs, now),
                live_idx@.len() == 0 ==> forall|j: int|
                    0 <= j < i ==> !entry_live(#[trigger] self.entries@[j], self.ttl_secs, now),
            decreases self.entries@.len() - i,
        {
            if is_live(&self.entries[i], self.ttl_secs, now) {
                live_idx.push(i);
            }
            i += 1;
        }
        if live_idx.len() == 0 {
            return None;
        }
        let j = random_below(live_idx.len());
        let idx = live_idx[j];
        proof {
            assert(entry_live(self.entries@[idx as int], self.ttl_secs, now));
        }
        Some(self.entries[idx].value.clone())
    }
}

/// Law: an entry inserted a full time-to-live (or more) before `now` is
/// not live: the `pop` and `has_any` contracts quantify over live
/// entries only, so such an entry is never returned and never counted.
/// If every other entry is expired as well, the cache reports nothing.
pub proof fn lemma_expired_entry_excluded(c: PreauthCache, i: int, now: u64)
    requires
        0 <= i < c.entries@.len(),
        c.entries@[i].inserted_at + c.ttl_secs <= now,
    ensures
        !entry_live(c.entries@[i], c.ttl_secs, now),
        (forall|j: int|
            0 <= j < c.entries@.len() && j != i ==> !entry_live(
                #[trigger] c.entries@[j],
                c.ttl_secs,
                now,
            )) ==> !c.has_live(now),
{
}

/// Law: insert-if-absent is idempotent per key. Pushing (k, v1) into a
/// cache with no live entry for k, then pushing (k, v2) any time before
/// the first entry expires, leaves the credential the cache holds for k
/// equal to v1: the second push never overwrites.
pub proof fn lemma_push_idempotent_per_key(
    c: PreauthCache,
    k: String,
    v1: String,
    v2: String,
    t1: u64,
    t2: u64,
)
    requires
        c.wf(),
        !c.has_live_key(k@, t1),
        t1 <= t2,
        t2 < t1 + c.ttl_secs,
    ensures
        ({
            let e1 = (PreauthEntry { key: k, value: v1, inserted_at: t1 });
            let e2 = (PreauthEntry { key: k, value: v2, inserted_at: t2 });
            let s1 = spec_push_entries(c.entries@, e1, c.capacity, k@, c.ttl_secs, t1);
            let s2 = spec_push_entries(s1, e2, c.capacity, k@, c.ttl_secs, t2);
            seq_lookup(s2, k@, c.ttl_secs, t2) == Some(v1@)
        }),
{
    broadcast use vstd::seq_lib::group_filter_ensures;

    let ttl = c.ttl_secs;
    let e1 = PreauthEntry { key: k, value: v1, inserted_at: t1 };
    let live1 = |e: PreauthEntry| entry_live(e, ttl, t1);
    let purged1 = live_filter(c.entries@, ttl, t1);
    lemma_filter_is_subset(c.entries@, live1);
    assert(!seq_has_key(purged1, k@)) by {
        if seq_has_key(purged1, k@) {
            let i = choose|i: int| 0 <= i < purged1.len() && (#[trigger] purged1[i]).key@ == k@;
            assert(live1(purged1[i]));
            assert(c.entries@.contains(purged1[i]));
            let w = choose|w: int| 0 <= w < c.entries@.len() && c.entries@[w] == purged1[i];
            assert(entry_live(c.entries@[w], ttl, t1));
        }
    };
    let s1 = spec_push_entries(c.entries@, e1, c.capacity, k@, ttl, t1);
    assert(s1.last() == e1);
    assert(entry_live(e1, ttl, t2));
    let purged2 = live_filter(s1, ttl, t2);
    assert(s1[s1.len() - 1] == e1);
    assert(purged2.contains(e1));
    assert(seq_has_key(purged2, k@)) by {
        let j = choose|j: int| 0 <= j < purged2.len() && purged2[j] == e1;
        assert(purged2[j].key@ == k@);
    };
    lemma_lookup_filter(s1, k@, ttl, t2);
    assert(seq_lookup(s1, k@, ttl, t2) == Some(v1@));
}

/// Law: a key whose lookup yields a credential has a live entry holding
/// exactly that key and credential.
pub proof fn lemma_lookup_witness(c: PreauthCache, k: Seq<char>, now: u64)
    ensures
        c.lookup(k, now) matches Some(v) ==> c.has_live_key(k, now) && c.has_live_value(v, now),
{
    lemma_lookup_some_implies_witness(c.entries@, k, c.ttl_secs, now);
}

proof fn lemma_lookup_some_implies_witness(s: Seq<PreauthEntry>, k: Seq<char>, ttl_secs: u64, now: u64)
    ensures
        seq_lookup(s, k, ttl_secs, now) matches Some(v) ==> exists|i: int|
            0 <= i < s.len() && entry_live(#[trigger] s[i], ttl_secs, now) && s[i].key@ == k
                && s[i].value@ == v,
    decreases s.len(),
{
    if s.len() > 0 {
        if entry_live(s.last(), ttl_secs, now) && s.last().key@ == k {
            assert(s[s.len() - 1] == s.last());
        } else {
            lemma_lookup_some_implies_witness(s.drop_last(), k, ttl_secs, now);
            match seq_lookup(s.drop_last(), k, ttl_secs, now) {
                Some(v) => {
                    let i = choose|i: int|
                        0 <= i < s.drop_last().len() && entry_live(
                            #[trigger] s.drop_last()[i],
                            ttl_secs,
                            now,
                        ) && s.drop_last()[i].key@ == k && s.drop_last()[i].value@ == v;
                    assert(s[i] == s.drop_last()[i]);
                },
                None => {},
            }
        }
    }
}

/// Looking a key up ignores expired entries: the lookup of the live
/// entries alone agrees with the lookup of the whole sequence.
proof fn lemma_lookup_filter(s: Seq<PreauthEntry>, k: Seq<char>, ttl_secs: u64, now: u64)
    ensures
        seq_lookup(live_filter(s, ttl_secs, now), k, ttl_secs, now) == seq_lookup(
            s,
            k,
            ttl_secs,
            now,
        ),
    decreases s.len(),
{
    reveal(Seq::filter);
    let pred = |e: PreauthEntry| entry_live(e, ttl_secs, now);
    if s.len() == 0 {
        assert(live_filter(s, ttl_secs, now) =~= s);
    } else {
        lemma_lookup_filter(s.drop_last(), k, ttl_secs, now);
        let f = live_filter(s, ttl_secs, now);
        let fd = live_filter(s.drop_last(), ttl_secs, now);
        if pred(s.last()) {
            assert(f == fd.push(s.last()));
            assert(f.last() == s.last());
            assert(f.drop_last() =~= fd);
        } else {
            assert(f == fd);
        }
    }
}

/// Every entry the live filter keeps comes from the original sequence.
proof fn lemma_filter_is_subset(s: Seq<PreauthEntry>, pred: spec_fn(PreauthEntry) -> bool)
    ensures
        forall|i: int|
            0 <= i < s.filter(pred).len() ==> s.contains(#[trigger] s.filter(pred)[i]),
    decreases s.len(),
{
    reveal(Seq::filter);
    if s.len() > 0 {
        lemma_filter_is_subset(s.drop_last(), pred);
        let f = s.filter(pred);
        let fd = s.drop_last().filter(pred);
        assert forall|i: int| 0 <= i < f.len() implies s.contains(f[i]) by {
            if pred(s.last()) && i == f.len() - 1 {
                assert(f[i] == s.last());
                assert(s[s.len() - 1] == s.last());
            } else {
                assert(f[i] == fd[i]);
                assert(s.drop_last().contains(fd[i]));
                let j = choose|j: int|
                    0 <= j < s.drop_last().len() && s.drop_last()[j] == fd[i];
                assert(s[j] == fd[i]);
            }
        };
    }
}

fn is_live(e: &PreauthEntry, ttl_secs: u64, now: u64) -> (r: bool)
    requires
        ttl_secs > 0,
    ensures
        r == entry_live(*e, ttl_secs, now),
{
    if now <= e.inserted_at {
        true
    } else {
        now - e.inserted_at < ttl_secs
    }
}

fn clone_entry(e: &PreauthEntry) -> (r: PreauthEntry)
    ensures
        r == *e,
{
    PreauthEntry { key: e.key.clone(), value: e.value.clone(), inserted_at: e.inserted_at }
}

/// Relies on rand's thread-local generator and Rng::gen_range: a value
/// drawn uniformly from 0..n; gen_range panics only on an empty range,
/// which the precondition rules out.
#[verifier::external_body]
fn random_below(n: usize) -> (r: usize)
    requires
        n > 0,
    ensures
        r < n,
{
    rand::thread_rng().gen_range(0..n)
}

} // verus!
