//! Per-key rate limiting: a key that was marked at time `t` stays limited
//! until `t + wait` milliseconds have passed.
use std::collections::HashMap;
use vstd::prelude::*;
use vstd::std_specs::hash::spec_keys_iter;
use vstd::std_specs::iter::IteratorSpec;

verus! {

broadcast use vstd::std_specs::hash::group_hash_axioms;

/// Whether a key is free at `now`, given the times at which keys were last
/// marked and the length of the waiting window.
pub open spec fn free_at(limited: Map<IpKey, u64>, wait_ms: u64, key: IpKey, now: u64) -> bool {
    !limited.contains_key(key) || limited[key] + wait_ms <= now
}

/// Whether an entry marked at `marked_at` has run out its window by `now`.
pub open spec fn expired(marked_at: u64, wait_ms: u64, now: u64) -> bool {
    marked_at + wait_ms <= now
}

/// `limited` without the entries whose window has run out at `now`.
pub open spec fn without_expired(limited: Map<IpKey, u64>, wait_ms: u64, now: u64) -> Map<IpKey, u64> {
    limited.restrict(limited.dom().filter(|k: IpKey| !expired(limited[k], wait_ms, now)))
}

/// A key marked at `now` is limited until `now + wait_ms` and free from then
/// on; marking it changes nothing for any other key.
pub proof fn lemma_mark_limits_key(
    limited: Map<IpKey, u64>,
    wait_ms: u64,
    key: IpKey,
    now: u64,
    other: IpKey,
    t: u64,
)
    ensures
        now <= t < now + wait_ms ==> !free_at(limited.insert(key, now), wait_ms, key, t),
        t >= now + wait_ms ==> free_at(limited.insert(key, now), wait_ms, key, t),
        other != key ==> free_at(limited.insert(key, now), wait_ms, other, t) == free_at(
            limited,
            wait_ms,
            other,
            t,
        ),
{
}

/// Forgetting the entries that ran out at `now` changes no answer from `now`
/// on.
pub proof fn lemma_collect_garbage_keeps_answers(
    limited: Map<IpKey, u64>,
    wait_ms: u64,
    now: u64,
    key: IpKey,
    t: u64,
)
    requires
        t >= now,
    ensures
        free_at(
            without_expired(limited, wait_ms, now),
            wait_ms,
            key,
            t,
        ) == free_at(limited, wait_ms, key, t),
{
}

/// What a rate limiter offers to its users: a question, "may `key` act at
/// `now`?", and a way to record that `key` acted. Users may supply their own
/// limiters; nothing is assumed of them.
pub trait RateLimiter<K> {
    fn is_free(&self, key: &K, now: u64) -> bool;

    fn mark_as_limited(&mut self, key: K, now: u64);
}

/// The address of a player: an IPv4 address as its 32-bit number, an IPv6
/// address as its 128-bit number. The two kinds are kept apart.
#[derive(Debug, Clone, Copy, PartialEq, Eq, Structural, Hash)]
pub enum IpKey {
    V4(u32),
    V6(u128),
}

/// Removes from `m` every entry whose window has run out at `now`.
fn remove_expired<K: Copy + Eq + std::hash::Hash>(m: &mut HashMap<K, u64>, wait_ms: u64, now: u64)
    requires
        vstd::std_specs::hash::obeys_key_model::<K>(),
    ensures
        final(m)@ == old(m)@.restrict(
            old(m)@.dom().filter(|k: K| !expired(old(m)@[k], wait_ms, now)),
        ),
{
    let ghost old_map = m@;
    let mut stale: Vec<K> = Vec::new();
    let ghost keys = spec_keys_iter(&*m).remaining().unref();
    let ghost mut seen: int = 0;
    for k in it: m.keys()
        invariant
            m@ == old_map,
            vstd::std_specs::hash::obeys_key_model::<K>(),
            it.seq().unref() == keys,
            keys.to_set() == old_map.dom(),
            seen == it.index(),
            forall|j: int|
                0 <= j < stale@.len() ==> old_map.contains_key(#[trigger] stale@[j])
                    && expired(old_map[stale@[j]], wait_ms, now),
            forall|j: int|
                0 <= j < seen && expired(old_map[#[trigger] keys[j]], wait_ms, now)
                    ==> stale@.contains(keys[j]),
    {
        proof {
            assert(keys[seen] == *k);
            assert(keys.to_set().contains(*k));
            seen = seen + 1;
        }
        let ghost before = stale@;
        let t = *m.get(k).unwrap();
        if t <= now && now - t >= wait_ms {
            stale.push(*k);
            assert(stale@[stale@.len() - 1] == *k);
        }
        assert forall|j: int|
            0 <= j < seen && expired(old_map[#[trigger] keys[j]], wait_ms, now) implies stale@.contains(
            keys[j],
        ) by {
            if j < seen - 1 {
                let w = choose|w: int| 0 <= w < before.len() && before[w] == keys[j];
                assert(stale@[w] == keys[j]);
            }
        }
    }
    assert(seen == keys.len());
    assert forall|key: K|
        old_map.contains_key(key) && expired(old_map[key], wait_ms, now) implies stale@.contains(
        key,
    ) by {
        assert(keys.to_set().contains(key));
        let j = choose|j: int| 0 <= j < keys.len() && keys[j] == key;
        assert(keys[j] == key);
    }
    let n = stale.len();
    for i in 0..n
        invariant
            n == stale@.len(),
            vstd::std_specs::hash::obeys_key_model::<K>(),
            forall|j: int|
                0 <= j < stale@.len() ==> old_map.contains_key(#[trigger] stale@[j])
                    && expired(old_map[stale@[j]], wait_ms, now),
            forall|key: K|
                #[trigger] m@.contains_key(key) == (old_map.contains_key(key)
                    && !(exists|j: int| 0 <= j < i && stale@[j] == key)),
            forall|key: K|
                #[trigger] m@.contains_key(key) ==> m@[key]
                    == old_map[key],
    {
        m.remove(&stale[i]);
    }
    assert(m@ =~= old_map.restrict(old_map.dom().filter(|k: K| !expired(old_map[k], wait_ms, now))));
}

/// A rate limiter that remembers, for each address, the last time it was
/// marked.
#[derive(Debug)]
pub struct RateLimiterImpl {
    wait_ms: u64,
    limited_v4: HashMap<u32, u64>,
    limited_v6: HashMap<u128, u64>,
}

/// The table of both kinds of addresses as one map.
pub open spec fn joined(v4: Map<u32, u64>, v6: Map<u128, u64>) -> Map<IpKey, u64> {
    Map::new(
        |k: IpKey|
            match k {
                IpKey::V4(a) => v4.contains_key(a),
                IpKey::V6(b) => v6.contains_key(b),
            },
        |k: IpKey|
            match k {
                IpKey::V4(a) => v4[a],
                IpKey::V6(b) => v6[b],
            },
    )
}

impl View for RateLimiterImpl {
    type V = Map<IpKey, u64>;

    closed spec fn view(&self) -> Map<IpKey, u64> {
        joined(self.limited_v4@, self.limited_v6@)
    }
}

impl RateLimiterImpl {
    /// The length of the waiting window, in milliseconds.
    pub closed spec fn wait(&self) -> u64 {
        self.wait_ms
    }

    /// A limiter under which every address is free.
    pub fn new(wait_ms: u64) -> (r: Self)
        ensures
            r@ == Map::<IpKey, u64>::empty(),
            r.wait() == wait_ms,
    {
        let r = RateLimiterImpl { wait_ms, limited_v4: HashMap::new(), limited_v6: HashMap::new() };
        assert(r@ =~= Map::<IpKey, u64>::empty());
        r
    }

    /// The length of the waiting window, in milliseconds.
    pub fn wait_time(&self) -> (r: u64)
        ensures
            r == self.wait(),
    {
        self.wait_ms
    }

    /// Forgets every entry whose window has run out at `now`.
    pub fn collect_garbage(&mut self, now: u64)
        ensures
            final(self).wait() == old(self).wait(),
            final(self)@ == without_expired(old(self)@, old(self).wait(), now),
    {
        let ghost old_view = self@;
        remove_expired(&mut self.limited_v4, self.wait_ms, now);
        remove_expired(&mut self.limited_v6, self.wait_ms, now);
        assert(self@ =~= without_expired(old_view, self.wait_ms, now));
    }
}

impl RateLimiter<IpKey> for RateLimiterImpl {
    /// `key` is free unless it was marked less than the waiting window ago
    /// (or, the clock having gone back, after `now`).
    fn is_free(&self, key: &IpKey, now: u64) -> (free: bool)
        ensures
            free == free_at(self@, self.wait(), *key, now),
    {
        let marked = match key {
            IpKey::V4(a) => self.limited_v4.get(a),
            IpKey::V6(b) => self.limited_v6.get(b),
        };
        match marked {
            None => true,
            Some(t) => *t <= now && now - *t >= self.wait_ms,
        }
    }

    fn mark_as_limited(&mut self, key: IpKey, now: u64)
        ensures
            final(self)@ == old(self)@.insert(key, now),
            final(self).wait() == old(self).wait(),
    {
        let ghost old_view = self@;
        match key {
            IpKey::V4(a) => {
                self.limited_v4.insert(a, now);
            },
            IpKey::V6(b) => {
                self.limited_v6.insert(b, now);
            },
        }
        assert(self@ =~= old_view.insert(key, now));
    }
}

} // verus!
