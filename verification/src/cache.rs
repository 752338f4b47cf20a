//! The store of rendered images: bounded in size, limited in time.
//!
//! The cache is passive. It never renders anything; it keeps what it is
//! given under a canonical URL, hands it back while it is fresh, and makes
//! room by dropping the entry that has gone unused the longest. Time is a
//! reading of a monotonic clock that the caller supplies with each call, in
//! the same unit as the time-to-live.

use vstd::prelude::*;

verus! {

/// A rendered page: the image and the clock reading at which it was made.
#[derive(Debug, PartialEq, Eq)]
pub struct CaptureResult {
    pub image: Vec<u8>,
    pub produced_at: u64,
}

/// The view of a [`CaptureResult`]: the image as a sequence of bytes.
pub struct Rendering {
    pub image: Seq<u8>,
    pub produced_at: u64,
}

impl View for CaptureResult {
    type V = Rendering;

    open spec fn view(&self) -> Rendering {
        Rendering { image: self.image@, produced_at: self.produced_at }
    }
}

impl Rendering {
    /// The time that has passed since the rendering was produced. A clock
    /// reading from before that counts as no time at all.
    pub open spec fn age(self, now: u64) -> nat {
        if now >= self.produced_at {
            (now - self.produced_at) as nat
        } else {
            0
        }
    }

    /// A rendering is fresh until a full time-to-live has passed since it
    /// was produced.
    pub open spec fn fresh(self, now: u64, ttl: u64) -> bool {
        self.age(now) < ttl
    }
}

/// The view of one cache entry.
pub struct Slot {
    pub key: Seq<char>,
    pub rendering: Rendering,
}

/// The cache as a mathematical value: its slots from the least to the most
/// recently used, its capacity and its time-to-live.
pub struct Shelf {
    pub slots: Seq<Slot>,
    pub capacity: nat,
    pub ttl: u64,
}

impl Shelf {
    /// The empty cache of the given limits.
    pub open spec fn empty(capacity: nat, ttl: u64) -> Shelf {
        Shelf { slots: Seq::empty(), capacity, ttl }
    }

    /// No key occurs twice, and the capacity is respected.
    pub open spec fn well_formed(self) -> bool {
        &&& self.slots.len() <= self.capacity
        &&& forall|i: int, j: int|
            0 <= i < j < self.slots.len() ==> (#[trigger] self.slots[i]).key != (
            #[trigger] self.slots[j]).key
    }

    /// Whether some slot is filed under `key`, fresh or not.
    pub open spec fn holds(self, key: Seq<char>) -> bool {
        exists|i: int| 0 <= i < self.slots.len() && (#[trigger] self.slots[i]).key == key
    }

    /// The place of the slot filed under `key`. Meaningful where
    /// [`Self::holds`] says there is one.
    pub open spec fn position(self, key: Seq<char>) -> int {
        choose|i: int| 0 <= i < self.slots.len() && (#[trigger] self.slots[i]).key == key
    }

    /// What a lookup of `key` at time `now` answers: the rendering filed
    /// under the key if there is one and it is still fresh.
    pub open spec fn lookup(self, key: Seq<char>, now: u64) -> Option<Rendering> {
        if self.holds(key) && self.slots[self.position(key)].rendering.fresh(now, self.ttl) {
            Some(self.slots[self.position(key)].rendering)
        } else {
            None
        }
    }

    /// The cache after a lookup of `key` at time `now`. A hit makes the slot
    /// the most recently used; a stale slot is dropped on sight.
    pub open spec fn after_get(self, key: Seq<char>, now: u64) -> Shelf {
        if !self.holds(key) {
            self
        } else {
            let at = self.position(key);
            let rest = self.slots.remove(at);
            if self.slots[at].rendering.fresh(now, self.ttl) {
                Shelf { slots: rest.push(self.slots[at]), ..self }
            } else {
                Shelf { slots: rest, ..self }
            }
        }
    }

    /// The slots once any slot under `key` is taken out.
    pub open spec fn without(self, key: Seq<char>) -> Seq<Slot> {
        if self.holds(key) {
            self.slots.remove(self.position(key))
        } else {
            self.slots
        }
    }

    /// The cache after `rendering` is stored under `key`. An earlier slot
    /// under the key is replaced. If the cache is then full, the least
    /// recently used slot leaves. A cache of capacity zero stores nothing.
    pub open spec fn after_put(self, key: Seq<char>, rendering: Rendering) -> Shelf {
        if self.capacity == 0 {
            self
        } else {
            let rest = self.without(key);
            let room = if rest.len() >= self.capacity {
                rest.drop_first()
            } else {
                rest
            };
            Shelf { slots: room.push(Slot { key, rendering }), ..self }
        }
    }
}

impl Shelf {
    /// The cache after the slots of `stored` are stored one after another,
    /// the first of them first.
    pub open spec fn after_puts(self, stored: Seq<Slot>) -> Shelf
        decreases stored.len(),
    {
        if stored.len() == 0 {
            self
        } else {
            self.after_puts(stored.drop_last()).after_put(
                stored.last().key,
                stored.last().rendering,
            )
        }
    }

    /// In a well-formed cache a key has one place.
    pub proof fn position_is_unique(self, key: Seq<char>, at: int)
        requires
            self.well_formed(),
            0 <= at < self.slots.len(),
            self.slots[at].key == key,
        ensures
            self.holds(key),
            self.position(key) == at,
    {
        let here = self.slots[at];
        assert(here.key == key);
        let chosen = self.slots[self.position(key)];
        assert(chosen.key == key);
    }

    /// A lookup leaves a well-formed cache well formed, with the same limits
    /// and no more slots than before.
    pub proof fn get_keeps_well_formed(self, key: Seq<char>, now: u64)
        requires
            self.well_formed(),
        ensures
            self.after_get(key, now).well_formed(),
            self.after_get(key, now).capacity == self.capacity,
            self.after_get(key, now).ttl == self.ttl,
            self.after_get(key, now).slots.len() <= self.slots.len(),
    {
        if self.holds(key) {
            let at = self.position(key);
            let rest = self.slots.remove(at);
            assert forall|i: int| 0 <= i < rest.len() implies (#[trigger] rest[i]).key != key by {
                let here = self.slots[at];
                if i < at {
                    assert(rest[i] == self.slots[i]);
                } else {
                    assert(rest[i] == self.slots[i + 1]);
                }
            }
        }
    }

    /// Storing leaves a well-formed cache well formed, with the same limits.
    pub proof fn put_keeps_well_formed(self, key: Seq<char>, rendering: Rendering)
        requires
            self.well_formed(),
        ensures
            self.after_put(key, rendering).well_formed(),
            self.after_put(key, rendering).capacity == self.capacity,
            self.after_put(key, rendering).ttl == self.ttl,
    {
        if self.capacity > 0 {
            let rest = self.without(key);
            assert forall|i: int| 0 <= i < rest.len() implies (#[trigger] rest[i]).key != key by {
                if self.holds(key) {
                    let at = self.position(key);
                    let here = self.slots[at];
                    if i < at {
                        assert(rest[i] == self.slots[i]);
                    } else {
                        assert(rest[i] == self.slots[i + 1]);
                    }
                } else {
                    assert(rest[i] == self.slots[i]);
                }
            }
        }
    }

    /// What was just stored is found again for as long as it is fresh,
    /// whatever the cache held before.
    pub proof fn stored_is_found(self, key: Seq<char>, rendering: Rendering, now: u64)
        requires
            self.well_formed(),
            self.capacity > 0,
            rendering.fresh(now, self.ttl),
        ensures
            self.after_put(key, rendering).lookup(key, now) == Some(rendering),
    {
        let after = self.after_put(key, rendering);
        self.put_keeps_well_formed(key, rendering);
        after.position_is_unique(key, after.slots.len() - 1);
    }

    /// Freshness: once a full time-to-live has passed since a rendering was
    /// produced, a lookup of its key misses, however much room the cache has.
    pub proof fn stale_is_missed(self, key: Seq<char>, rendering: Rendering, now: u64)
        requires
            self.well_formed(),
            now >= rendering.produced_at + self.ttl,
        ensures
            self.after_put(key, rendering).lookup(key, now) is None,
    {
        let after = self.after_put(key, rendering);
        self.put_keeps_well_formed(key, rendering);
        if self.capacity > 0 {
            after.position_is_unique(key, after.slots.len() - 1);
        } else {
            assert(!self.holds(key));
        }
    }

    /// A lookup never answers with a rendering that has outlived the
    /// time-to-live.
    pub proof fn found_is_fresh(self, key: Seq<char>, now: u64)
        ensures
            self.lookup(key, now) matches Some(rendering) ==> rendering.fresh(now, self.ttl),
    {
    }

    /// A lookup disturbs no other entry: whatever is filed under another key
    /// answers later lookups as before.
    pub proof fn get_keeps_the_rest(self, looked_up: Seq<char>, at: u64, key: Seq<char>, now: u64)
        requires
            self.well_formed(),
            key != looked_up,
        ensures
            self.after_get(looked_up, at).lookup(key, now) == self.lookup(key, now),
    {
        let after = self.after_get(looked_up, at);
        self.get_keeps_well_formed(looked_up, at);
        if self.holds(looked_up) {
            let gone = self.position(looked_up);
            if self.holds(key) {
                let place = self.position(key);
                let slot = self.slots[place];
                let moved = if place < gone {
                    place
                } else {
                    place - 1
                };
                assert(after.slots[moved] == slot);
                after.position_is_unique(key, moved);
            } else {
                if after.holds(key) {
                    let place = after.position(key);
                    let from = if place == self.slots.len() - 1 {
                        gone
                    } else if place < gone {
                        place
                    } else {
                        place + 1
                    };
                    assert(self.slots[from].key == key);
                }
            }
        }
    }

    /// A hit keeps the entry: what was found is found again by later
    /// lookups for as long as it is fresh.
    pub proof fn hit_keeps_the_entry(self, key: Seq<char>, at: u64, now: u64)
        requires
            self.well_formed(),
            self.lookup(key, at) is Some,
        ensures
            self.after_get(key, at).lookup(key, now) == self.lookup(key, now),
    {
        let after = self.after_get(key, at);
        self.get_keeps_well_formed(key, at);
        after.position_is_unique(key, after.slots.len() - 1);
    }

    /// Storing disturbs no other entry as long as there is room: where the
    /// cache is not full, or already holds the key that is stored, whatever
    /// is filed under another key answers later lookups as before.
    pub proof fn put_keeps_the_rest(
        self,
        stored: Seq<char>,
        rendering: Rendering,
        key: Seq<char>,
        now: u64,
    )
        requires
            self.well_formed(),
            key != stored,
            self.slots.len() < self.capacity || self.holds(stored),
        ensures
            self.after_put(stored, rendering).lookup(key, now) == self.lookup(key, now),
    {
        let after = self.after_put(stored, rendering);
        self.put_keeps_well_formed(stored, rendering);
        let rest = self.without(stored);
        assert(after.slots == rest.push(Slot { key: stored, rendering }));
        if self.holds(key) {
            let place = self.position(key);
            let slot = self.slots[place];
            let moved = if self.holds(stored) && place > self.position(stored) {
                place - 1
            } else {
                place
            };
            assert(after.slots[moved] == slot);
            after.position_is_unique(key, moved);
        } else {
            if after.holds(key) {
                let place = after.position(key);
                assert(place < rest.len());
                let from = if self.holds(stored) && place >= self.position(stored) {
                    place + 1
                } else {
                    place
                };
                assert(self.slots[from].key == key);
            }
        }
    }

    /// Capacity: a full cache that takes in a key it does not hold drops
    /// exactly one slot, the least recently used. That key is missed from
    /// then on; every other slot stays as it was.
    pub proof fn full_cache_drops_oldest(self, key: Seq<char>, rendering: Rendering)
        requires
            self.well_formed(),
            self.capacity > 0,
            self.slots.len() == self.capacity,
            !self.holds(key),
        ensures
            self.after_put(key, rendering).slots == self.slots.drop_first().push(
                Slot { key, rendering },
            ),
            self.after_put(key, rendering).slots.len() == self.capacity,
            !self.after_put(key, rendering).holds(self.slots[0].key),
            forall|now: u64| self.after_put(key, rendering).lookup(self.slots[0].key, now) is None,
            forall|i: int|
                1 <= i < self.slots.len() ==> self.after_put(key, rendering).holds(
                    (#[trigger] self.slots[i]).key,
                ) && self.after_put(key, rendering).slots[self.after_put(key, rendering).position(
                    self.slots[i].key,
                )] == self.slots[i],
    {
        let after = self.after_put(key, rendering);
        let oldest = self.slots[0];
        self.put_keeps_well_formed(key, rendering);
        assert forall|j: int| 0 <= j < after.slots.len() implies (#[trigger] after.slots[j]).key
            != oldest.key by {
            if j < after.slots.len() - 1 {
                assert(after.slots[j] == self.slots[j + 1]);
            } else {
                assert(self.slots[0].key == oldest.key);
            }
        }
        assert forall|i: int| 1 <= i < self.slots.len() implies after.holds(
            (#[trigger] self.slots[i]).key,
        ) && after.slots[after.position(self.slots[i].key)] == self.slots[i] by {
            assert(after.slots[i - 1] == self.slots[i]);
            after.position_is_unique(self.slots[i].key, i - 1);
        }
    }

    /// Below its capacity, a cache that starts empty keeps every slot it is
    /// given under a key of its own, in the order of arrival.
    pub proof fn fills_in_order(capacity: nat, ttl: u64, stored: Seq<Slot>)
        requires
            stored.len() <= capacity,
            forall|i: int, j: int|
                0 <= i < j < stored.len() ==> (#[trigger] stored[i]).key != (
                #[trigger] stored[j]).key,
        ensures
            Shelf::empty(capacity, ttl).after_puts(stored) == (Shelf {
                slots: stored,
                capacity,
                ttl,
            }),
        decreases stored.len(),
    {
        let start = Shelf::empty(capacity, ttl);
        if stored.len() == 0 {
            assert(stored =~= Seq::empty());
        } else {
            let before = stored.drop_last();
            let newest = stored.last();
            assert forall|i: int, j: int| 0 <= i < j < before.len() implies (
            #[trigger] before[i]).key != (#[trigger] before[j]).key by {
                assert(before[i] == stored[i] && before[j] == stored[j]);
            }
            Shelf::fills_in_order(capacity, ttl, before);
            let filled = start.after_puts(before);
            assert(!filled.holds(newest.key)) by {
                if filled.holds(newest.key) {
                    let at = filled.position(newest.key);
                    assert(filled.slots[at] == stored[at]);
                    assert(stored[stored.len() - 1] == newest);
                }
            }
            assert(filled.after_put(newest.key, newest.rendering).slots =~= stored);
        }
    }

    /// Capacity, from the start: storing one key more than an empty cache
    /// has room for drops exactly one slot, the first that was stored. A
    /// lookup of its key misses, and the others are all still held.
    pub proof fn one_too_many(capacity: nat, ttl: u64, stored: Seq<Slot>)
        requires
            capacity > 0,
            stored.len() == capacity + 1,
            forall|i: int, j: int|
                0 <= i < j < stored.len() ==> (#[trigger] stored[i]).key != (
                #[trigger] stored[j]).key,
        ensures
            Shelf::empty(capacity, ttl).after_puts(stored).slots == stored.drop_first(),
            !Shelf::empty(capacity, ttl).after_puts(stored).holds(stored[0].key),
            forall|now: u64|
                Shelf::empty(capacity, ttl).after_puts(stored).lookup(stored[0].key, now) is None,
            forall|i: int|
                1 <= i < stored.len() ==> Shelf::empty(capacity, ttl).after_puts(stored).holds(
                    (#[trigger] stored[i]).key,
                ),
    {
        let before = stored.drop_last();
        let newest = stored.last();
        assert forall|i: int, j: int| 0 <= i < j < before.len() implies (#[trigger] before[i]).key
            != (#[trigger] before[j]).key by {
            assert(before[i] == stored[i] && before[j] == stored[j]);
        }
        Shelf::fills_in_order(capacity, ttl, before);
        let full = Shelf::empty(capacity, ttl).after_puts(before);
        assert(full.well_formed());
        assert(!full.holds(newest.key)) by {
            if full.holds(newest.key) {
                let at = full.position(newest.key);
                assert(full.slots[at] == stored[at]);
                assert(stored[stored.len() - 1] == newest);
            }
        }
        full.full_cache_drops_oldest(newest.key, newest.rendering);
        let after = full.after_put(newest.key, newest.rendering);
        assert(after.slots =~= stored.drop_first());
        assert(full.slots[0] == stored[0]);
        assert forall|i: int| 1 <= i < stored.len() implies after.holds(
            (#[trigger] stored[i]).key,
        ) by {
            assert(after.slots[i - 1] == stored[i]);
        }
    }
}

/// A cache entry: the key and what is filed under it.
struct CacheEntry {
    key: String,
    result: CaptureResult,
}

impl View for CacheEntry {
    type V = Slot;

    closed spec fn view(&self) -> Slot {
        Slot { key: self.key@, rendering: self.result@ }
    }
}

/// The capture cache.
pub struct CaptureCache {
    entries: Vec<CacheEntry>,
    capacity: usize,
    ttl: u64,
}

impl View for CaptureCache {
    type V = Shelf;

    closed spec fn view(&self) -> Shelf {
        Shelf {
            slots: self.entries@.map_values(|entry: CacheEntry| entry@),
            capacity: self.capacity as nat,
            ttl: self.ttl,
        }
    }
}

impl CaptureCache {
    /// The validity of a cache: its model is well formed.
    pub open spec fn wf(&self) -> bool {
        self@.well_formed()
    }

    /// An empty cache that holds at most `capacity` entries, each for `ttl`
    /// units of time.
    pub fn new(capacity: usize, ttl: u64) -> (cache: CaptureCache)
        ensures
            cache.wf(),
            cache@ == Shelf::empty(capacity as nat, ttl),
    {
        let cache = CaptureCache { entries: Vec::new(), capacity, ttl };
        assert(cache@.slots =~= Seq::empty());
        cache
    }

    /// The number of entries held, fresh or stale.
    pub fn len(&self) -> (count: usize)
        ensures
            count == self@.slots.len(),
    {
        self.entries.len()
    }

    /// The most entries the cache will hold.
    pub fn capacity(&self) -> (capacity: usize)
        ensures
            capacity == self@.capacity,
    {
        self.capacity
    }

    /// How long an entry stays fresh.
    pub fn ttl(&self) -> (ttl: u64)
        ensures
            ttl == self@.ttl,
    {
        self.ttl
    }

    /// Finds the entry filed under `key`.
    fn locate(&self, key: &String) -> (found: Option<usize>)
        requires
            self.wf(),
        ensures
            match found {
                Some(at) => self@.holds(key@) && at == self@.position(key@),
                None => !self@.holds(key@),
            },
    {
        let mut at: usize = 0;
        while at < self.entries.len()
            invariant
                self.wf(),
                at <= self.entries.len(),
                forall|i: int| 0 <= i < at ==> (#[trigger] self@.slots[i]).key != key@,
            decreases self.entries.len() - at,
        {
            if self.entries[at].key == *key {
                proof {
                    let here = self@.slots[at as int];
                    assert(here.key == key@);
                    let chosen = self@.slots[self@.position(key@)];
                    assert(chosen.key == key@);
                }
                return Some(at);
            }
            at += 1;
        }
        None
    }

    /// Looks `key` up at time `now`.
    ///
    /// Answers with the rendering filed under the key if it is still fresh,
    /// and marks it as just used. A stale entry is dropped.
    pub fn get(&mut self, key: &String, now: u64) -> (hit: Option<CaptureResult>)
        requires
            old(self).wf(),
        ensures
            final(self).wf(),
            final(self)@ == old(self)@.after_get(key@, now),
            match hit {
                Some(result) => old(self)@.lookup(key@, now) == Some(result@),
                None => old(self)@.lookup(key@, now) is None,
            },
    {
        match self.locate(key) {
            None => None,
            Some(at) => {
                let entry = self.entries.remove(at);
                assert(self@.slots =~= old(self)@.slots.remove(at as int));
                assert(entry@ == old(self)@.slots[at as int]);
                let age_ok = if now >= entry.result.produced_at {
                    now - entry.result.produced_at < self.ttl
                } else {
                    self.ttl > 0
                };
                if age_ok {
                    let image = entry.result.image.clone();
                    assert(image@ == entry.result.image@);
                    let hit = CaptureResult { image, produced_at: entry.result.produced_at };
                    self.entries.push(entry);
                    assert(self@.slots =~= old(self)@.slots.remove(at as int).push(
                        old(self)@.slots[at as int],
                    ));
                    Some(hit)
                } else {
                    None
                }
            },
        }
    }

    /// Files `result` under `key`, in place of what was there.
    ///
    /// Where that would exceed the capacity, the entry that has gone unused
    /// the longest is dropped first.
    pub fn put(&mut self, key: String, result: CaptureResult)
        requires
            old(self).wf(),
        ensures
            final(self).wf(),
            final(self)@ == old(self)@.after_put(key@, result@),
    {
        if self.capacity == 0 {
            return;
        }
        match self.locate(&key) {
            Some(at) => {
                self.entries.remove(at);
                assert(self@.slots =~= old(self)@.slots.remove(at as int));
            },
            None => {},
        }
        let ghost rest = self@.slots;
        if self.entries.len() >= self.capacity {
            self.entries.remove(0);
            assert(self@.slots =~= rest.drop_first());
        }
        let ghost room = self@.slots;
        self.entries.push(CacheEntry { key, result });
        assert(self@.slots =~= room.push(Slot { key: key@, rendering: result@ }));
    }
}

} // verus!
