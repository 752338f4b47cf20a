//! The register of captures that are under way.
//!
//! Rendering is expensive, so at most one request at a time renders a given
//! page. The request that finds a key unclaimed claims it and renders; those
//! that arrive meanwhile wait for it and then look into the cache.

use vstd::prelude::*;

verus! {

/// The keys that some request is rendering right now.
pub struct InFlight {
    keys: Vec<String>,
}

impl View for InFlight {
    type V = Set<Seq<char>>;

    closed spec fn view(&self) -> Set<Seq<char>> {
        Set::new(|key: Seq<char>| exists|i: int| 0 <= i < self.keys.len() && self.keys[i]@ == key)
    }
}

impl InFlight {
    /// The validity of a register: it lists no key twice.
    pub closed spec fn wf(&self) -> bool {
        forall|i: int, j: int| 0 <= i < j < self.keys.len() ==> self.keys[i]@ != self.keys[j]@
    }

    /// A register with no claims.
    pub fn new() -> (register: InFlight)
        ensures
            register.wf(),
            register@ == Set::<Seq<char>>::empty(),
    {
        let register = InFlight { keys: Vec::new() };
        assert(register@ =~= Set::<Seq<char>>::empty());
        register
    }

    /// Finds where `key` is listed.
    fn locate(&self, key: &String) -> (found: Option<usize>)
        ensures
            match found {
                Some(at) => at < self.keys.len() && self.keys[at as int]@ == key@,
                None => !self@.contains(key@),
            },
    {
        let mut at: usize = 0;
        while at < self.keys.len()
            invariant
                at <= self.keys.len(),
                forall|i: int| 0 <= i < at ==> self.keys[i]@ != key@,
            decreases self.keys.len() - at,
        {
            if self.keys[at] == *key {
                return Some(at);
            }
            at += 1;
        }
        None
    }

    /// Whether some request is rendering `key`.
    pub fn contains(&self, key: &String) -> (claimed: bool)
        ensures
            claimed == self@.contains(key@),
    {
        self.locate(key).is_some()
    }

    /// Claims `key` for the caller. Answers whether the claim was granted,
    /// which it is exactly where nobody held the key.
    pub fn claim(&mut self, key: String) -> (granted: bool)
        requires
            old(self).wf(),
        ensures
            final(self).wf(),
            granted == !old(self)@.contains(key@),
            final(self)@ == old(self)@.insert(key@),
    {
        match self.locate(&key) {
            Some(_) => {
                assert(self@ =~= old(self)@.insert(key@));
                false
            },
            None => {
                self.keys.push(key);
                assert(self.keys[self.keys.len() - 1]@ == key@);
                assert forall|other: Seq<char>| #[trigger]
                    self@.contains(other) == old(self)@.insert(key@).contains(other) by {
                    if old(self)@.contains(other) {
                        let i = choose|i: int|
                            0 <= i < old(self).keys.len() && old(self).keys[i]@ == other;
                        assert(self.keys[i]@ == other);
                    }
                }
                assert(self@ =~= old(self)@.insert(key@));
                true
            },
        }
    }

    /// Gives up the claim on `key`, if there is one.
    pub fn release(&mut self, key: &String)
        requires
            old(self).wf(),
        ensures
            final(self).wf(),
            final(self)@ == old(self)@.remove(key@),
    {
        match self.locate(key) {
            Some(at) => {
                self.keys.remove(at);
                assert forall|other: Seq<char>| #[trigger]
                    self@.contains(other) == old(self)@.remove(key@).contains(other) by {
                    if old(self)@.contains(other) && other != key@ {
                        let i = choose|i: int|
                            0 <= i < old(self).keys.len() && old(self).keys[i]@ == other;
                        if i < at {
                            assert(self.keys[i]@ == other);
                        } else {
                            assert(self.keys[i - 1]@ == other);
                        }
                    }
                    if self@.contains(other) {
                        let i = choose|i: int| 0 <= i < self.keys.len() && self.keys[i]@ == other;
                        if i < at {
                            assert(old(self).keys[i]@ == other);
                        } else {
                            assert(old(self).keys[i + 1]@ == other);
                        }
                    }
                }
                assert(self@ =~= old(self)@.remove(key@));
            },
            None => {
                assert(self@ =~= old(self)@.remove(key@));
            },
        }
    }
}

} // verus!
