use vstd::prelude::*;

verus! {

/// The per-key single-flight table.
///
/// The driver keeps one table (behind its lock) and, before resolving a
/// miss for a key, calls [`FlightTable::try_begin`]. Exactly one caller —
/// the one that found the key absent — becomes the leader and performs the
/// upstream fetch; every other concurrent caller is told to wait for the
/// leader's result. [`FlightTable::finish`] ends the flight when the
/// leader's work is done.
pub struct FlightTable {
    keys: Vec<String>,
}

impl FlightTable {
    /// The set of keys with a flight currently in progress.
    pub closed spec fn view(&self) -> Set<Seq<char>> {
        Set::new(|k: Seq<char>| exists|i: int| 0 <= i < self.keys@.len() && self.keys@[i]@ == k)
    }

    /// Internally, each in-flight key is held once.
    pub closed spec fn wf(&self) -> bool {
        forall|i: int, j: int|
            0 <= i < j < self.keys@.len() ==> self.keys@[i]@ != self.keys@[j]@
    }

    /// An empty table: no flight is in progress.
    pub fn new() -> (r: FlightTable)
        ensures
            r.wf(),
            r@ == Set::<Seq<char>>::empty(),
    {
        let r = FlightTable { keys: Vec::new() };
        proof {
            assert(r@ =~= Set::<Seq<char>>::empty());
        }
        r
    }

    /// Opens a flight for `key` if none is in progress. Returns true — the
    /// caller leads and must fetch — exactly when the key was not in
    /// flight; in either case the key is in flight afterwards.
    pub fn try_begin(&mut self, key: &String) -> (leader: bool)
        requires
            old(self).wf(),
        ensures
            final(self).wf(),
            leader == !old(self)@.contains(key@),
            final(self)@ == old(self)@.insert(key@),
    {
        if self.find_key(key).is_some() {
            proof {
                assert(self@.insert(key@) =~= self@);
            }
            false
        } else {
            self.keys.push(key.clone());
            proof {
                assert(forall|i: int|
                    0 <= i < old(self).keys@.len() ==> self.keys@[i]@ == old(self).keys@[i]@);
                assert(self.keys@[old(self).keys@.len() as int]@ == key@);
                assert(self@ =~= old(self)@.insert(key@));
            }
            true
        }
    }

    /// Closes the flight for `key` (after the leader stored its result and
    /// woke the waiters). The key is no longer in flight afterwards.
    pub fn finish(&mut self, key: &String)
        requires
            old(self).wf(),
        ensures
            final(self).wf(),
            final(self)@ == old(self)@.remove(key@),
    {
        let found = self.find_key(key);
        match found {
            Some(i) => {
                let ghost before = self.keys@;
                self.keys.remove(i);
                proof {
                    assert(self.keys@ =~= before.subrange(0, i as int) + before.skip(i as int + 1));
                    assert forall|k: Seq<char>| self@.contains(k) implies old(self)@.remove(
                        key@,
                    ).contains(k) by {
                        let j = choose|j: int|
                            0 <= j < self.keys@.len() && self.keys@[j]@ == k;
                        if j < i {
                            assert(before[j]@ == k);
                        } else {
                            assert(before[j + 1]@ == k);
                        }
                        assert(k != key@);
                    }
                    assert forall|k: Seq<char>| old(self)@.remove(key@).contains(k) implies
                    self@.contains(k) by {
                        let j = choose|j: int| 0 <= j < before.len() && before[j]@ == k;
                        if j < i {
                            assert(self.keys@[j]@ == k);
                        } else {
                            assert(j != i);
                            assert(self.keys@[j - 1]@ == k);
                        }
                    }
                    assert(self@ =~= old(self)@.remove(key@));
                }
            },
            None => {
                proof {
                    assert(self@ =~= old(self)@.remove(key@));
                }
            },
        }
    }

    /// Whether a flight for `key` is in progress.
    pub fn in_flight(&self, key: &String) -> (r: bool)
        ensures
            r == self@.contains(key@),
    {
        self.find_key(key).is_some()
    }

    /// The index of `key` among the in-flight keys, if present.
    fn find_key(&self, key: &String) -> (r: Option<usize>)
        ensures
            r is Some <==> self@.contains(key@),
            r matches Some(i) ==> i < self.keys@.len() && self.keys@[i as int]@ == key@,
    {
        let mut i: usize = 0;
        while i < self.keys.len()
            invariant
                i <= self.keys@.len(),
                forall|j: int| 0 <= j < i ==> self.keys@[j]@ != key@,
            decreases self.keys@.len() - i,
        {
            if self.keys[i].eq(key) {
                return Some(i);
            }
            i += 1;
        }
        proof {
            assert(!self@.contains(key@));
        }
        None
    }
}

/// Law (single-flight): once a leader has opened a flight for a key, any
/// request that arrives before the flight is finished is not a leader: at
/// most one upstream fetch is in progress per key, and every waiter shares
/// the one result. Leadership is available again only after `finish`.
pub proof fn lemma_single_flight(inflight: Set<Seq<char>>, key: Seq<char>)
    ensures
        inflight.insert(key).contains(key),
        !inflight.remove(key).contains(key),
{
}

} // verus!
