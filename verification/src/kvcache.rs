//! A bounded, time-to-live cache keyed by a 64-bit id, used for the
//! per-user and per-group configuration records.
//!
//! Entries older than the time-to-live read as absent; when the cache is
//! full, the least recently written entry is evicted.

use vstd::prelude::*;

use crate::store::{
    lemma_slookup_absent, lemma_slookup_found, lemma_slookup_push, lemma_slookup_remove,
    lemma_unique_remove, slookup, unique_keys,
};

verus! {

/// A value whose copies carry the same mathematical view.
pub trait Duplicable: View + Sized {
    fn duplicate(&self) -> (r: Self)
        ensures
            r@ == self@,
    ;
}

/// Mathematical image of [`Cached`].
pub ghost struct CachedView<T> {
    pub data: T,
    pub touched: u64,
}

/// One cache slot: the value and when it was written.
pub struct Cached<V> {
    pub data: V,
    pub touched: u64,
}

impl<V: View> View for Cached<V> {
    type V = CachedView<<V as View>::V>;

    open spec fn view(&self) -> CachedView<<V as View>::V> {
        CachedView { data: self.data@, touched: self.touched }
    }
}

impl<V: View> DeepView for Cached<V> {
    type V = CachedView<<V as View>::V>;

    open spec fn deep_view(&self) -> CachedView<<V as View>::V> {
        self.view()
    }
}

/// An entry is stale once the time-to-live has fully elapsed.  A clock
/// that moved backwards keeps entries alive.
pub open spec fn stale<T>(c: CachedView<T>, ttl_secs: u64, now: u64) -> bool {
    now >= c.touched && now - c.touched >= ttl_secs
}

/// The bounded, expiring id-to-value cache.
pub struct KvCache<V> {
    pub entries: Vec<(i64, Cached<V>)>,
    /// Seconds an entry stays readable after a write.
    pub ttl_secs: u64,
    /// Cap on stored entries.
    pub capacity: usize,
}

impl<V: Duplicable> KvCache<V> {
    pub open spec fn model(&self) -> Seq<(i64, CachedView<<V as View>::V>)> {
        self.entries.deep_view()
    }

    pub open spec fn inv(&self) -> bool {
        &&& self.capacity >= 1
        &&& self.model().len() <= self.capacity
        &&& unique_keys(self.model())
    }

    /// The stored slot under `id`, stale or not.
    pub open spec fn spec_entry(&self, id: i64) -> Option<CachedView<<V as View>::V>> {
        slookup(self.model(), id)
    }

    /// The value under `id`, unless absent or stale.
    pub open spec fn live_value(&self, id: i64, now: u64) -> Option<<V as View>::V> {
        match slookup(self.model(), id) {
            Some(c) => if stale(c, self.ttl_secs, now) {
                None
            } else {
                Some(c.data)
            },
            None => None,
        }
    }

    pub fn new(ttl_secs: u64, capacity: usize) -> (r: Self)
        requires
            capacity >= 1,
        ensures
            r.inv(),
            r.ttl_secs == ttl_secs,
            r.capacity == capacity,
            r.model() == Seq::<(i64, CachedView<<V as View>::V>)>::empty(),
    {
        let r = KvCache { entries: Vec::new(), ttl_secs, capacity };
        proof {
            assert(r.model() =~= Seq::<(i64, CachedView<<V as View>::V>)>::empty());
        }
        r
    }

    fn find_index(&self, id: i64) -> (r: Option<usize>)
        ensures
            match r {
                Some(j) => j < self.model().len() && self.model()[j as int].0 == id,
                None => forall|i: int| 0 <= i < self.model().len() ==> self.model()[i].0 != id,
            },
    {
        let mut i: usize = 0;
        while i < self.entries.len()
            invariant
                i <= self.entries.len(),
                self.model().len() == self.entries.len(),
                forall|k: int| 0 <= k < i ==> self.model()[k].0 != id,
            decreases self.entries.len() - i,
        {
            if self.entries[i].0 == id {
                proof {
                    assert(self.model()[i as int].0 == id);
                }
                return Some(i);
            }
            i += 1;
        }
        None
    }

    /// Reads the live value under `id`; a stale or missing entry reads as
    /// absent.
    pub fn get(&self, id: i64, now: u64) -> (r: Option<V>)
        requires
            self.inv(),
        ensures
            match self.live_value(id, now) {
                Some(d) => r is Some && r->0@ == d,
                None => r is None,
            },
    {
        match self.find_index(id) {
            Some(j) => {
                proof {
                    lemma_slookup_found(self.model(), id, j as int);
                }
                let slot = &self.entries[j].1;
                let is_stale = now >= slot.touched && now - slot.touched >= self.ttl_secs;
                if is_stale {
                    None
                } else {
                    Some(slot.data.duplicate())
                }
            },
            None => {
                proof {
                    lemma_slookup_absent(self.model(), id);
                }
                None
            },
        }
    }

    /// Writes `value` under `id`, stamping it with `now`.  A full cache
    /// first evicts its least recently written entry.
    pub fn insert(&mut self, id: i64, value: V, now: u64)
        requires
            old(self).inv(),
        ensures
            final(self).inv(),
            final(self).ttl_secs == old(self).ttl_secs,
            final(self).capacity == old(self).capacity,
            final(self).spec_entry(id) == Some(
                CachedView { data: value@, touched: now },
            ),
            forall|k: i64|
                k != id ==> (final(self).spec_entry(k) == old(self).spec_entry(k)
                    || final(self).spec_entry(k) is None),
            (old(self).spec_entry(id) is Some || old(self).model().len() < old(self).capacity)
                ==> forall|k: i64|
                k != id ==> final(self).spec_entry(k) == old(self).spec_entry(k),
    {
        let ghost oldm = self.model();
        let ghost had = self.spec_entry(id);
        match self.find_index(id) {
            Some(j) => {
                proof {
                    lemma_slookup_found(oldm, id, j as int);
                }
                self.entries.remove(j);
                proof {
                    assert(self.model() =~= oldm.remove(j as int));
                    lemma_unique_remove(oldm, j as int);
                    assert forall|k: i64| true implies #[trigger] slookup(self.model(), k) == (
                    if oldm[j as int].0 == k {
                        None::<CachedView<<V as View>::V>>
                    } else {
                        slookup(oldm, k)
                    }) by {
                        lemma_slookup_remove(oldm, j as int, k);
                    }
                }
            },
            None => {
                proof {
                    lemma_slookup_absent(oldm, id);
                }
                if self.entries.len() >= self.capacity {
                    // Full: evict the least recently written entry.
                    let mut victim: usize = 0;
                    let mut i: usize = 1;
                    while i < self.entries.len()
                        invariant
                            victim < i <= self.entries.len(),
                        decreases self.entries.len() - i,
                    {
                        if self.entries[i].1.touched < self.entries[victim].1.touched {
                            victim = i;
                        }
                        i += 1;
                    }
                    self.entries.remove(victim);
                    proof {
                        assert(self.model() =~= oldm.remove(victim as int));
                        lemma_unique_remove(oldm, victim as int);
                        assert forall|k: i64| true implies #[trigger] slookup(
                            self.model(),
                            k,
                        ) == (if oldm[victim as int].0 == k {
                            None::<CachedView<<V as View>::V>>
                        } else {
                            slookup(oldm, k)
                        }) by {
                            lemma_slookup_remove(oldm, victim as int, k);
                        }
                    }
                }
            },
        }
        let ghost mid = self.model();
        let ghost dv = value@;
        self.entries.push((id, Cached { data: value, touched: now }));
        proof {
            assert(self.model() =~= mid.push((id, CachedView { data: dv, touched: now })));
            assert forall|k: i64| true implies #[trigger] slookup(self.model(), k) == (if k == id {
                Some(CachedView { data: dv, touched: now })
            } else {
                slookup(mid, k)
            }) by {
                lemma_slookup_push(mid, (id, CachedView { data: dv, touched: now }), k);
            }
            assert forall|a: int, b: int|
                0 <= a < b < self.model().len() implies self.model()[a].0
                != self.model()[b].0 by {
                if b == self.model().len() - 1 {
                    if mid[a].0 == id {
                        lemma_slookup_found(mid, id, a);
                    }
                }
            }
        }
    }

    /// Drops the entry under `id`, if any.
    pub fn remove(&mut self, id: i64)
        requires
            old(self).inv(),
        ensures
            final(self).inv(),
            final(self).ttl_secs == old(self).ttl_secs,
            final(self).capacity == old(self).capacity,
            final(self).spec_entry(id) is None,
            forall|k: i64| k != id ==> final(self).spec_entry(k) == old(self).spec_entry(k),
    {
        let ghost oldm = self.model();
        match self.find_index(id) {
            Some(j) => {
                self.entries.remove(j);
                proof {
                    assert(self.model() =~= oldm.remove(j as int));
                    lemma_unique_remove(oldm, j as int);
                    assert forall|k: i64| true implies #[trigger] slookup(self.model(), k) == (
                    if oldm[j as int].0 == k {
                        None::<CachedView<<V as View>::V>>
                    } else {
                        slookup(oldm, k)
                    }) by {
                        lemma_slookup_remove(oldm, j as int, k);
                    }
                }
            },
            None => {
                proof {
                    lemma_slookup_absent(oldm, id);
                }
            },
        }
    }

    /// How many entries are stored, stale ones included.
    pub fn entry_count(&self) -> (r: u64)
        ensures
            r == self.model().len(),
    {
        self.entries.len() as u64
    }
}

} // verus!
