//! The association-list model shared by every keyed store of this crate:
//! a sequence of key/value pairs with pairwise-distinct keys, read through
//! one lookup function.

use vstd::prelude::*;

verus! {

/// The value stored under `key`, if any.  Later pairs win, though every
/// store of this crate keeps keys unique anyway.
pub open spec fn slookup<K, V>(es: Seq<(K, V)>, key: K) -> Option<V>
    decreases es.len(),
{
    if es.len() == 0 {
        None
    } else if es.last().0 == key {
        Some(es.last().1)
    } else {
        slookup(es.drop_last(), key)
    }
}

/// No two pairs share a key.
pub open spec fn unique_keys<K, V>(es: Seq<(K, V)>) -> bool {
    forall|i: int, j: int| 0 <= i < j < es.len() ==> es[i].0 != es[j].0
}

pub proof fn lemma_slookup_push<K, V>(es: Seq<(K, V)>, p: (K, V), k: K)
    ensures
        slookup(es.push(p), k) == (if p.0 == k {
            Some(p.1)
        } else {
            slookup(es, k)
        }),
{
    assert(es.push(p).last() == p);
    assert(es.push(p).drop_last() =~= es);
}

pub proof fn lemma_slookup_found<K, V>(es: Seq<(K, V)>, k: K, j: int)
    requires
        unique_keys(es),
        0 <= j < es.len(),
        es[j].0 == k,
    ensures
        slookup(es, k) == Some(es[j].1),
    decreases es.len(),
{
    if j == es.len() - 1 {
    } else {
        assert(es.last().0 != k);
        let prior = es.drop_last();
        assert(prior[j] == es[j]);
        lemma_slookup_found(prior, k, j);
    }
}

pub proof fn lemma_slookup_absent<K, V>(es: Seq<(K, V)>, k: K)
    requires
        forall|i: int| 0 <= i < es.len() ==> es[i].0 != k,
    ensures
        slookup(es, k) is None,
    decreases es.len(),
{
    if es.len() > 0 {
        let prior = es.drop_last();
        assert(forall|i: int| 0 <= i < prior.len() ==> prior[i] == es[i]);
        lemma_slookup_absent(prior, k);
    }
}

pub proof fn lemma_unique_remove<K, V>(es: Seq<(K, V)>, j: int)
    requires
        unique_keys(es),
        0 <= j < es.len(),
    ensures
        unique_keys(es.remove(j)),
    decreases es.len(),
{
    let r = es.remove(j);
    assert forall|a: int, b: int| 0 <= a < b < r.len() implies r[a].0 != r[b].0 by {
        let a0 = if a < j {
            a
        } else {
            a + 1
        };
        let b0 = if b < j {
            b
        } else {
            b + 1
        };
        assert(r[a] == es[a0]);
        assert(r[b] == es[b0]);
    }
}

pub proof fn lemma_slookup_remove<K, V>(es: Seq<(K, V)>, j: int, k: K)
    requires
        unique_keys(es),
        0 <= j < es.len(),
    ensures
        slookup(es.remove(j), k) == (if es[j].0 == k {
            None::<V>
        } else {
            slookup(es, k)
        }),
    decreases es.len(),
{
    let r = es.remove(j);
    lemma_unique_remove(es, j);
    if es[j].0 == k {
        assert forall|i: int| 0 <= i < r.len() implies r[i].0 != k by {
            let i0 = if i < j {
                i
            } else {
                i + 1
            };
            assert(r[i] == es[i0]);
        }
        lemma_slookup_absent(r, k);
    } else {
        if j == es.len() - 1 {
            assert(r =~= es.drop_last());
        } else {
            assert(r =~= es.drop_last().remove(j).push(es.last()));
            lemma_unique_remove(es.drop_last(), j);
            lemma_slookup_push(es.drop_last().remove(j), es.last(), k);
            lemma_slookup_remove(es.drop_last(), j, k);
        }
    }
}

} // verus!
