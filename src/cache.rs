//! Cache keys and an in-memory look-aside cache of whole orders.
use vstd::prelude::*;

use crate::error::Error;
use crate::model::{str_equals, Order};

verus! {

/// How long a cached order lives, in seconds, unless configured otherwise.
pub const DEFAULT_CACHE_TTL_SECS: u64 = 60;

/// Key under which an order is cached: a fixed prefix, then the order's id.
pub open spec fn order_key(order_id: Seq<char>) -> Seq<char> {
    seq!['o', 'r', 'd', 'e', 'r'] + order_id
}

pub fn get_order_key(order_id: &str) -> (r: String)
    ensures
        r@ == order_key(order_id@),
{
    proof {
        reveal_strlit("order");
        assert("order"@ =~= seq!['o', 'r', 'd', 'e', 'r']);
    }
    let mut key = String::from_str("order");
    key.append(order_id);
    key
}

/// Distinct order ids never share a key.
pub proof fn lemma_order_key_injective(a: Seq<char>, b: Seq<char>)
    requires
        order_key(a) == order_key(b),
    ensures
        a == b,
{
    assert(a =~= order_key(a).subrange(5, order_key(a).len() as int));
    assert(b =~= order_key(b).subrange(5, order_key(b).len() as int));
}

pub struct CacheEntry {
    pub key: String,
    pub order: Order,
}

/// The last position in `entries` with key `key`, if any.
pub open spec fn entry_slot(entries: Seq<CacheEntry>, key: Seq<char>) -> Option<int>
    decreases entries.len(),
{
    if entries.len() == 0 {
        None
    } else if entries.last().key@ == key {
        Some(entries.len() - 1)
    } else {
        entry_slot(entries.drop_last(), key)
    }
}

pub proof fn lemma_entry_slot_bounds(entries: Seq<CacheEntry>, key: Seq<char>)
    ensures
        entry_slot(entries, key) matches Some(i) ==> 0 <= i < entries.len() && entries[i].key@
            == key,
    decreases entries.len(),
{
    if entries.len() > 0 && entries.last().key@ != key {
        lemma_entry_slot_bounds(entries.drop_last(), key);
    }
}

/// A cache whose later entries shadow earlier ones with the same key.
pub struct MemCache {
    pub entries: Vec<CacheEntry>,
}

impl MemCache {
    pub open spec fn cached(self, key: Seq<char>) -> Option<Order> {
        match entry_slot(self.entries@, key) {
            Some(i) => Some(self.entries@[i].order),
            None => None,
        }
    }

    pub fn new() -> (r: MemCache)
        ensures
            r.entries@.len() == 0,
    {
        MemCache { entries: Vec::new() }
    }

    fn find(&self, key: &str) -> (r: Option<usize>)
        ensures
            r matches Some(i) ==> entry_slot(self.entries@, key@) == Some(i as int) && i
                < self.entries@.len(),
            r is None ==> entry_slot(self.entries@, key@) is None,
    {
        proof {
            lemma_entry_slot_bounds(self.entries@, key@);
            assert(self.entries@.subrange(0, self.entries@.len() as int) =~= self.entries@);
        }
        let mut i = self.entries.len();
        while i > 0
            invariant
                i <= self.entries@.len(),
                entry_slot(self.entries@, key@) == entry_slot(
                    self.entries@.subrange(0, i as int),
                    key@,
                ),
            decreases i,
        {
            proof {
                assert(self.entries@.subrange(0, i as int).drop_last()
                    =~= self.entries@.subrange(0, i - 1));
            }
            if str_equals(self.entries[i - 1].key.as_str(), key) {
                return Some(i - 1);
            }
            i = i - 1;
        }
        None
    }

    pub fn get_order(&self, order_id: &str) -> (r: Result<Option<Order>, Error>)
        ensures
            r is Ok,
            r->Ok_0 is Some <==> self.cached(order_key(order_id@)) is Some,
            r->Ok_0 is Some ==> r->Ok_0->0.same_as(self.cached(order_key(order_id@))->0),
    {
        let key = get_order_key(order_id);
        match self.find(key.as_str()) {
            Some(i) => Ok(Some(self.entries[i].order.copy())),
            None => Ok(None),
        }
    }

    pub fn insert_order(&mut self, order: &Order) -> (r: Result<(), Error>)
        ensures
            r is Ok,
            final(self).cached(order_key(order.order_uid@)) matches Some(o) && o.same_as(*order),
            forall|key: Seq<char>|
                key != order_key(order.order_uid@) ==> final(self).cached(key) == old(
                    self,
                ).cached(key),
    {
        let key = get_order_key(order.order_uid.as_str());
        self.entries.push(CacheEntry { key, order: order.copy() });
        proof {
            assert(final(self).entries@.drop_last() =~= old(self).entries@);
            assert forall|k: Seq<char>| k != order_key(order.order_uid@) implies final(self).cached(
                k,
            ) == old(self).cached(k) by {
                lemma_entry_slot_bounds(old(self).entries@, k);
            }
        }
        Ok(())
    }
}

} // verus!
