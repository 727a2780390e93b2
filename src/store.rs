//! An in-memory store of record, with the behaviour that the store port owes:
//! atomic creation of the whole aggregate and per-facet reads.
use vstd::prelude::*;

use crate::error::Error;
use crate::model::{
    copy_items, items_content, str_equals, Delivery, Item, Order, Payment, ValidationError,
};

verus! {

/// The last position in `orders` of the order `uid`, if any.
pub open spec fn order_slot(orders: Seq<Order>, uid: Seq<char>) -> Option<int>
    decreases orders.len(),
{
    if orders.len() == 0 {
        None
    } else if orders.last().order_uid@ == uid {
        Some(orders.len() - 1)
    } else {
        order_slot(orders.drop_last(), uid)
    }
}

pub proof fn lemma_order_slot_bounds(orders: Seq<Order>, uid: Seq<char>)
    ensures
        order_slot(orders, uid) matches Some(i) ==> 0 <= i < orders.len()
            && orders[i].order_uid@ == uid,
    decreases orders.len(),
{
    if orders.len() > 0 && orders.last().order_uid@ != uid {
        lemma_order_slot_bounds(orders.drop_last(), uid);
    }
}

/// Some order already pays with the transaction `t`.
pub open spec fn transaction_taken(orders: Seq<Order>, t: Seq<char>) -> bool {
    exists|i: int| 0 <= i < orders.len() && #[trigger] orders[i].payment.transaction@ == t
}

/// `stored` is `order` as kept by the store: same content, with row
/// identifiers given from `first_id` on, the delivery first, then the items in
/// their order.
pub open spec fn stored_as(stored: Order, order: Order, first_id: int) -> bool {
    &&& stored.same_content(order)
    &&& stored.delivery.id == Some(first_id as i32)
    &&& forall|k: int|
        0 <= k < stored.items@.len() ==> #[trigger] stored.items@[k].id == Some(
            (first_id + 1 + k) as i32,
        )
}

pub struct MemStore {
    pub orders: Vec<Order>,
    /// The next row identifier to give.
    pub next_id: i32,
    /// How many reads the store has served.
    pub reads: u64,
}

impl MemStore {
    pub open spec fn lookup(self, uid: Seq<char>) -> Option<Order> {
        match order_slot(self.orders@, uid) {
            Some(i) => Some(self.orders@[i]),
            None => None,
        }
    }

    /// Creation succeeds: the order is valid, the order and its payment are
    /// new, and there are identifiers left for its delivery and items.
    pub open spec fn can_create(self, order: Order) -> bool {
        &&& order.valid()
        &&& order_slot(self.orders@, order.order_uid@) is None
        &&& !transaction_taken(self.orders@, order.payment.transaction@)
        &&& 1 <= self.next_id
        &&& self.next_id + 1 + order.items@.len() <= i32::MAX
    }

    pub fn new() -> (r: MemStore)
        ensures
            r.orders@.len() == 0,
            r.next_id == 1,
            r.reads == 0,
    {
        MemStore { orders: Vec::new(), next_id: 1, reads: 0 }
    }

    fn find(&self, uid: &str) -> (r: Option<usize>)
        ensures
            r matches Some(i) ==> order_slot(self.orders@, uid@) == Some(i as int) && i
                < self.orders@.len(),
            r is None ==> order_slot(self.orders@, uid@) is None,
    {
        proof {
            lemma_order_slot_bounds(self.orders@, uid@);
            assert(self.orders@.subrange(0, self.orders@.len() as int) =~= self.orders@);
        }
        let mut i = self.orders.len();
        while i > 0
            invariant
                i <= self.orders@.len(),
                order_slot(self.orders@, uid@) == order_slot(
                    self.orders@.subrange(0, i as int),
                    uid@,
                ),
            decreases i,
        {
            proof {
                assert(self.orders@.subrange(0, i as int).drop_last() =~= self.orders@.subrange(
                    0,
                    i - 1,
                ));
            }
            if str_equals(self.orders[i - 1].order_uid.as_str(), uid) {
                return Some(i - 1);
            }
            i = i - 1;
        }
        None
    }

    fn pays_with(&self, transaction: &str) -> (r: bool)
        ensures
            r == transaction_taken(self.orders@, transaction@),
    {
        let mut i: usize = 0;
        while i < self.orders.len()
            invariant
                i <= self.orders@.len(),
                forall|j: int|
                    0 <= j < i ==> #[trigger] self.orders@[j].payment.transaction@
                        != transaction@,
            decreases self.orders@.len() - i,
        {
            if str_equals(self.orders[i].payment.transaction.as_str(), transaction) {
                return true;
            }
            i = i + 1;
        }
        false
    }

    /// Stores the whole aggregate, or nothing at all.
    pub fn create_order(&mut self, order: Order) -> (r: Result<(), Error>)
        ensures
            r is Ok <==> old(self).can_create(order),
            !order.valid() ==> r == Err::<(), Error>(Error::Invalid(ValidationError::PhoneWithoutPlus)),
            r is Err ==> final(self).orders@ == old(self).orders@ && final(self).next_id == old(
                self,
            ).next_id,
            r is Ok ==> final(self).orders@.len() == old(self).orders@.len() + 1
                && final(self).orders@.drop_last() == old(self).orders@ && stored_as(
                final(self).orders@.last(),
                order,
                old(self).next_id as int,
            ) && final(self).next_id == old(self).next_id + 1 + order.items@.len(),
            final(self).reads == old(self).reads,
    {
        if let Err(e) = order.validate() {
            return Err(Error::Invalid(e));
        }
        if let Some(_) = self.find(order.order_uid.as_str()) {
            return Err(
                Error::Conflict { target: String::from_str("order"), key: order.order_uid },
            );
        }
        if self.pays_with(order.payment.transaction.as_str()) {
            return Err(
                Error::Conflict {
                    target: String::from_str("payment"),
                    key: order.payment.transaction,
                },
            );
        }
        if self.next_id < 1 || order.items.len() >= (i32::MAX - self.next_id) as usize {
            return Err(Error::Store { message: String::from_str("row identifiers exhausted") });
        }
        let first_id = self.next_id;
        let mut stored = order;
        stored.delivery.id = Some(first_id);
        let mut items: Vec<Item> = Vec::new();
        let mut k: usize = 0;
        while k < stored.items.len()
            invariant
                k <= stored.items@.len(),
                stored.items@ == order.items@,
                1 <= first_id,
                first_id + 1 + order.items@.len() <= i32::MAX,
                items@.len() == k,
                forall|j: int|
                    0 <= j < k ==> (#[trigger] items@[j]).content() == order.items@[j].content()
                        && items@[j].id == Some((first_id + 1 + j) as i32),
            decreases stored.items@.len() - k,
        {
            let mut item = stored.items[k].copy();
            let id: i32 = first_id + 1 + k as i32;
            item.id = Some(id);
            items.push(item);
            k = k + 1;
        }
        proof {
            assert(items_content(items@) =~= items_content(order.items@));
        }
        stored.items = items;
        self.next_id = first_id + 1 + k as i32;
        self.orders.push(stored);
        proof {
            assert(self.orders@.drop_last() =~= old(self).orders@);
        }
        Ok(())
    }

    pub fn get_order(&mut self, order_id: &str) -> (r: Result<Option<Order>, Error>)
        requires
            old(self).reads < u64::MAX,
        ensures
            final(self).orders@ == old(self).orders@,
            final(self).next_id == old(self).next_id,
            final(self).reads == old(self).reads + 1,
            r is Ok,
            r->Ok_0 is Some <==> old(self).lookup(order_id@) is Some,
            r->Ok_0 is Some ==> r->Ok_0->0.same_as(old(self).lookup(order_id@)->0),
    {
        self.reads = self.reads + 1;
        match self.find(order_id) {
            Some(i) => Ok(Some(self.orders[i].copy())),
            None => Ok(None),
        }
    }

    pub fn get_delivery(&mut self, order_id: &str) -> (r: Result<Option<Delivery>, Error>)
        requires
            old(self).reads < u64::MAX,
        ensures
            final(self).orders@ == old(self).orders@,
            final(self).next_id == old(self).next_id,
            final(self).reads == old(self).reads + 1,
            r is Ok,
            r->Ok_0 is Some <==> old(self).lookup(order_id@) is Some,
            r->Ok_0 is Some ==> r->Ok_0->0 == old(self).lookup(order_id@)->0.delivery,
    {
        self.reads = self.reads + 1;
        match self.find(order_id) {
            Some(i) => Ok(Some(self.orders[i].delivery.copy())),
            None => Ok(None),
        }
    }

    pub fn get_payment(&mut self, order_id: &str) -> (r: Result<Option<Payment>, Error>)
        requires
            old(self).reads < u64::MAX,
        ensures
            final(self).orders@ == old(self).orders@,
            final(self).next_id == old(self).next_id,
            final(self).reads == old(self).reads + 1,
            r is Ok,
            r->Ok_0 is Some <==> old(self).lookup(order_id@) is Some,
            r->Ok_0 is Some ==> r->Ok_0->0 == old(self).lookup(order_id@)->0.payment,
    {
        self.reads = self.reads + 1;
        match self.find(order_id) {
            Some(i) => Ok(Some(self.orders[i].payment.copy())),
            None => Ok(None),
        }
    }

    /// The items of an order: not-found only when the order does not exist,
    /// an empty sequence when it exists without items.
    pub fn get_items(&mut self, order_id: &str) -> (r: Result<Option<Vec<Item>>, Error>)
        requires
            old(self).reads < u64::MAX,
        ensures
            final(self).orders@ == old(self).orders@,
            final(self).next_id == old(self).next_id,
            final(self).reads == old(self).reads + 1,
            r is Ok,
            r->Ok_0 is Some <==> old(self).lookup(order_id@) is Some,
            r->Ok_0 is Some ==> r->Ok_0->0@ == old(self).lookup(order_id@)->0.items@,
    {
        self.reads = self.reads + 1;
        match self.find(order_id) {
            Some(i) => Ok(Some(copy_items(&self.orders[i].items))),
            None => Ok(None),
        }
    }
}

/// An order read back after a successful creation is the order that was
/// given, row identifiers aside, with its items in the order they were given.
pub proof fn lemma_created_order_reads_back(before: MemStore, after: MemStore, order: Order)
    requires
        before.can_create(order),
        after.orders@.len() == before.orders@.len() + 1,
        after.orders@.drop_last() == before.orders@,
        stored_as(after.orders@.last(), order, before.next_id as int),
    ensures
        after.lookup(order.order_uid@) matches Some(o) && o.same_content(order) && items_content(
            o.items@,
        ) == items_content(order.items@),
{
}

} // verus!
