//! How reads from the store are composed into answers.
use vstd::prelude::*;

use crate::error::Error;
use crate::model::{Delivery, Item, Locale, Order, Payment, Timestamp};

verus! {

/// An order row as the store keeps it: the delivery and the payment are
/// referred to by their keys.
#[derive(Debug)]
pub struct OrderRepoDto {
    pub order_uid: String,
    pub track_number: String,
    pub entry: String,
    pub delivery_id: i32,
    pub payment_id: String,
    pub locale: Locale,
    pub internal_signature: String,
    pub customer_id: String,
    pub delivery_service: String,
    pub shardkey: String,
    pub sm_id: i32,
    pub date_created: Timestamp,
    pub oof_shard: String,
}

impl Order {
    /// This order is the one that `row`, `delivery`, `payment` and `items` make up.
    pub open spec fn composed_of(
        self,
        row: OrderRepoDto,
        delivery: Delivery,
        payment: Payment,
        items: Seq<Item>,
    ) -> bool {
        &&& self.order_uid@ == row.order_uid@
        &&& self.track_number@ == row.track_number@
        &&& self.entry@ == row.entry@
        &&& self.delivery == delivery
        &&& self.payment == payment
        &&& self.items@ == items
        &&& self.locale == row.locale
        &&& self.internal_signature@ == row.internal_signature@
        &&& self.customer_id@ == row.customer_id@
        &&& self.delivery_service@ == row.delivery_service@
        &&& self.shardkey@ == row.shardkey@
        &&& self.sm_id == row.sm_id
        &&& self.date_created == row.date_created
        &&& self.oof_shard@ == row.oof_shard@
    }
}

/// Builds the aggregate from an order row and the rows fetched for it. A
/// delivery or payment that the row refers to but that is missing is an
/// integrity error, never a not-found.
pub fn compose_order(
    row: OrderRepoDto,
    delivery: Option<Delivery>,
    payment: Option<Payment>,
    items: Vec<Item>,
) -> (r: Result<Order, Error>)
    ensures
        delivery is Some && payment is Some <==> r is Ok,
        r is Ok ==> r->Ok_0.composed_of(row, delivery->0, payment->0, items@),
        delivery is None ==> (r matches Err(Error::Integrity { target: t, id_val: v }) && t@
            == seq!['d', 'e', 'l', 'i', 'v', 'e', 'r', 'y'] && v@ == row.order_uid@),
        delivery is Some && payment is None ==> (r matches Err(
            Error::Integrity { target: t, id_val: v },
        ) && t@ == seq!['p', 'a', 'y', 'm', 'e', 'n', 't'] && v@ == row.order_uid@),
{
    proof {
        reveal_strlit("delivery");
        reveal_strlit("payment");
        assert("delivery"@ =~= seq!['d', 'e', 'l', 'i', 'v', 'e', 'r', 'y']);
        assert("payment"@ =~= seq!['p', 'a', 'y', 'm', 'e', 'n', 't']);
    }
    let delivery = match delivery {
        Some(d) => d,
        None => {
            return Err(
                Error::Integrity {
                    target: String::from_str("delivery"),
                    id_val: row.order_uid,
                },
            );
        },
    };
    let payment = match payment {
        Some(p) => p,
        None => {
            return Err(
                Error::Integrity { target: String::from_str("payment"), id_val: row.order_uid },
            );
        },
    };
    Ok(
        Order {
            order_uid: row.order_uid,
            track_number: row.track_number,
            entry: row.entry,
            delivery,
            payment,
            items,
            locale: row.locale,
            internal_signature: row.internal_signature,
            customer_id: row.customer_id,
            delivery_service: row.delivery_service,
            shardkey: row.shardkey,
            sm_id: row.sm_id,
            date_created: row.date_created,
            oof_shard: row.oof_shard,
        },
    )
}

/// Reconciles the count of matching order rows with the items found through
/// the link table: no order is not-found, an order without items has an
/// empty sequence.
pub fn reconcile_items(order_count: i64, items: Vec<Item>) -> (r: Option<Vec<Item>>)
    ensures
        order_count > 0 <==> r is Some,
        r is Some ==> r->0@ == items@,
{
    if order_count > 0 {
        Some(items)
    } else {
        None
    }
}

/// Turns an absent answer about the order `order_id` into a not-found error
/// that names `target`.
pub fn require_found<T>(found: Option<T>, order_id: &str, target: &str) -> (r: Result<T, Error>)
    ensures
        found is Some ==> r == Ok::<T, Error>(found->0),
        found is None ==> (r matches Err(Error::NotFound { id_name: n, id_val: v, target: t })
            && n@ == seq!['o', 'r', 'd', 'e', 'r', '_', 'i', 'd'] && v@ == order_id@ && t@
            == target@),
{
    match found {
        Some(value) => Ok(value),
        None => {
            proof {
                reveal_strlit("order_id");
                assert("order_id"@ =~= seq!['o', 'r', 'd', 'e', 'r', '_', 'i', 'd']);
            }
            Err(Error::not_found("order_id", order_id, target))
        },
    }
}

} // verus!
