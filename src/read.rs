//! The cache-aside read of an order: the cache is asked first when one is
//! configured, the store is the fallback and the source of truth, and a store
//! hit is written back to the cache without the caller waiting for it.
//!
//! A cache that fails to answer is treated as a miss: the read is served by
//! the store and does not fail on the cache's account.
use vstd::prelude::*;

use crate::cache::{order_key, MemCache};
use crate::error::Error;
use crate::store::{lemma_order_slot_bounds, MemStore};
use crate::model::Order;

verus! {

#[derive(Clone, Copy, Debug, PartialEq, Eq, Structural)]
pub enum ReadState {
    CacheLookup,
    StoreLookup,
    Finished,
}

/// What the caller of the read does next.
#[derive(Debug)]
pub enum ReadAction {
    AskCache,
    AskStore,
    /// Answer with the order.
    Respond(Order),
    /// Answer with the order, and write it to the cache in a detached task
    /// whose outcome is ignored.
    RespondAndPopulate(Order),
    Fail(Error),
}

/// One read of the order `order_id`.
pub struct ReadThrough {
    pub order_id: String,
    pub cache_configured: bool,
    pub state: ReadState,
}

impl ReadThrough {
    pub fn start(order_id: &str, cache_configured: bool) -> (r: (ReadThrough, ReadAction))
        ensures
            r.0.order_id@ == order_id@,
            r.0.cache_configured == cache_configured,
            cache_configured ==> r.0.state == ReadState::CacheLookup && r.1 is AskCache,
            !cache_configured ==> r.0.state == ReadState::StoreLookup && r.1 is AskStore,
    {
        let id = String::from_str(order_id);
        if cache_configured {
            (ReadThrough { order_id: id, cache_configured, state: ReadState::CacheLookup }, ReadAction::AskCache)
        } else {
            (ReadThrough { order_id: id, cache_configured, state: ReadState::StoreLookup }, ReadAction::AskStore)
        }
    }

    /// The cache answered: a hit is the answer; a miss or a cache failure
    /// sends the read to the store.
    pub fn on_cache(&mut self, outcome: Result<Option<Order>, Error>) -> (r: ReadAction)
        requires
            old(self).state == ReadState::CacheLookup,
        ensures
            final(self).order_id == old(self).order_id,
            final(self).cache_configured == old(self).cache_configured,
            outcome matches Ok(Some(o)) ==> final(self).state == ReadState::Finished && r
                == ReadAction::Respond(o),
            !(outcome matches Ok(Some(_))) ==> final(self).state == ReadState::StoreLookup
                && r is AskStore,
    {
        match outcome {
            Ok(Some(order)) => {
                self.state = ReadState::Finished;
                ReadAction::Respond(order)
            },
            _ => {
                self.state = ReadState::StoreLookup;
                ReadAction::AskStore
            },
        }
    }

    /// The store answered: a hit is the answer, and is written back when a
    /// cache is configured; a miss is not-found; a failure is the answer.
    pub fn on_store(&mut self, outcome: Result<Option<Order>, Error>) -> (r: ReadAction)
        requires
            old(self).state == ReadState::StoreLookup,
        ensures
            final(self).order_id == old(self).order_id,
            final(self).cache_configured == old(self).cache_configured,
            final(self).state == ReadState::Finished,
            outcome matches Ok(Some(o)) ==> r == (if old(self).cache_configured {
                ReadAction::RespondAndPopulate(o)
            } else {
                ReadAction::Respond(o)
            }),
            outcome matches Ok(None) ==> (r matches ReadAction::Fail(
                Error::NotFound { id_name: n, id_val: v, target: t },
            ) && n@ == seq!['o', 'r', 'd', 'e', 'r', '_', 'i', 'd'] && v@ == old(self).order_id@
                && t@ == seq!['o', 'r', 'd', 'e', 'r']),
            outcome matches Err(e) ==> r == ReadAction::Fail(e),
    {
        self.state = ReadState::Finished;
        match outcome {
            Ok(Some(order)) => {
                if self.cache_configured {
                    ReadAction::RespondAndPopulate(order)
                } else {
                    ReadAction::Respond(order)
                }
            },
            Ok(None) => {
                proof {
                    reveal_strlit("order_id");
                    reveal_strlit("order");
                    assert("order_id"@ =~= seq!['o', 'r', 'd', 'e', 'r', '_', 'i', 'd']);
                    assert("order"@ =~= seq!['o', 'r', 'd', 'e', 'r']);
                }
                ReadAction::Fail(Error::not_found("order_id", self.order_id.as_str(), "order"))
            },
            Err(e) => ReadAction::Fail(e),
        }
    }
}

/// The cache holds the order `order_id`.
pub open spec fn cache_holds(cache: Option<MemCache>, order_id: Seq<char>) -> bool {
    cache matches Some(c) && c.cached(order_key(order_id)) is Some
}

/// Serves a read of `order_id` against an in-memory store and cache, running
/// the write-back to completion before it returns.
pub fn get_order_through(store: &mut MemStore, cache: &mut Option<MemCache>, order_id: &str) -> (r:
    Result<Order, Error>)
    requires
        old(store).reads < u64::MAX,
    ensures
        final(store).orders@ == old(store).orders@,
        final(store).next_id == old(store).next_id,
        (*final(cache) is Some) == (*old(cache) is Some),
        cache_holds(*old(cache), order_id@) ==> final(store).reads == old(store).reads && r is Ok
            && r->Ok_0.same_as(old(cache)->0.cached(order_key(order_id@))->0),
        !cache_holds(*old(cache), order_id@) ==> final(store).reads == old(store).reads + 1 && (r is Ok
            <==> old(store).lookup(order_id@) is Some) && (r is Ok ==> r->Ok_0.same_as(
            old(store).lookup(order_id@)->0)) && (r is Err ==> r->Err_0 is NotFound),
        r is Ok && *old(cache) is Some ==> cache_holds(*final(cache), order_id@),
{
    let (mut read, mut action) = ReadThrough::start(order_id, cache.is_some());
    if let ReadAction::AskCache = action {
        let outcome = match cache {
            Some(c) => c.get_order(order_id),
            None => Ok(None),
        };
        action = read.on_cache(outcome);
    }
    if let ReadAction::AskStore = action {
        let outcome = store.get_order(order_id);
        proof {
            lemma_order_slot_bounds(old(store).orders@, order_id@);
        }
        action = read.on_store(outcome);
    }
    match action {
        ReadAction::Respond(order) => Ok(order),
        ReadAction::RespondAndPopulate(order) => {
            if let Some(c) = cache {
                let _ = c.insert_order(&order);
            }
            Ok(order)
        },
        ReadAction::Fail(e) => Err(e),
        _ => {
            proof {
                assert(false);
            }
            Err(Error::Store { message: String::new() })
        },
    }
}

} // verus!
