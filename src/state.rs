//! What request handlers share: the store and, optionally, the cache.
use vstd::prelude::*;

verus! {

#[derive(Clone)]
pub struct AppState<R, C> where R: Clone, C: Clone {
    pub repo: R,
    pub cache: Option<C>,
}

impl<R, C> AppState<R, C> where R: Clone, C: Clone {
    pub fn new(repo: R, cache: Option<C>) -> (r: Self)
        ensures
            r.repo == repo,
            r.cache == cache,
    {
        AppState { repo, cache }
    }
}

} // verus!
