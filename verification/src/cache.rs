//! A cache for the result of one computation: the computation runs at most
//! once, on first demand.
use vstd::prelude::*;

verus! {

/// A computation together with its result, once it has been asked for.
pub struct ComputeCache<T> where T: Fn() -> String {
    computation: T,
    result: Option<String>,
}

impl<T> ComputeCache<T> where T: Fn() -> String {
    /// The computation that the cache holds.
    pub closed spec fn computation(&self) -> T {
        self.computation
    }

    /// The result that the cache holds, if the computation has run.
    pub closed spec fn cached(&self) -> Option<String> {
        self.result
    }

    /// A cache that has not run its computation yet.
    pub fn new(computation: T) -> (cache: Self)
        ensures
            cache.computation() == computation,
            cache.cached() is None,
    {
        ComputeCache { computation, result: None }
    }

    /// Whether the computation has run.
    pub fn is_cached(&self) -> (cached: bool)
        ensures
            cached == self.cached() is Some,
    {
        self.result.is_some()
    }

    /// The result of the computation.  The first call runs the computation
    /// and keeps what it returned; every later call returns that same value
    /// without running anything.
    pub fn get_result(&mut self) -> (result: String)
        requires
            old(self).cached() is None ==> call_requires(old(self).computation(), ()),
        ensures
            final(self).computation() == old(self).computation(),
            final(self).cached() == Some(result),
            old(self).cached() is Some ==> old(self).cached() == Some(result),
            old(self).cached() is None ==> call_ensures(old(self).computation(), (), result),
    {
        match &self.result {
            Some(v) => v.clone(),
            None => {
                let v = (self.computation)();
                self.result = Some(v.clone());
                v
            },
        }
    }
}

} // verus!
