//! The store that keeps the most recent context between updates.
use vstd::prelude::*;

use crate::context::{default_view, merged, ContextView, PageContext, Update};

verus! {

/// Holds the last materialised context; a single-field update is merged
/// against it. Callers that share one store across threads guard it with a
/// lock around each call of [`StateStore::apply`].
pub struct StateStore {
    last: Option<PageContext>,
}

impl StateStore {
    /// The context that [`StateStore::read`] hands out.
    pub closed spec fn current(&self) -> ContextView {
        match self.last {
            Some(c) => c@,
            None => default_view(),
        }
    }

    /// A store that has never been written.
    pub fn new() -> (r: StateStore)
        ensures
            r.current() == default_view(),
    {
        StateStore { last: None }
    }

    /// A copy of the held context, or the fresh context if none was written.
    pub fn read(&self) -> (r: PageContext)
        ensures
            r@ == self.current(),
    {
        match &self.last {
            Some(c) => c.clone(),
            None => PageContext::default(),
        }
    }

    /// Replaces the held context.
    pub fn write(&mut self, context: PageContext)
        ensures
            final(self).current() == context@,
    {
        self.last = Some(context);
    }

    /// Merges `update` into the held context, stores the result and returns it.
    pub fn apply(&mut self, update: &Update) -> (r: PageContext)
        ensures
            r@ == merged(old(self).current(), *update),
            final(self).current() == r@,
    {
        let next = PageContext::from_update(self.read(), update);
        self.write(next.clone());
        next
    }
}

} // verus!
