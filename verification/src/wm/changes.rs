//! The per-turn change set: which published facets the event handlers
//! invalidated since the reactor last drained it.

use vstd::prelude::*;

verus! {

/// Accumulated invalidation for one turn of the event reactor.
#[derive(Debug, Clone, Copy, PartialEq, Eq, Structural, Default)]
pub struct WmChangeSet {
    pub windows: bool,
    pub workspaces: bool,
    pub panels: bool,
    pub work_area: bool,
}

impl WmChangeSet {
    pub open spec fn none() -> WmChangeSet {
        WmChangeSet { windows: false, workspaces: false, panels: false, work_area: false }
    }

    /// Drain the set: the marks so far come back and the set is cleared.
    pub fn take(&mut self) -> (r: Self)
        ensures
            r == *old(self),
            *final(self) == WmChangeSet::none(),
    {
        let out = *self;
        *self = WmChangeSet { windows: false, workspaces: false, panels: false, work_area: false };
        out
    }

    /// Any facet marked.
    pub fn any(self) -> (r: bool)
        ensures
            r == (self.windows || self.workspaces || self.panels || self.work_area),
    {
        self.windows || self.workspaces || self.panels || self.work_area
    }
}

} // verus!
