//! Watch on a resource in the store.

use vstd::prelude::*;

verus! {

/// Watch on a resource in the store.
#[derive(Clone, Debug, PartialEq, Eq)]
pub struct RestWatch {
    /// Callback used to notify the watcher of a change.
    pub callback: String,
    /// Id of the resource to watch on.
    pub resource: String,
}

impl RestWatch {
    /// A watch from the required fields only, which are all there are.
    pub fn new(callback: String, resource: String) -> (r: RestWatch)
        ensures
            r == (RestWatch { callback, resource }),
    {
        RestWatch { callback, resource }
    }

    /// A watch from all fields.
    pub fn new_all(callback: String, resource: String) -> (r: RestWatch)
        ensures
            r == (RestWatch { callback, resource }),
    {
        RestWatch { callback, resource }
    }
}

impl Default for RestWatch {
    fn default() -> (r: Self)
        ensures
            r.callback@.len() == 0,
            r.resource@.len() == 0,
    {
        RestWatch { callback: String::new(), resource: String::new() }
    }
}

} // verus!
