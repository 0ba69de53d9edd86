//! The storage listing portion of the snapshot.

use vstd::prelude::*;

verus! {

/// Names of the items in the user's current storage directory, as the
/// backend last listed them.
#[derive(Clone, Debug)]
pub struct Storage {
    /// Becomes true once a listing was retrieved from the backend.
    pub initialized: bool,
    pub items: Vec<String>,
}

impl Storage {
    /// An empty, not yet initialized listing.
    pub fn empty() -> (r: Storage)
        ensures
            !r.initialized,
            r.items@ =~= Seq::<String>::empty(),
    {
        Storage { initialized: false, items: Vec::new() }
    }
}

} // verus!
