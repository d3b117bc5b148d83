//! A simple in-memory store.

use std::collections::HashMap;
use vstd::prelude::*;

verus! {

/// Helper trait to specify which other traits a type must fulfil
pub trait StoreItem: Clone + Send + Sync {

}

impl<T> StoreItem for T where T: Clone + Send + Sync {

}

/// A simple in memory store of items, mainly used for tests.
pub struct InMemoryStore<K, Item: StoreItem> {
    pub values: HashMap<K, Item>,
}

impl<K, Item: StoreItem> InMemoryStore<K, Item> {
    /// An empty store.
    pub fn new() -> (res: Self)
        ensures
            res.values@ == Map::<K, Item>::empty(),
    {
        InMemoryStore { values: HashMap::new() }
    }
}

} // verus!
