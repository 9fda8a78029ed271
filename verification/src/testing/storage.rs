//! A contract storage held in memory.
use vstd::prelude::*;

verus! {

/// A key-value store that starts out empty.
#[derive(Debug)]
pub struct MockStorage {
    data: Vec<(Vec<u8>, Vec<u8>)>,
}

impl MockStorage {
    /// The number of entries held.
    pub closed spec fn entries(&self) -> nat {
        self.data@.len()
    }

    /// A store without entries.
    pub fn new() -> (storage: Self)
        ensures
            storage.entries() == 0,
    {
        MockStorage { data: Vec::new() }
    }

    /// Whether the store holds no entry.
    pub fn is_empty(&self) -> (empty: bool)
        ensures
            empty == (self.entries() == 0),
    {
        self.data.len() == 0
    }
}

impl Default for MockStorage {
    fn default() -> (storage: Self)
        ensures
            storage.entries() == 0,
    {
        MockStorage::new()
    }
}

} // verus!
