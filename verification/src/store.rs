use std::collections::HashMap;

use vstd::prelude::*;

use crate::filter::BlockFilter;

verus! {

broadcast use vstd::std_specs::hash::group_hash_axioms;

/// What a fetch at `height` sees in a store with the given contents.
pub open spec fn filter_lookup(store: Map<u64, Seq<u8>>, height: u64) -> Option<Seq<u8>> {
    if store.contains_key(height) {
        Some(store[height])
    } else {
        None
    }
}

/// The keyed persistence capability behind the filter index: filter bytes by
/// block height. The index trusts an implementation to behave as a map, as
/// these contracts state.
pub trait BlockFilterStore: Sized {
    /// The store's contents: the filter bytes stored at each height.
    spec fn contents(&self) -> Map<u64, Seq<u8>>;

    /// Fetches the filter stored at `height`, if any.
    fn get_filter(&self, height: u64) -> (r: Option<BlockFilter>)
        ensures
            match r {
                Some(f) => filter_lookup(self.contents(), height) == Some(f@),
                None => filter_lookup(self.contents(), height) is None,
            },
    ;

    /// Stores `filter` at `height`, replacing any filter already there.
    fn put_filter(&mut self, height: u64, filter: BlockFilter)
        ensures
            final(self).contents() == old(self).contents().insert(height, filter@),
    ;
}

/// An in-memory filter store: a hash map from height to filter bytes.
pub struct MemoryFilterStore {
    filters: HashMap<u64, Vec<u8>>,
}

impl MemoryFilterStore {
    /// An empty store.
    pub fn new() -> (r: MemoryFilterStore)
        ensures
            r.contents() == Map::<u64, Seq<u8>>::empty(),
    {
        let r = MemoryFilterStore { filters: HashMap::new() };
        proof {
            assert(r.contents() =~= Map::<u64, Seq<u8>>::empty());
        }
        r
    }
}

impl BlockFilterStore for MemoryFilterStore {
    closed spec fn contents(&self) -> Map<u64, Seq<u8>> {
        self.filters@.map_values(|v: Vec<u8>| v@)
    }

    fn get_filter(&self, height: u64) -> (r: Option<BlockFilter>) {
        match self.filters.get(&height) {
            Some(v) => {
                let content = v.clone();
                proof {
                    assert(content@ =~= v@);
                }
                Some(BlockFilter { content })
            }
            None => None,
        }
    }

    fn put_filter(&mut self, height: u64, filter: BlockFilter) {
        let ghost fv = filter@;
        self.filters.insert(height, filter.content);
        proof {
            assert(self.contents() =~= old(self).contents().insert(height, fv));
        }
    }
}

} // verus!
