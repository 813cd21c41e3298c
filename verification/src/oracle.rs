use std::collections::HashMap;

use vstd::prelude::*;

use crate::filter::BlockHash;

verus! {

broadcast use vstd::std_specs::hash::group_hash_axioms;

/// The chain-state capability behind a range scan: it resolves a block
/// height to the hash of the block at that height. The scan trusts an
/// implementation to behave as a map, as this contract states.
pub trait ChainOracle: Sized {
    /// The block hash at each height the chain resolves.
    spec fn resolved(&self) -> Map<u32, BlockHash>;

    /// Resolves `height` to the hash of the block at that height, or
    /// `None` when the chain does not reach `height`.
    fn get_block_hash(&self, height: u32) -> (r: Option<BlockHash>)
        ensures
            match r {
                Some(h) => self.resolved().contains_key(height) && h == self.resolved()[height],
                None => !self.resolved().contains_key(height),
            },
    ;
}

/// An in-memory chain oracle: a hash map from height to block hash.
pub struct MemoryOracle {
    hashes: HashMap<u32, BlockHash>,
}

impl MemoryOracle {
    /// An oracle that resolves no height.
    pub fn new() -> (r: MemoryOracle)
        ensures
            r.resolved() == Map::<u32, BlockHash>::empty(),
    {
        MemoryOracle { hashes: HashMap::new() }
    }

    /// Records that the block at `height` has hash `hash`.
    pub fn insert_hash(&mut self, height: u32, hash: BlockHash)
        ensures
            final(self).resolved() == old(self).resolved().insert(height, hash),
    {
        self.hashes.insert(height, hash);
    }
}

impl ChainOracle for MemoryOracle {
    closed spec fn resolved(&self) -> Map<u32, BlockHash> {
        self.hashes@
    }

    fn get_block_hash(&self, height: u32) -> (r: Option<BlockHash>) {
        match self.hashes.get(&height) {
            Some(h) => Some(*h),
            None => None,
        }
    }
}

} // verus!
