use vstd::prelude::*;

verus! {

/// A per-block compact filter: the encoded bytes of a probabilistic
/// (no-false-negative) membership structure over the block's contents,
/// a BIP-158 Golomb-coded set.
#[derive(Debug, Clone, PartialEq, Eq)]
pub struct BlockFilter {
    /// The encoded filter bytes, as produced by the (out-of-scope)
    /// filter-construction pipeline.
    pub content: Vec<u8>,
}

impl View for BlockFilter {
    type V = Seq<u8>;

    open spec fn view(&self) -> Seq<u8> {
        self.content@
    }
}

impl BlockFilter {
    /// Wraps already-encoded filter bytes.
    pub fn new(content: Vec<u8>) -> (r: BlockFilter)
        ensures
            r@ == content@,
    {
        BlockFilter { content }
    }
}

/// The identity of a block: its 32-byte hash.
#[derive(Debug, Clone, Copy, PartialEq, Eq)]
pub struct BlockHash {
    /// The hash bytes.
    pub bytes: [u8; 32],
}

impl View for BlockHash {
    type V = Seq<u8>;

    open spec fn view(&self) -> Seq<u8> {
        self.bytes@
    }
}

impl BlockHash {
    /// Wraps the 32 bytes of a block hash.
    pub fn new(bytes: [u8; 32]) -> (r: BlockHash)
        ensures
            r@ == bytes@,
    {
        BlockHash { bytes }
    }
}

} // verus!
