use vstd::prelude::*;

use crate::filter::BlockFilter;
use crate::filter::BlockHash;
use crate::membership::bip158_match_any;
use crate::membership::filter_match;
use crate::membership::has_oversized_count;
use crate::membership::oversized_count;
use crate::oracle::ChainOracle;
use crate::store::BlockFilterStore;
use crate::store::filter_lookup;

verus! {

/// Why a range scan stopped instead of completing.
#[derive(Debug, Clone, Copy, PartialEq, Eq, Structural)]
pub enum MatchError {
    /// A filter is stored at this height, but the chain oracle does not
    /// resolve it: the requested range exceeds the known chain.
    UnresolvedHeight(u32),
    /// The filter bytes stored at this height are malformed: the membership
    /// test failed to reach a verdict on them.
    MalformedFilter(u32),
}

/// Whether the scan can decide height `h`: either no filter is stored there
/// (the height is skipped), or the oracle resolves `h` and the membership
/// test reaches a verdict on the stored filter.
pub open spec fn height_decided(
    store: Map<u64, Seq<u8>>,
    chain: Map<u32, BlockHash>,
    queries: Seq<Seq<u8>>,
    h: u32,
) -> bool {
    store.contains_key(h as u64) ==> {
        &&& chain.contains_key(h)
        &&& filter_match(store[h as u64], chain[h]@, queries) is Some
    }
}

/// Whether a scan reports height `h`: a filter is stored there, the oracle
/// resolves `h`, and the membership test reports a possible match.
pub open spec fn height_matches(
    store: Map<u64, Seq<u8>>,
    chain: Map<u32, BlockHash>,
    queries: Seq<Seq<u8>>,
    h: u32,
) -> bool {
    &&& store.contains_key(h as u64)
    &&& chain.contains_key(h)
    &&& filter_match(store[h as u64], chain[h]@, queries) == Some(true)
}

/// Every height in `[start, end)` can be decided by a scan.
pub open spec fn range_decided(
    store: Map<u64, Seq<u8>>,
    chain: Map<u32, BlockHash>,
    queries: Seq<Seq<u8>>,
    start: u32,
    end: u32,
) -> bool {
    forall|h: u32| start <= h < end ==> #[trigger] height_decided(store, chain, queries, h)
}

/// The block hashes a scan of `[start, end)` reports, in ascending height
/// order: the hash of every height in the interval whose stored filter
/// possibly matches.
pub open spec fn matched_hashes(
    store: Map<u64, Seq<u8>>,
    chain: Map<u32, BlockHash>,
    queries: Seq<Seq<u8>>,
    start: u32,
    end: u32,
) -> Seq<BlockHash>
    decreases end - start,
{
    if start >= end {
        Seq::empty()
    } else {
        let last = (end - 1) as u32;
        matched_hashes(store, chain, queries, start, last) + (if height_matches(
            store,
            chain,
            queries,
            last,
        ) {
            seq![chain[last]]
        } else {
            Seq::empty()
        })
    }
}

/// A height-indexed index of per-block filters over a store capability,
/// together with the height cursor: the highest height for which a filter is
/// known to be stored.
pub struct NetworkFilters<Storage: BlockFilterStore> {
    filters: Storage,
    height: u32,
}

impl<Storage: BlockFilterStore> NetworkFilters<Storage> {
    /// The stored filter bytes, by height.
    pub closed spec fn contents(&self) -> Map<u64, Seq<u8>> {
        self.filters.contents()
    }

    /// The height cursor.
    pub closed spec fn cursor(&self) -> u32 {
        self.height
    }

    /// The data-visibility invariant between the store and the cursor: a
    /// filter is stored at the cursor height. `push_filter` establishes it,
    /// whatever state came before, since its store write lands before the
    /// cursor moves; `new` does not check it — the caller is trusted there,
    /// a documented boundary.
    pub open spec fn cursor_covered(&self) -> bool {
        self.contents().contains_key(self.cursor() as u64)
    }

    /// Builds an index over an existing store, trusting the caller that
    /// `height` reflects the store's current contents (a documented trust
    /// boundary: nothing is validated).
    pub fn new(filters: Storage, height: u32) -> (r: Self)
        ensures
            r.contents() == filters.contents(),
            r.cursor() == height,
    {
        NetworkFilters { filters, height }
    }

    /// Fetches the filter at `height`, if one is stored. No side effects.
    pub fn get_filter(&self, height: u32) -> (r: Option<BlockFilter>)
        ensures
            match r {
                Some(f) => filter_lookup(self.contents(), height as u64) == Some(f@),
                None => filter_lookup(self.contents(), height as u64) is None,
            },
    {
        self.filters.get_filter(height as u64)
    }

    /// Stores `filter` at `height`, then moves the cursor to `height`. The
    /// cursor holds the height of the last push, so a single writer that
    /// needs a non-decreasing cursor must present heights in non-decreasing
    /// order.
    pub fn push_filter(&mut self, height: u32, filter: BlockFilter)
        ensures
            final(self).contents() == old(self).contents().insert(height as u64, filter@),
            final(self).cursor() == height,
    {
        self.filters.put_filter(height as u64, filter);
        self.height = height;
    }

    /// The current cursor value.
    pub fn get_height(&self) -> (r: u32)
        ensures
            r == self.cursor(),
    {
        self.height
    }

    /// Scans `[start_height, end_height)` in ascending order and reports the
    /// hash of every height whose stored filter possibly matches one of the
    /// queries (false positives are inherent; false negatives cannot occur
    /// for heights whose filter is stored). Heights with no stored filter are
    /// skipped silently. The scan fails, naming the first offending height,
    /// if the oracle cannot resolve a height whose filter is stored, or if
    /// stored filter bytes are malformed.
    pub fn match_any<Chain: ChainOracle>(
        &self,
        query: &Vec<Vec<u8>>,
        start_height: u32,
        end_height: u32,
        chain: &Chain,
    ) -> (r: Result<Vec<BlockHash>, MatchError>)
        ensures
            r is Ok <==> range_decided(
                self.contents(),
                chain.resolved(),
                query.deep_view(),
                start_height,
                end_height,
            ),
            match r {
                Ok(blocks) => blocks@ == matched_hashes(
                    self.contents(),
                    chain.resolved(),
                    query.deep_view(),
                    start_height,
                    end_height,
                ),
                Err(e) => match e {
                    MatchError::UnresolvedHeight(h) => {
                        &&& start_height <= h < end_height
                        &&& self.contents().contains_key(h as u64)
                        &&& !chain.resolved().contains_key(h)
                        &&& range_decided(
                            self.contents(),
                            chain.resolved(),
                            query.deep_view(),
                            start_height,
                            h,
                        )
                    },
                    MatchError::MalformedFilter(h) => {
                        &&& start_height <= h < end_height
                        &&& self.contents().contains_key(h as u64)
                        &&& chain.resolved().contains_key(h)
                        &&& filter_match(
                            self.contents()[h as u64],
                            chain.resolved()[h]@,
                            query.deep_view(),
                        ) is None
                        &&& range_decided(
                            self.contents(),
                            chain.resolved(),
                            query.deep_view(),
                            start_height,
                            h,
                        )
                    },
                },
            },
    {
        let ghost store = self.contents();
        let ghost chainm = chain.resolved();
        let ghost qs = query.deep_view();
        let mut blocks: Vec<BlockHash> = Vec::new();
        let mut height: u32 = start_height;
        while height < end_height
            invariant
                start_height <= height,
                height <= end_height || height == start_height,
                store == self.contents(),
                chainm == chain.resolved(),
                qs == query.deep_view(),
                blocks@ == matched_hashes(store, chainm, qs, start_height, height),
                range_decided(store, chainm, qs, start_height, height),
            decreases end_height - height,
        {
            match self.get_filter(height) {
                None => {
                    proof {
                        assert(!store.contains_key(height as u64));
                        assert(height_decided(store, chainm, qs, height));
                    }
                }
                Some(filter) => {
                    proof {
                        assert(store.contains_key(height as u64));
                        assert(filter@ == store[height as u64]);
                    }
                    match chain.get_block_hash(height) {
                        None => {
                            proof {
                                assert(!height_decided(store, chainm, qs, height));
                            }
                            return Err(MatchError::UnresolvedHeight(height));
                        }
                        Some(hash) => {
                            proof {
                                assert(hash == chainm[height]);
                            }
                            if has_oversized_count(&filter.content) {
                                proof {
                                    assert(filter_match(
                                        store[height as u64],
                                        chainm[height]@,
                                        qs,
                                    ) is None);
                                    assert(!height_decided(store, chainm, qs, height));
                                }
                                return Err(MatchError::MalformedFilter(height));
                            }
                            match bip158_match_any(&filter, &hash, query) {
                                Ok(verdict) => {
                                    proof {
                                        assert(filter_match(
                                            store[height as u64],
                                            chainm[height]@,
                                            qs,
                                        ) == Some(verdict));
                                        assert(height_decided(store, chainm, qs, height));
                                    }
                                    if verdict {
                                        blocks.push(hash);
                                    }
                                }
                                Err(_) => {
                                    proof {
                                        assert(filter_match(
                                            store[height as u64],
                                            chainm[height]@,
                                            qs,
                                        ) is None);
                                        assert(!height_decided(store, chainm, qs, height));
                                    }
                                    return Err(MatchError::MalformedFilter(height));
                                }
                            }
                        }
                    }
                }
            }
            proof {
                assert(matched_hashes(store, chainm, qs, start_height, (height + 1) as u32)
                    == matched_hashes(store, chainm, qs, start_height, height) + (
                if height_matches(store, chainm, qs, height) {
                    seq![chainm[height]]
                } else {
                    Seq::<BlockHash>::empty()
                }));
                assert(blocks@ == matched_hashes(store, chainm, qs, start_height, (height + 1) as u32));
            }
            height = height + 1;
        }
        proof {
            if start_height >= end_height {
                assert(matched_hashes(store, chainm, qs, start_height, end_height)
                    == Seq::<BlockHash>::empty());
                assert(blocks@ == Seq::<BlockHash>::empty());
            }
        }
        Ok(blocks)
    }
}

/// With no filter ever stored, a fetch at any height sees nothing, and a scan
/// of any range reports nothing, whatever the oracle and the queries.
pub proof fn lemma_empty_store_matches_nothing(
    chain: Map<u32, BlockHash>,
    queries: Seq<Seq<u8>>,
    start: u32,
    end: u32,
)
    ensures
        forall|h: u64| filter_lookup(Map::<u64, Seq<u8>>::empty(), h) is None,
        matched_hashes(Map::<u64, Seq<u8>>::empty(), chain, queries, start, end)
            == Seq::<BlockHash>::empty(),
    decreases end - start,
{
    if start < end {
        lemma_empty_store_matches_nothing(chain, queries, start, (end - 1) as u32);
        assert(!height_matches(Map::<u64, Seq<u8>>::empty(), chain, queries, (end - 1) as u32));
        assert(matched_hashes(Map::<u64, Seq<u8>>::empty(), chain, queries, start, end)
            =~= Seq::<BlockHash>::empty());
    }
}

/// After `push_filter(height, filter)` — which leaves the contents extended
/// at `height` and the cursor at `height` — a fetch at `height` sees exactly
/// the pushed filter bytes, and `get_height` returns `height`.
pub proof fn lemma_push_then_visible<Storage: BlockFilterStore>(
    before: NetworkFilters<Storage>,
    after: NetworkFilters<Storage>,
    height: u32,
    content: Seq<u8>,
)
    requires
        after.contents() == before.contents().insert(height as u64, content),
        after.cursor() == height,
    ensures
        filter_lookup(after.contents(), height as u64) == Some(content),
        after.cursor_covered(),
{
}

/// Under the single-writer sequential discipline — each push presented at a
/// height no smaller than the cursor — a push never moves the cursor down.
pub proof fn lemma_cursor_monotonic<Storage: BlockFilterStore>(
    before: NetworkFilters<Storage>,
    after: NetworkFilters<Storage>,
    height: u32,
    content: Seq<u8>,
)
    requires
        before.cursor() <= height,
        after.contents() == before.contents().insert(height as u64, content),
        after.cursor() == height,
    ensures
        before.cursor() <= after.cursor(),
{
}

/// Range decomposition: over one store/oracle snapshot, a scan of `[a, b)`
/// reports exactly what a scan of `[a, m)` followed by a scan of `[m, b)`
/// reports, and it completes exactly when both halves complete.
pub proof fn lemma_scan_decomposition(
    store: Map<u64, Seq<u8>>,
    chain: Map<u32, BlockHash>,
    queries: Seq<Seq<u8>>,
    a: u32,
    m: u32,
    b: u32,
)
    requires
        a <= m <= b,
    ensures
        matched_hashes(store, chain, queries, a, b) == matched_hashes(store, chain, queries, a, m)
            + matched_hashes(store, chain, queries, m, b),
        range_decided(store, chain, queries, a, b) <==> (range_decided(store, chain, queries, a, m)
            && range_decided(store, chain, queries, m, b)),
    decreases b - m,
{
    if m == b {
        assert(matched_hashes(store, chain, queries, m, b) == Seq::<BlockHash>::empty());
        assert(matched_hashes(store, chain, queries, a, b) =~= matched_hashes(
            store,
            chain,
            queries,
            a,
            m,
        ) + matched_hashes(store, chain, queries, m, b));
    } else {
        lemma_scan_decomposition(store, chain, queries, a, m, (b - 1) as u32);
        assert(matched_hashes(store, chain, queries, a, b) =~= matched_hashes(
            store,
            chain,
            queries,
            a,
            m,
        ) + matched_hashes(store, chain, queries, m, b));
    }
}

/// No query, no match: with an empty query set a scan reports nothing,
/// whatever the store, the oracle and the range — the membership test's
/// verdict on an empty query set is negative wherever a verdict is reached.
/// Such a scan completes whenever the oracle resolves every height in range
/// that stores a filter and no stored filter in the range declares an
/// oversized element count.
pub proof fn lemma_empty_queries_match_nothing(
    store: Map<u64, Seq<u8>>,
    chain: Map<u32, BlockHash>,
    start: u32,
    end: u32,
)
    ensures
        matched_hashes(store, chain, Seq::<Seq<u8>>::empty(), start, end)
            == Seq::<BlockHash>::empty(),
        (forall|h: u32|
            start <= h < end && #[trigger] store.contains_key(h as u64) ==> chain.contains_key(h)
                && !oversized_count(store[h as u64])) ==> range_decided(
            store,
            chain,
            Seq::<Seq<u8>>::empty(),
            start,
            end,
        ),
    decreases end - start,
{
    if start < end {
        lemma_empty_queries_match_nothing(store, chain, start, (end - 1) as u32);
        assert(!height_matches(store, chain, Seq::<Seq<u8>>::empty(), (end - 1) as u32));
        assert(matched_hashes(store, chain, Seq::<Seq<u8>>::empty(), start, end)
            =~= Seq::<BlockHash>::empty());
    }
    if forall|h: u32|
        start <= h < end && #[trigger] store.contains_key(h as u64) ==> chain.contains_key(h)
            && !oversized_count(store[h as u64]) {
        assert forall|h: u32| start <= h < end implies #[trigger] height_decided(
            store,
            chain,
            Seq::<Seq<u8>>::empty(),
            h,
        ) by {
            if store.contains_key(h as u64) {
                assert(chain.contains_key(h));
                assert(!oversized_count(store[h as u64]));
                assert(filter_match(store[h as u64], chain[h]@, Seq::<Seq<u8>>::empty())
                    == Some(false));
            }
        }
    }
}

/// A height with no stored filter is never reported: a scan of a range
/// containing it reports exactly what the scans of the two subranges around
/// it report.
pub proof fn lemma_absent_height_never_reported(
    store: Map<u64, Seq<u8>>,
    chain: Map<u32, BlockHash>,
    queries: Seq<Seq<u8>>,
    start: u32,
    end: u32,
    h: u32,
)
    requires
        !store.contains_key(h as u64),
        start <= h < end,
    ensures
        matched_hashes(store, chain, queries, start, end) == matched_hashes(
            store,
            chain,
            queries,
            start,
            h,
        ) + matched_hashes(store, chain, queries, (h + 1) as u32, end),
{
    lemma_scan_decomposition(store, chain, queries, start, h, end);
    lemma_scan_decomposition(store, chain, queries, h, (h + 1) as u32, end);
    assert(!height_matches(store, chain, queries, h));
    assert(matched_hashes(store, chain, queries, h, h) == Seq::<BlockHash>::empty());
    assert(matched_hashes(store, chain, queries, h, (h + 1) as u32)
        =~= Seq::<BlockHash>::empty());
    assert(matched_hashes(store, chain, queries, start, end) =~= matched_hashes(
        store,
        chain,
        queries,
        start,
        h,
    ) + matched_hashes(store, chain, queries, (h + 1) as u32, end));
}

/// Pushes at two distinct heights never clobber one another: whichever order
/// they land in, both filters are fetchable afterwards (the cursor holds the
/// height of whichever push landed last).
pub proof fn lemma_pushes_independent(
    store: Map<u64, Seq<u8>>,
    h1: u64,
    f1: Seq<u8>,
    h2: u64,
    f2: Seq<u8>,
)
    requires
        h1 != h2,
    ensures
        filter_lookup(store.insert(h1, f1).insert(h2, f2), h1) == Some(f1),
        filter_lookup(store.insert(h1, f1).insert(h2, f2), h2) == Some(f2),
{
}

/// Reads are idempotent: what `get_filter` returns is a function of the store
/// contents and the height alone — as `get_height`'s result is of the cursor
/// alone — so repeated calls with no intervening writes agree.
pub proof fn lemma_reads_idempotent(
    store: Map<u64, Seq<u8>>,
    height: u64,
    first: Option<Seq<u8>>,
    second: Option<Seq<u8>>,
)
    requires
        first == filter_lookup(store, height),
        second == filter_lookup(store, height),
    ensures
        first == second,
{
}

} // verus!
