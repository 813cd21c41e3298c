//! A height-indexed index of per-block compact filters.
//!
//! The index keeps a cursor: the highest height for which a filter is known
//! to be stored. A range scan evaluates a set of byte-string queries against
//! every stored filter in a half-open height interval and resolves each
//! possibly-matching height to a block hash through a chain oracle.

mod filter;
mod membership;
mod network_filters;
mod oracle;
mod store;

pub use filter::BlockFilter;
pub use filter::BlockHash;
pub use membership::BIP158_M;
pub use membership::bip158_outcome;
pub use membership::filter_match;
pub use membership::has_oversized_count;
pub use membership::le64_at;
pub use membership::oversized_count;
pub use network_filters::MatchError;
pub use network_filters::NetworkFilters;
pub use network_filters::height_decided;
pub use network_filters::height_matches;
pub use network_filters::lemma_absent_height_never_reported;
pub use network_filters::lemma_cursor_monotonic;
pub use network_filters::lemma_empty_queries_match_nothing;
pub use network_filters::lemma_empty_store_matches_nothing;
pub use network_filters::lemma_push_then_visible;
pub use network_filters::lemma_pushes_independent;
pub use network_filters::lemma_reads_idempotent;
pub use network_filters::lemma_scan_decomposition;
pub use network_filters::matched_hashes;
pub use network_filters::range_decided;
pub use oracle::ChainOracle;
pub use oracle::MemoryOracle;
pub use store::BlockFilterStore;
pub use store::MemoryFilterStore;
pub use store::filter_lookup;
