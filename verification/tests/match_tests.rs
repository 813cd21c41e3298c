use bitcoin::bip158::GcsFilterWriter;

use compact_filters::BlockFilter;
use compact_filters::BlockHash;
use compact_filters::MatchError;
use compact_filters::MemoryFilterStore;
use compact_filters::MemoryOracle;
use compact_filters::NetworkFilters;

fn hash_bytes_of(byte: u8) -> [u8; 32] {
    let mut bytes = [0u8; 32];
    bytes[0] = byte;
    bytes
}

/// Encodes a real BIP-158 filter over `elements`, keyed the way the reader
/// keys it: by the first 16 bytes of the block hash, with the standard
/// parameters.
fn filter_for_block(hash_bytes: &[u8; 32], elements: &[&[u8]]) -> BlockFilter {
    let k0 = u64::from_le_bytes(hash_bytes[0..8].try_into().unwrap());
    let k1 = u64::from_le_bytes(hash_bytes[8..16].try_into().unwrap());
    let mut content: Vec<u8> = Vec::new();
    let mut writer = GcsFilterWriter::new(&mut content, k0, k1, 784931, 19);
    for element in elements {
        writer.add_element(element);
    }
    writer.finish().unwrap();
    BlockFilter::new(content)
}

#[test]
fn scenario_filters_at_10_and_12() {
    // Filters at heights 10 and 12 only; filter 10 contains "a", filter 12
    // does not. A scan of [9, 13) for "a" reports exactly block 10's hash.
    let b10 = hash_bytes_of(10);
    let b11 = hash_bytes_of(11);
    let b12 = hash_bytes_of(12);
    let mut index = NetworkFilters::new(MemoryFilterStore::new(), 0);
    index.push_filter(10, filter_for_block(&b10, &[b"a"]));
    index.push_filter(12, filter_for_block(&b12, &[b"z"]));
    let mut oracle = MemoryOracle::new();
    oracle.insert_hash(10, BlockHash::new(b10));
    oracle.insert_hash(11, BlockHash::new(b11));
    oracle.insert_hash(12, BlockHash::new(b12));

    let queries = vec![b"a".to_vec()];
    let found = index.match_any(&queries, 9, 13, &oracle).unwrap();
    assert_eq!(found, vec![BlockHash::new(b10)]);
}

#[test]
fn matching_needs_the_right_block_key() {
    // The same elements keyed by another block's hash must not match: the
    // verdict depends on the block hash, not only on the filter bytes.
    let b10 = hash_bytes_of(10);
    let b12 = hash_bytes_of(12);
    let mut index = NetworkFilters::new(MemoryFilterStore::new(), 0);
    index.push_filter(10, filter_for_block(&b12, &[b"a"]));
    let mut oracle = MemoryOracle::new();
    oracle.insert_hash(10, BlockHash::new(b10));

    let queries = vec![b"a".to_vec()];
    let found = index.match_any(&queries, 10, 11, &oracle).unwrap();
    assert_eq!(found, Vec::new());
}

#[test]
fn empty_queries_match_nothing() {
    let b10 = hash_bytes_of(10);
    let mut index = NetworkFilters::new(MemoryFilterStore::new(), 0);
    index.push_filter(10, filter_for_block(&b10, &[b"a"]));
    let mut oracle = MemoryOracle::new();
    oracle.insert_hash(10, BlockHash::new(b10));

    let queries: Vec<Vec<u8>> = Vec::new();
    let found = index.match_any(&queries, 0, 20, &oracle).unwrap();
    assert_eq!(found, Vec::new());
}

#[test]
fn range_decomposition_concrete() {
    let b10 = hash_bytes_of(10);
    let b11 = hash_bytes_of(11);
    let b12 = hash_bytes_of(12);
    let mut index = NetworkFilters::new(MemoryFilterStore::new(), 0);
    index.push_filter(10, filter_for_block(&b10, &[b"a"]));
    index.push_filter(11, filter_for_block(&b11, &[b"z"]));
    index.push_filter(12, filter_for_block(&b12, &[b"a", b"z"]));
    let mut oracle = MemoryOracle::new();
    oracle.insert_hash(10, BlockHash::new(b10));
    oracle.insert_hash(11, BlockHash::new(b11));
    oracle.insert_hash(12, BlockHash::new(b12));

    let queries = vec![b"a".to_vec()];
    let whole = index.match_any(&queries, 9, 13, &oracle).unwrap();
    let mut parts = index.match_any(&queries, 9, 11, &oracle).unwrap();
    parts.extend(index.match_any(&queries, 11, 13, &oracle).unwrap());
    assert_eq!(whole, parts);
    assert_eq!(whole, vec![BlockHash::new(b10), BlockHash::new(b12)]);
}

#[test]
fn unresolved_height_fails_the_scan() {
    let b10 = hash_bytes_of(10);
    let mut index = NetworkFilters::new(MemoryFilterStore::new(), 0);
    index.push_filter(10, filter_for_block(&b10, &[b"a"]));
    let oracle = MemoryOracle::new();

    let queries = vec![b"a".to_vec()];
    let r = index.match_any(&queries, 9, 13, &oracle);
    assert_eq!(r, Err(MatchError::UnresolvedHeight(10)));
}

#[test]
fn malformed_filter_fails_the_scan() {
    // A filter that announces five elements and then ends is malformed: the
    // membership test reaches no verdict on it.
    let b10 = hash_bytes_of(10);
    let mut index = NetworkFilters::new(MemoryFilterStore::new(), 0);
    index.push_filter(10, BlockFilter::new(vec![5]));
    let mut oracle = MemoryOracle::new();
    oracle.insert_hash(10, BlockHash::new(b10));

    let queries = vec![b"a".to_vec()];
    let r = index.match_any(&queries, 9, 13, &oracle);
    assert_eq!(r, Err(MatchError::MalformedFilter(10)));
}

#[test]
fn oversized_count_is_malformed() {
    // Nine 0xFF bytes declare close to 2^64 elements; the reader cannot
    // scale that count, so the filter is treated as malformed and the
    // matcher is never asked — with or without queries.
    let b10 = hash_bytes_of(10);
    let mut index = NetworkFilters::new(MemoryFilterStore::new(), 0);
    index.push_filter(10, BlockFilter::new(vec![0xff; 9]));
    let mut oracle = MemoryOracle::new();
    oracle.insert_hash(10, BlockHash::new(b10));

    let queries = vec![b"a".to_vec()];
    assert_eq!(index.match_any(&queries, 9, 13, &oracle), Err(MatchError::MalformedFilter(10)));
    let no_queries: Vec<Vec<u8>> = Vec::new();
    assert_eq!(index.match_any(&no_queries, 9, 13, &oracle), Err(MatchError::MalformedFilter(10)));
}

#[test]
fn largest_scalable_count_reaches_the_matcher() {
    // The largest count the reader can scale is handed through to the
    // matcher, which then fails honestly on the truncated Golomb data.
    let b10 = hash_bytes_of(10);
    let largest = u64::MAX / 784931;
    let mut content = vec![0xff];
    content.extend_from_slice(&largest.to_le_bytes());
    let mut index = NetworkFilters::new(MemoryFilterStore::new(), 0);
    index.push_filter(10, BlockFilter::new(content));
    let mut oracle = MemoryOracle::new();
    oracle.insert_hash(10, BlockHash::new(b10));

    let queries = vec![b"a".to_vec()];
    assert_eq!(index.match_any(&queries, 9, 13, &oracle), Err(MatchError::MalformedFilter(10)));
    // An empty query set is decided before any Golomb data is needed.
    let no_queries: Vec<Vec<u8>> = Vec::new();
    assert_eq!(index.match_any(&no_queries, 9, 13, &oracle).unwrap(), Vec::new());
}

#[test]
fn absent_heights_are_skipped_silently() {
    // No filter in [0, 5): no oracle needed, no error, nothing reported.
    let index = NetworkFilters::new(MemoryFilterStore::new(), 0);
    let oracle = MemoryOracle::new();
    let queries = vec![b"a".to_vec()];
    let found = index.match_any(&queries, 0, 5, &oracle).unwrap();
    assert_eq!(found, Vec::new());
}

#[test]
fn empty_range_reports_nothing() {
    let b10 = hash_bytes_of(10);
    let mut index = NetworkFilters::new(MemoryFilterStore::new(), 0);
    index.push_filter(10, filter_for_block(&b10, &[b"a"]));
    let oracle = MemoryOracle::new();
    let queries = vec![b"a".to_vec()];
    assert_eq!(index.match_any(&queries, 10, 10, &oracle).unwrap(), Vec::new());
    assert_eq!(index.match_any(&queries, 13, 9, &oracle).unwrap(), Vec::new());
}
