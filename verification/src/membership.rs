use vstd::prelude::*;

use crate::filter::BlockFilter;
use crate::filter::BlockHash;

verus! {

/// The error type of bitcoin's BIP-158 filter reader. It is carried through
/// unopened; the index reports such a failure through its own error type.
#[verifier::external_type_specification]
#[verifier::external_body]
pub struct ExBip158Error(bitcoin::bip158::Error);

/// BIP-158's false-positive parameter M: the filter reader scales the
/// declared element count by it before matching.
pub const BIP158_M: u64 = 784931;

/// The value of the eight bytes at `i`, read little-endian.
pub open spec fn le64_at(bytes: Seq<u8>, i: int) -> u64
    recommends
        0 <= i,
        i + 8 <= bytes.len(),
{
    (bytes[i] as u64) | ((bytes[i + 1] as u64) << 8) | ((bytes[i + 2] as u64) << 16) | ((bytes[i
        + 3] as u64) << 24) | ((bytes[i + 4] as u64) << 32) | ((bytes[i + 5] as u64) << 40) | ((
    bytes[i + 6] as u64) << 48) | ((bytes[i + 7] as u64) << 56)
}

/// Whether the filter's leading element-count varint declares a count too
/// large for the reader to scale by M within `u64`. Only the nine-byte
/// varint form — first byte `0xFF`, the count read little-endian from the
/// next eight bytes — can reach such a count: the shorter forms top out at
/// `u32::MAX`, whose scaled value fits, and a truncated or non-minimal
/// header is read as a count of zero.
pub open spec fn oversized_count(content: Seq<u8>) -> bool {
    content.len() >= 9 && content[0] == 0xffu8 && le64_at(content, 1) > u64::MAX / BIP158_M
}

/// Reads the filter's element-count header and reports whether its declared
/// count is too large for the reader to scale by M within `u64`. Such
/// content is malformed: the membership test reaches no verdict on it, and
/// it is rejected before the filter reader is asked.
pub fn has_oversized_count(content: &Vec<u8>) -> (r: bool)
    ensures
        r == oversized_count(content@),
{
    if content.len() >= 9 && content[0] == 0xff {
        let count: u64 = (content[1] as u64) | ((content[2] as u64) << 8) | ((content[3] as u64)
            << 16) | ((content[4] as u64) << 24) | ((content[5] as u64) << 32) | ((content[6]
            as u64) << 40) | ((content[7] as u64) << 48) | ((content[8] as u64) << 56);
        count > u64::MAX / BIP158_M
    } else {
        false
    }
}

/// What `bitcoin::bip158::BlockFilter::match_any` decides for a filter with
/// the given encoded bytes, keyed by the given block-hash bytes, against the
/// given (non-empty) query set: `Some(verdict)` when it reaches a verdict,
/// `None` when it fails on malformed filter bytes. The decision reads only
/// these three values, so it is a function of them alone.
pub uninterp spec fn bip158_outcome(
    content: Seq<u8>,
    block_hash: Seq<u8>,
    queries: Seq<Seq<u8>>,
) -> Option<bool>;

/// The verdict of the membership test. Filter bytes that declare an
/// oversized element count are malformed: no verdict, whatever the queries.
/// On other bytes an empty query set never matches (bitcoin's reader decides
/// that right after scaling the count header, before any Golomb decoding, so
/// it cannot fail there); any other query set gets whatever the filter
/// reader decides.
pub open spec fn filter_match(
    content: Seq<u8>,
    block_hash: Seq<u8>,
    queries: Seq<Seq<u8>>,
) -> Option<bool> {
    if oversized_count(content) {
        None
    } else if queries.len() == 0 {
        Some(false)
    } else {
        bip158_outcome(content, block_hash, queries)
    }
}

/// Relies on `bitcoin::bip158::BlockFilter::match_any`: whether the filter's
/// Golomb-coded set possibly contains any of the query byte-strings, keyed by
/// the block hash. The verdict depends on the filter bytes, the hash bytes
/// and the queries alone. The reader first decodes the leading element-count
/// varint and scales it by M — `requires` excludes the contents where that
/// scaling would overflow and the call would not return — then returns
/// `Ok(false)` for an empty query set before any Golomb decoding, so `Err`
/// arises only from malformed Golomb data under a non-empty query set.
#[verifier::external_body]
pub(crate) fn bip158_match_any(
    filter: &BlockFilter,
    block_hash: &BlockHash,
    queries: &Vec<Vec<u8>>,
) -> (r: Result<bool, bitcoin::bip158::Error>)
    requires
        !oversized_count(filter@),
    ensures
        queries@.len() == 0 ==> (match r {
            Ok(verdict) => verdict == false,
            Err(_) => false,
        }),
        queries@.len() > 0 ==> (match r {
            Ok(verdict) => bip158_outcome(filter@, block_hash@, queries.deep_view())
                == Some(verdict),
            Err(_) => bip158_outcome(filter@, block_hash@, queries.deep_view()) is None,
        }),
{
    let f = bitcoin::bip158::BlockFilter::new(&filter.content);
    let h = <bitcoin::BlockHash as bitcoin::hashes::Hash>::from_byte_array(block_hash.bytes);
    f.match_any(&h, queries.iter().map(|q| q.as_slice()))
}

} // verus!
