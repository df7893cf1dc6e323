//! The CRC-32 checksum of a run of bytes, computed by the `crc32fast` crate.

use vstd::prelude::*;

verus! {

/// The CRC-32 (IEEE) checksum that `crc32fast::hash` computes for the bytes `data`.
pub uninterp spec fn crc32(data: Seq<u8>) -> u32;

/// Calls `crc32fast::hash`, which feeds `data` to a fresh hasher and finalizes it.
/// Trusted: the result depends on the bytes of `data` alone. Which number it is for
/// given bytes is not stated.
#[verifier::external_body]
pub(crate) fn checksum(data: &[u8]) -> (sum: u32)
    ensures
        sum == crc32(data@),
{
    crc32fast::hash(data)
}

} // verus!
