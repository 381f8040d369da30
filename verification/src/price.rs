//! Price resolution: the amount an invocation pays, either a little-endian
//! override supplied in the instruction data or a fixed default.

use vstd::prelude::*;

verus! {

/// Default price in the smallest native unit, charged whenever the caller
/// supplies no override in the instruction data.
pub const DEFAULT_PRICE_LAMPORTS: u64 = 200_000_000;

/// The unsigned 64-bit integer held little-endian in the first 8 bytes:
/// the byte at offset 0 is the least significant.
pub open spec fn le_u64_at_start(bytes: Seq<u8>) -> int
    recommends
        bytes.len() >= 8,
{
    bytes[0] as int + bytes[1] as int * 0x100 + bytes[2] as int * 0x1_0000 + bytes[3] as int
        * 0x100_0000 + bytes[4] as int * 0x1_0000_0000 + bytes[5] as int * 0x100_0000_0000
        + bytes[6] as int * 0x1_0000_0000_0000 + bytes[7] as int * 0x100_0000_0000_0000
}

/// The price an invocation pays: the override decoded from bytes [0, 8) when
/// the instruction data holds at least 8 bytes, the default otherwise.
/// Bytes at offset 8 and beyond never enter the decode.
pub open spec fn price_of(data: Seq<u8>) -> int {
    if data.len() >= 8 {
        le_u64_at_start(data)
    } else {
        DEFAULT_PRICE_LAMPORTS as int
    }
}

/// Resolves the price for one invocation from its raw instruction data.
pub fn resolve_price(data: &[u8]) -> (price: u64)
    ensures
        price == price_of(data@),
{
    if data.len() >= 8 {
        (data[0] as u64) + (data[1] as u64) * 0x100 + (data[2] as u64) * 0x1_0000 + (data[3] as u64)
            * 0x100_0000 + (data[4] as u64) * 0x1_0000_0000 + (data[5] as u64) * 0x100_0000_0000
            + (data[6] as u64) * 0x1_0000_0000_0000 + (data[7] as u64) * 0x100_0000_0000_0000
    } else {
        DEFAULT_PRICE_LAMPORTS
    }
}

/// The price depends on bytes [0, 8) alone: two instruction buffers that
/// agree on their first 8 bytes pay the same price, whatever follows.
pub proof fn lemma_price_ignores_trailing_bytes(d1: Seq<u8>, d2: Seq<u8>)
    requires
        d1.len() >= 8,
        d2.len() >= 8,
        d1.take(8) == d2.take(8),
    ensures
        price_of(d1) == price_of(d2),
{
    assert forall|i: int| 0 <= i < 8 implies d1[i] == d2[i] by {
        assert(d1.take(8)[i] == d1[i]);
        assert(d2.take(8)[i] == d2[i]);
    }
}

/// Instruction data of fewer than 8 bytes, the empty buffer included,
/// resolves to the fixed default price.
pub proof fn lemma_short_data_pays_default(data: Seq<u8>)
    requires
        data.len() < 8,
    ensures
        price_of(data) == DEFAULT_PRICE_LAMPORTS as int,
{
}

} // verus!
