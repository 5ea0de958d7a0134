//! Chunk position utilities: two 32-bit coordinates packed into one `u64`.
use vstd::prelude::*;

verus! {

/// A chunk outside of normal bounds: `packed(1_875_066, 1_875_066)`.
pub const MARKER: u64 = 8_053_347_149_716_602;

/// The low 32 bits of `x` in the low half and the low 32 bits of `y` in the high half.
pub open spec fn packed_column(x: int, y: int) -> int {
    x % 0x1_0000_0000 + (y % 0x1_0000_0000) * 0x1_0000_0000
}

/// Packs two coordinates into one `u64`.
pub fn packed(x: u64, y: u64) -> (r: u64)
    ensures
        r as int == packed_column(x as int, y as int),
{
    let r: u64 = (x & 0xFFFF_FFFF) | ((y & 0xFFFF_FFFF) << 32);
    assert(r as int == (x as int) % 0x1_0000_0000 + ((y as int) % 0x1_0000_0000) * 0x1_0000_0000)
        by (bit_vector)
        requires
            r == (x & 0xFFFF_FFFFu64) | ((y & 0xFFFF_FFFFu64) << 32u64),
    ;
    r
}

/// The packed value keeps both halves: its low half is `x` and its high half `y`, up to
/// their low 32 bits; so two columns pack to the same value exactly when their low 32 bits
/// agree.
pub proof fn lemma_packed_halves(x: u64, y: u64, x2: u64, y2: u64)
    ensures
        packed_column(x as int, y as int) % 0x1_0000_0000 == (x as int) % 0x1_0000_0000,
        packed_column(x as int, y as int) / 0x1_0000_0000 == (y as int) % 0x1_0000_0000,
        packed_column(x as int, y as int) == packed_column(x2 as int, y2 as int) <==> ((x as int)
            % 0x1_0000_0000 == (x2 as int) % 0x1_0000_0000 && (y as int) % 0x1_0000_0000 == (
        y2 as int) % 0x1_0000_0000),
{
    assert(((x as int) % 0x1_0000_0000 + ((y as int) % 0x1_0000_0000) * 0x1_0000_0000)
        % 0x1_0000_0000 == (x as int) % 0x1_0000_0000) by (bit_vector);
    assert(((x as int) % 0x1_0000_0000 + ((y as int) % 0x1_0000_0000) * 0x1_0000_0000)
        / 0x1_0000_0000 == (y as int) % 0x1_0000_0000) by (bit_vector);
    assert(((x2 as int) % 0x1_0000_0000 + ((y2 as int) % 0x1_0000_0000) * 0x1_0000_0000)
        % 0x1_0000_0000 == (x2 as int) % 0x1_0000_0000) by (bit_vector);
    assert(((x2 as int) % 0x1_0000_0000 + ((y2 as int) % 0x1_0000_0000) * 0x1_0000_0000)
        / 0x1_0000_0000 == (y2 as int) % 0x1_0000_0000) by (bit_vector);
}

/// The marker is the packing of the column `(1_875_066, 1_875_066)`.
pub proof fn lemma_marker()
    ensures
        MARKER as int == packed_column(1_875_066, 1_875_066),
{
}

} // verus!
