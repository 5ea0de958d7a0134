//! Biome coordinate utilities: a biome cell spans four blocks per axis.
use vstd::prelude::*;
use crate::noise_router::block_pos::signed_field;

verus! {

/// The biome coordinate that holds block coordinate `coord`: `⌊coord / 4⌋`.
pub open spec fn biome_of_block(coord: int) -> int {
    coord / 4
}

/// The first block coordinate of biome coordinate `coord`: `4 * coord`, wrapped to a
/// signed 32-bit value as a left shift does.
pub open spec fn block_of_biome(coord: int) -> int {
    signed_field(coord * 4, 0x1_0000_0000)
}

/// The biome coordinate holding block coordinate `coord`.
pub fn from_block(coord: i32) -> (r: i32)
    ensures
        r as int == biome_of_block(coord as int),
{
    let r: i32 = coord >> 2;
    assert(r as int == (coord as int) / 4) by (bit_vector)
        requires
            r == coord >> 2u32,
    ;
    r
}

/// The first block coordinate of biome coordinate `coord`.
pub fn to_block(coord: i32) -> (r: i32)
    ensures
        r as int == block_of_biome(coord as int),
{
    let r: i32 = coord << 2;
    assert(r as int == signed_field(coord * 4, 0x1_0000_0000)) by (bit_vector)
        requires
            r == coord << 2u32,
    ;
    r
}

/// Going from a biome to its first block and back gives the biome, wherever the block
/// coordinate fits in an `i32`; going from a block to its biome and back rounds the block
/// down to a multiple of four.
pub proof fn lemma_biome_block_round_trip(biome: i32, block: i32)
    ensures
        -0x2000_0000 <= biome < 0x2000_0000 ==> block_of_biome(biome as int) == biome * 4,
        -0x2000_0000 <= biome < 0x2000_0000 ==> biome_of_block(block_of_biome(biome as int))
            == biome,
        block_of_biome(biome_of_block(block as int)) == block - (block as int) % 4,
{
    assert(-0x2000_0000 <= biome < 0x2000_0000 ==> signed_field(biome * 4, 0x1_0000_0000) == biome
        * 4) by (bit_vector);
    assert(signed_field(((block as int) / 4) * 4, 0x1_0000_0000) == block - (block as int) % 4)
        by (bit_vector);
}

} // verus!
