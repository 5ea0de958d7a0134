//! Packing of block positions into a single `i64`, in the `BlockPos` layout:
//! 26 bits of `x` at the top, then 26 bits of `z`, then 12 bits of `y` at the bottom.
use vstd::prelude::*;

verus! {

pub const PACKED_X_BITS: u32 = 26;
pub const PACKED_Y_BITS: u32 = 12;
pub const PACKED_Z_BITS: u32 = 26;
pub const X_OFFSET: u32 = 38;
pub const Z_OFFSET: u32 = 12;
pub const PACKED_X_MASK: i64 = 0x3ff_ffff;
pub const PACKED_Y_MASK: i64 = 0xfff;
pub const PACKED_Z_MASK: i64 = 0x3ff_ffff;

/// The two's-complement value of the low bits of `v`, for a field of `modulus` values
/// (`modulus` a power of two): `v mod modulus`, read as a signed number.
pub open spec fn signed_field(v: int, modulus: int) -> int {
    let m = v % modulus;
    if m >= modulus / 2 {
        m - modulus
    } else {
        m
    }
}

/// The packed value of a position: the low 26 bits of `x` times `2^38`, plus the low 26
/// bits of `z` times `2^12`, plus the low 12 bits of `y`, read as a signed 64-bit number.
pub open spec fn packed_value(x: int, y: int, z: int) -> int {
    signed_field(
        (x % 0x400_0000) * 0x40_0000_0000 + (z % 0x400_0000) * 0x1000 + (y % 0x1000),
        0x1_0000_0000_0000_0000,
    )
}

/// The `x` coordinate stored in a packed value: its top 26 bits, signed.
pub open spec fn packed_x(p: int) -> int {
    p / 0x40_0000_0000
}

/// The `y` coordinate stored in a packed value: its low 12 bits, signed.
pub open spec fn packed_y(p: int) -> int {
    signed_field(p, 0x1000)
}

/// The `z` coordinate stored in a packed value: bits 12 to 37, signed.
pub open spec fn packed_z(p: int) -> int {
    signed_field(p / 0x1000, 0x400_0000)
}

/// Whether a position fits the packed layout without losing bits.
pub open spec fn packable(x: int, y: int, z: int) -> bool {
    &&& -0x200_0000 <= x < 0x200_0000
    &&& -0x800 <= y < 0x800
    &&& -0x200_0000 <= z < 0x200_0000
}

/// Packs a block position into an `i64`.
pub fn pack_block_pos(x: i32, y: i32, z: i32) -> (r: i64)
    ensures
        r as int == packed_value(x as int, y as int, z as int),
{
    let r: i64 = (((x as i64) & PACKED_X_MASK) << X_OFFSET) | (((z as i64) & PACKED_Z_MASK)
        << Z_OFFSET) | ((y as i64) & PACKED_Y_MASK);
    assert(r as int == packed_value(x as int, y as int, z as int)) by (bit_vector)
        requires
            r == (((x as i64) & 0x3ff_ffff) << 38u32) | (((z as i64) & 0x3ff_ffff) << 12u32) | (
            (y as i64) & 0xfff),
    ;
    r
}

/// The `x` coordinate of a packed position.
pub fn unpack_x(packed: i64) -> (r: i32)
    ensures
        r as int == packed_x(packed as int),
        -0x200_0000 <= r < 0x200_0000,
{
    let x: i64 = packed >> X_OFFSET;
    let r: i32 = ((x << (64 - PACKED_X_BITS)) >> (64 - PACKED_X_BITS)) as i32;
    assert(r as int == packed_x(packed as int) && -0x200_0000 <= r < 0x200_0000) by (bit_vector)
        requires
            r == ((((packed >> 38u32) << 38u32) >> 38u32) as i32),
    ;
    r
}

/// The `y` coordinate of a packed position.
pub fn unpack_y(packed: i64) -> (r: i32)
    ensures
        r as int == packed_y(packed as int),
        -0x800 <= r < 0x800,
{
    let y: i64 = packed & PACKED_Y_MASK;
    let r: i32 = ((y << (64 - PACKED_Y_BITS)) >> (64 - PACKED_Y_BITS)) as i32;
    assert(r as int == packed_y(packed as int) && -0x800 <= r < 0x800) by (bit_vector)
        requires
            r == ((((packed & 0xfff) << 52u32) >> 52u32) as i32),
    ;
    r
}

/// The `z` coordinate of a packed position.
pub fn unpack_z(packed: i64) -> (r: i32)
    ensures
        r as int == packed_z(packed as int),
        -0x200_0000 <= r < 0x200_0000,
{
    let z: i64 = (packed >> Z_OFFSET) & PACKED_Z_MASK;
    let r: i32 = ((z << (64 - PACKED_Z_BITS)) >> (64 - PACKED_Z_BITS)) as i32;
    assert(r as int == packed_z(packed as int) && -0x200_0000 <= r < 0x200_0000) by (bit_vector)
        requires
            r == (((((packed >> 12u32) & 0x3ff_ffff) << 38u32) >> 38u32) as i32),
    ;
    r
}

/// Unpacking a packed position gives back the position, for every position that fits the layout.
pub proof fn lemma_unpack_pack(x: i32, y: i32, z: i32)
    requires
        packable(x as int, y as int, z as int),
    ensures
        packed_x(packed_value(x as int, y as int, z as int)) == x,
        packed_y(packed_value(x as int, y as int, z as int)) == y,
        packed_z(packed_value(x as int, y as int, z as int)) == z,
{
    assert(packed_x(packed_value(x as int, y as int, z as int)) == x) by (bit_vector)
        requires
            -0x200_0000 <= x < 0x200_0000,
    ;
    assert(packed_y(packed_value(x as int, y as int, z as int)) == y) by (bit_vector)
        requires
            -0x800 <= y < 0x800,
    ;
    assert(packed_z(packed_value(x as int, y as int, z as int)) == z) by (bit_vector)
        requires
            -0x200_0000 <= z < 0x200_0000,
    ;
}

/// Packing the three coordinates of any packed value gives back that value: every `i64`
/// is the packing of exactly one position of the layout.
pub proof fn lemma_pack_unpack(p: i64)
    ensures
        packable(packed_x(p as int), packed_y(p as int), packed_z(p as int)),
        packed_value(packed_x(p as int), packed_y(p as int), packed_z(p as int)) == p,
{
    assert(packable(packed_x(p as int), packed_y(p as int), packed_z(p as int))) by (bit_vector);
    assert(packed_value(packed_x(p as int), packed_y(p as int), packed_z(p as int)) == p)
        by (bit_vector);
}

/// The layout puts `x` in the top bits, then `z`, then `y` in the low 12 bits: for a position
/// with non-negative coordinates that fits, the packed value is `x·2^38 + z·2^12 + y`; and a
/// negative `y` is stored as `y + 4096`.
pub proof fn lemma_packed_layout(x: i32, y: i32, z: i32)
    requires
        packable(x as int, y as int, z as int),
        0 <= x,
        0 <= z,
    ensures
        0 <= y ==> packed_value(x as int, y as int, z as int) == x * 0x40_0000_0000 + z * 0x1000 + y,
        y < 0 ==> packed_value(x as int, y as int, z as int) == x * 0x40_0000_0000 + z * 0x1000 + y
            + 0x1000,
{
    assert(0 <= y ==> packed_value(x as int, y as int, z as int) == x * 0x40_0000_0000 + z * 0x1000 + y)
        by (bit_vector)
        requires
            0 <= x < 0x200_0000,
            0 <= z < 0x200_0000,
            -0x800 <= y < 0x800,
    ;
    assert(y < 0 ==> packed_value(x as int, y as int, z as int) == x * 0x40_0000_0000 + z * 0x1000 + y
        + 0x1000) by (bit_vector)
        requires
            0 <= x < 0x200_0000,
            0 <= z < 0x200_0000,
            -0x800 <= y < 0x800,
    ;
}

} // verus!
