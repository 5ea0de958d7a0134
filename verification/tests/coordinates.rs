use steel_utils::math::floor_div;
use steel_utils::noise_router::block_pos::{pack_block_pos, unpack_x, unpack_y, unpack_z};
use steel_utils::noise_router::chunk_density_function::biome_coords::{from_block, to_block};
use steel_utils::noise_router::chunk_density_function::chunk_pos::{packed, MARKER};

#[test]
fn floor_div_rounds_down() {
    assert_eq!(floor_div(15, 16), 0);
    assert_eq!(floor_div(16, 16), 1);
    assert_eq!(floor_div(0, 16), 0);
    assert_eq!(floor_div(-1, 16), -1);
    assert_eq!(floor_div(-16, 16), -1);
    assert_eq!(floor_div(-17, 16), -2);
    assert_eq!(floor_div(-64, 12), -6);
    assert_eq!(floor_div(i32::MIN, 12), -178956971);
    assert_eq!(floor_div(i32::MAX, 40), 53687091);
}

#[test]
fn pack_block_pos_layout() {
    assert_eq!(pack_block_pos(1, 2, 3), (1i64 << 38) | (3i64 << 12) | 2);
    assert_eq!(pack_block_pos(1, 2, 3), 274_877_919_234);
    assert_eq!(pack_block_pos(-1, -1, -1), -1);
    assert_eq!(pack_block_pos(0, -4, 0), 4092);
    assert_eq!(pack_block_pos(0, 0, 0), 0);
}

#[test]
fn unpack_inverts_pack() {
    let cases = [
        (0, 0, 0),
        (1, 2, 3),
        (-1, -1, -1),
        (-33_554_432, -2048, -33_554_432),
        (33_554_431, 2047, 33_554_431),
        (123_456, -64, -987_654),
    ];
    for (x, y, z) in cases {
        let p = pack_block_pos(x, y, z);
        assert_eq!(unpack_x(p), x);
        assert_eq!(unpack_y(p), y);
        assert_eq!(unpack_z(p), z);
    }
}

#[test]
fn pack_inverts_unpack() {
    for p in [0i64, -1, i64::MIN, i64::MAX, 274_877_919_234, -123_456_789_012] {
        assert_eq!(pack_block_pos(unpack_x(p), unpack_y(p), unpack_z(p)), p);
    }
}

#[test]
fn unpack_wraps_out_of_range_coordinates() {
    // x keeps only its low 26 bits, read as a signed number
    let p = pack_block_pos(33_554_432, 0, 0);
    assert_eq!(unpack_x(p), -33_554_432);
    // y keeps only its low 12 bits
    let p = pack_block_pos(0, 2048, 0);
    assert_eq!(unpack_y(p), -2048);
    assert_eq!(unpack_x(i64::MAX), 33_554_431);
    assert_eq!(unpack_y(i64::MAX), -1);
    assert_eq!(unpack_z(i64::MAX), -1);
}

#[test]
fn biome_coordinates() {
    assert_eq!(from_block(7), 1);
    assert_eq!(from_block(8), 2);
    assert_eq!(from_block(-1), -1);
    assert_eq!(from_block(-4), -1);
    assert_eq!(from_block(-5), -2);
    assert_eq!(to_block(3), 12);
    assert_eq!(to_block(-3), -12);
    assert_eq!(to_block(0x2000_0000), i32::MIN);
    assert_eq!(from_block(to_block(-123_456)), -123_456);
    assert_eq!(to_block(from_block(-7)), -8);
}

#[test]
fn chunk_pos_packing() {
    assert_eq!(packed(1, 2), 1 | (2u64 << 32));
    assert_eq!(packed(u64::MAX, 0), 0xFFFF_FFFF);
    assert_eq!(packed(0, u64::MAX), 0xFFFF_FFFF_0000_0000);
    assert_eq!(packed(0x1_0000_0005, 7), packed(5, 7));
    assert_eq!(MARKER, packed(1_875_066, 1_875_066));
}
