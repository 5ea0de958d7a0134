use steel_utils::noise_router::chunk_density_function::chunk_pos::packed;
use steel_utils::noise_router::chunk_density_function::{
    cache_once_lookup, cell_corner_indices, column_key, yz_to_buf_index, CacheOnceLookup,
    CellBlockPosition, ChunkNoiseFunctionBuilderOptions, FlatCacheLayout,
};
use steel_utils::noise_router::data::{
    BinaryData, BinaryOperation, UnaryData, UnaryOperation, WeirdScaledData, WeirdScaledMapper,
    WrapperType,
};
use steel_utils::noise_router::density_function::{NoisePos, UnblendedNoisePos};

#[test]
fn builder_options_hold_their_sizes() {
    let options = ChunkNoiseFunctionBuilderOptions::new(4, 8, 48, 4, -8, 12, 4);
    assert_eq!(options.horizontal_cell_block_count, 4);
    assert_eq!(options.vertical_cell_block_count, 8);
    assert_eq!(options.vertical_cell_count, 48);
    assert_eq!(options.horizontal_cell_count, 4);
    assert_eq!(options.start_biome_x, -8);
    assert_eq!(options.start_biome_z, 12);
    assert_eq!(options.horizontal_biome_end, 4);
}

#[test]
fn cell_cache_slots() {
    let position = CellBlockPosition::new(1, 2, 3, 4, 8);
    assert_eq!(position.cell_cache_index(), ((8 - 1 - 2) * 4 + 1) * 4 + 3);
    assert_eq!(position.cell_cache_index(), 87);
    assert_eq!(CellBlockPosition::new(0, 7, 0, 4, 8).cell_cache_index(), 0);
    assert_eq!(CellBlockPosition::new(3, 0, 3, 4, 8).cell_cache_index(), 4 * 4 * 8 - 1);
    let mut all = Vec::new();
    for y in 0..8 {
        for x in 0..4 {
            for z in 0..4 {
                all.push(CellBlockPosition::new(x, y, z, 4, 8).cell_cache_index());
            }
        }
    }
    all.sort_unstable();
    assert_eq!(all, (0..128).collect::<Vec<usize>>());
}

#[test]
fn cell_position_updates() {
    let mut position = CellBlockPosition::new(1, 2, 3, 4, 8);
    assert_eq!(position.update_position(1, 5, 3), (false, true, false));
    assert_eq!(position, CellBlockPosition::new(1, 5, 3, 4, 8));
    assert_eq!(position.update_position(0, 5, 2), (true, false, true));
    assert_eq!(position, CellBlockPosition::new(0, 5, 2, 4, 8));
}

#[test]
fn flat_cache_slots() {
    let layout = FlatCacheLayout::new(-2, 3, 4);
    assert_eq!(layout.len(), 25);
    assert_eq!(layout.xz_to_index_const(1, 2), 7);
    // regions beyond the layout still get their index
    assert_eq!(layout.xz_to_index_const(10, 3), 53);
    assert_eq!(layout.xz_to_index_const(0, 9), 9);
    // block (-8, 12) is biome (-2, 3): the first region
    assert_eq!(layout.slot(-8, 12), Some(0));
    assert_eq!(layout.slot(-1, 12), Some(5));
    assert_eq!(layout.slot(-9, 12), None);
    assert_eq!(layout.slot(8, 31), Some(24));
    assert_eq!(layout.slot(8, 32), None);
    assert_eq!(layout.slot(12, 12), None);
}

#[test]
fn interpolator_buffer_indices() {
    assert_eq!(yz_to_buf_index(48, 3, 2), 2 * 49 + 3);
    assert_eq!(cell_corner_indices(48, 4, 3, 2), (101, 150, 102, 151));
    assert_eq!(cell_corner_indices(48, 4, 47, 3), (3 * 49 + 47, 4 * 49 + 47, 3 * 49 + 48, 4 * 49 + 48));
    assert_eq!(4 * 49 + 48, 49 * 5 - 1);
}

#[test]
fn cache_once_decisions() {
    assert_eq!(cache_once_lookup(5, 5, false, 1, 2), CacheOnceLookup::FillCache);
    assert_eq!(cache_once_lookup(5, 5, true, 2, 2), CacheOnceLookup::LastResult);
    assert_eq!(cache_once_lookup(4, 5, false, 2, 2), CacheOnceLookup::LastResult);
    assert_eq!(cache_once_lookup(4, 5, false, 1, 2), CacheOnceLookup::Sample);
}

#[test]
fn column_keys() {
    assert_eq!(column_key(1, 2), packed(1, 2));
    assert_eq!(column_key(-1, 2), 0xFFFF_FFFF | (2u64 << 32));
    assert_eq!(column_key(-1, -1), u64::MAX);
    assert_ne!(column_key(0, 1), column_key(1, 0));
}

#[test]
fn noise_positions() {
    let pos = UnblendedNoisePos::new(-3, 64, 7);
    assert_eq!((pos.x(), pos.y(), pos.z()), (-3, 64, 7));
}

#[test]
fn configuration_data() {
    let weird = WeirdScaledData { noise_id: "cave_entrance", mapper: WeirdScaledMapper::Tunnels };
    assert_eq!(weird.noise_id, "cave_entrance");
    assert_eq!(weird.mapper, WeirdScaledMapper::Tunnels);
    assert_ne!(WeirdScaledMapper::Caves, WeirdScaledMapper::Tunnels);
    let binary = BinaryData { operation: BinaryOperation::Min };
    assert_eq!(binary.operation, BinaryOperation::Min);
    let unary = UnaryData { operation: UnaryOperation::Squeeze };
    assert_eq!(unary.operation, UnaryOperation::Squeeze);
    assert_ne!(WrapperType::Cache2D, WrapperType::CacheOnce);
}

#[test]
fn flat_cache_slots_are_distinct() {
    let layout = FlatCacheLayout::new(5, -7, 4);
    let mut slots = Vec::new();
    for x in 0..5 {
        for z in 0..5 {
            slots.push(layout.xz_to_index_const(x, z));
        }
    }
    slots.sort_unstable();
    assert_eq!(slots, (0..25).collect::<Vec<usize>>());
}
