use steel_utils::noise_router::aquifer_sampler::{
    aquifer_search_cell, lava_noise_pos, local_xz, local_y, nearest_points_to,
    noise_based_fluid_level, packed_position_index, spread_noise_pos, AquiferBlocks,
    AquiferSampler, SeaLevelAquiferSampler, WorldAquiferSampler, CHUNK_POS_OFFSETS,
    MIN_HEIGHT_CELL,
};
use steel_utils::noise_router::block_pos::{pack_block_pos, unpack_x, unpack_y, unpack_z};
use steel_utils::noise_router::density_function::NoisePos;
use steel_utils::noise_router::fluid_level::{FluidLevel, FluidLevelSampler};
use steel_utils::BlockStateId;

const WATER: BlockStateId = BlockStateId(86);
const LAVA: BlockStateId = BlockStateId(102);
const AIR: BlockStateId = BlockStateId(0);
const STONE: BlockStateId = BlockStateId(1);

fn blocks() -> AquiferBlocks {
    AquiferBlocks { water: WATER, lava: LAVA, air: AIR }
}

fn overworld_levels() -> FluidLevelSampler {
    FluidLevelSampler::new(FluidLevel::new(63, WATER), FluidLevel::new(-54, LAVA), -54)
}

fn offsets(x: i32, y: i32, z: i32) -> (i32, i32, i32) {
    (x.rem_euclid(10), y.rem_euclid(9), z.rem_euclid(10))
}

fn overworld_sampler(chunk_x: i32, chunk_z: i32) -> WorldAquiferSampler {
    WorldAquiferSampler::new(chunk_x, chunk_z, &offsets, -64, 384, overworld_levels(), blocks())
}

#[test]
fn cell_coordinates() {
    assert_eq!(local_xz(15), 0);
    assert_eq!(local_xz(16), 1);
    assert_eq!(local_xz(-1), -1);
    assert_eq!(local_y(11), 0);
    assert_eq!(local_y(12), 1);
    assert_eq!(local_y(-64), -6);
    assert_eq!(packed_position_index(1, 6, 1, 35, 4), (1 * 4 + 1) * 35 + 6);
    assert_eq!(packed_position_index(0, 0, 0, 35, 4), 0);
}

#[test]
fn fluid_levels() {
    let water = FluidLevel::new(63, WATER);
    assert_eq!(water.max_y_exclusive(), 63);
    assert_eq!(water.block(), WATER);
    assert_eq!(water.get_block(62, AIR), WATER);
    assert_eq!(water.get_block(63, AIR), AIR);
    let sampler = overworld_levels();
    assert_eq!(sampler.get_fluid_level(0, -55, 0), FluidLevel::new(-54, LAVA));
    assert_eq!(sampler.get_fluid_level(0, -54, 0), FluidLevel::new(63, WATER));
    assert_eq!(sampler.get_fluid_level(100, 200, -100), FluidLevel::new(63, WATER));
}

#[test]
fn sea_level_sampler_blocks() {
    let sampler = SeaLevelAquiferSampler::new(overworld_levels(), blocks());
    assert_eq!(sampler.fluid_block_at(0, 62, 0), WATER);
    assert_eq!(sampler.fluid_block_at(0, 63, 0), AIR);
    assert_eq!(sampler.fluid_block_at(0, -60, 0), LAVA);
    assert_eq!(sampler.fluid_block_at(5, -54, 5), WATER);
    let any = AquiferSampler::SeaLevel(sampler);
    assert!(matches!(any, AquiferSampler::SeaLevel(_)));
}

#[test]
fn world_sampler_grid() {
    let sampler = overworld_sampler(0, 0);
    assert_eq!(sampler.blocks(), blocks());
    assert_eq!(sampler.fluid_level_sampler(), overworld_levels());
    // cell (1, 6, 1) of the grid is absolute cell (0, -1, 0): its point is drawn at
    // offsets (0, 8, 0) from block (0, -12, 0)
    let index = packed_position_index(1, 6, 1, 35, 4);
    assert_eq!(sampler.water_level_cell(pack_block_pos(0, -4, 0)), Some(index));
    assert_eq!(sampler.water_level_cell(pack_block_pos(-16, -84, -16)), Some(0));
    assert_eq!(sampler.water_level_cell(pack_block_pos(-17, 0, 0)), None);
    assert_eq!(sampler.water_level_cell(pack_block_pos(48, 0, 0)), None);
    assert_eq!(sampler.water_level_cell(pack_block_pos(47, 335, 47)), Some(4 * 4 * 35 - 1));
    assert_eq!(sampler.water_level_cell(pack_block_pos(47, 336, 47)), None);
    assert_eq!(sampler.water_level_cell(pack_block_pos(0, -85, 0)), None);
}

fn expected_positions(x: i32, y: i32, z: i32, start: (i32, i32, i32), size_y: i32) -> Vec<i64> {
    let mut out = Vec::new();
    for (dx, dz) in CHUNK_POS_OFFSETS {
        let cx = x - start.0 + i32::from(dx);
        let cz = z - start.2 + i32::from(dz);
        if !(0..4).contains(&cx) || !(0..4).contains(&cz) {
            continue;
        }
        for dy in -1..=1 {
            let cy = y - start.1 + dy;
            if (0..size_y).contains(&cy) {
                let (ax, ay, az) = (start.0 + cx, start.1 + cy, start.2 + cz);
                let (rx, ry, rz) = offsets(ax, ay, az);
                out.push(pack_block_pos(ax * 16 + rx, ay * 12 + ry, az * 16 + rz));
                break;
            }
        }
    }
    out
}

#[test]
fn random_positions_around_a_cell() {
    let sampler = overworld_sampler(0, 0);
    let found = sampler.random_positions_for_pos(0, 0, 0);
    assert_eq!(found.len(), 9);
    assert_eq!(found[0], pack_block_pos(0, -4, 0));
    assert_eq!(found, expected_positions(0, 0, 0, (-1, -7, -1), 35));
    // at the bottom of the grid the first cell in range is the searched cell itself
    let found = sampler.random_positions_for_pos(1, -7, 1);
    assert_eq!(found, expected_positions(1, -7, 1, (-1, -7, -1), 35));
    assert_eq!(found[0], pack_block_pos(16 + 1, -84 + 2, 16 + 1));
    // far away nothing is found
    assert!(sampler.random_positions_for_pos(100, 0, 0).is_empty());
    assert!(sampler.random_positions_for_pos(0, 100, 0).is_empty());
}

#[test]
fn random_positions_of_another_chunk() {
    let sampler = WorldAquiferSampler::new(-3, 5, &offsets, 0, 128, overworld_levels(), blocks());
    // start cells (-4, -1, 4); y cells from -1 to 11 + 1: size 13
    assert_eq!(sampler.random_positions_for_pos(-3, 3, 5), expected_positions(-3, 3, 5, (-4, -1, 4), 13));
    assert_eq!(sampler.random_positions_for_pos(-2, 12, 6), expected_positions(-2, 12, 6, (-4, -1, 4), 13));
}

#[test]
fn nearest_points_are_sorted_and_nearest() {
    let points = vec![
        pack_block_pos(10, 0, 0),
        pack_block_pos(1, 0, 0),
        pack_block_pos(5, 0, 0),
        pack_block_pos(0, 2, 0),
        pack_block_pos(0, 0, 7),
    ];
    let (a, b, c) = nearest_points_to(&points, 0, 0, 0);
    assert_eq!(a, (pack_block_pos(1, 0, 0), 1));
    assert_eq!(b, (pack_block_pos(0, 2, 0), 4));
    assert_eq!(c, (pack_block_pos(5, 0, 0), 25));
}

#[test]
fn nearest_points_keep_first_of_equal_distances() {
    let points = vec![pack_block_pos(3, 0, 0), pack_block_pos(0, 3, 0), pack_block_pos(0, 0, 3), pack_block_pos(-3, 0, 0)];
    let (a, b, c) = nearest_points_to(&points, 0, 0, 0);
    assert_eq!(a, (pack_block_pos(3, 0, 0), 9));
    assert_eq!(b, (pack_block_pos(0, 3, 0), 9));
    assert_eq!(c, (pack_block_pos(0, 0, 3), 9));
}

#[test]
fn nearest_points_with_few_points() {
    let (a, b, c) = nearest_points_to(&vec![], 4, 5, 6);
    assert_eq!((a, b, c), ((0, i32::MAX), (0, i32::MAX), (0, i32::MAX)));
    let p = pack_block_pos(4, 5, 8);
    let (a, b, c) = nearest_points_to(&vec![p], 4, 5, 6);
    assert_eq!((a, b, c), ((p, 4), (0, i32::MAX), (0, i32::MAX)));
    assert_eq!((unpack_x(a.0), unpack_y(a.0), unpack_z(a.0)), (4, 5, 8));
}

#[test]
fn water_level_cache_remembers_per_cell() {
    let mut sampler = overworld_sampler(0, 0);
    let p = pack_block_pos(0, -4, 0);
    let same_cell = pack_block_pos(15, -1, 15);
    let other_cell = pack_block_pos(16, -4, 0);
    let outside = pack_block_pos(500, 0, 0);
    assert_eq!(sampler.cached_water_level(p), None);
    let level = FluidLevel::new(-20, LAVA);
    assert_eq!(sampler.get_water_level(p, |_, _, _| level), level);
    assert_eq!(sampler.cached_water_level(p), Some(level));
    assert_eq!(sampler.cached_water_level(same_cell), Some(level));
    assert_eq!(sampler.cached_water_level(other_cell), None);
    assert_eq!(sampler.get_water_level(outside, |_, _, _| level), level);
    assert_eq!(sampler.cached_water_level(outside), None);
    let water = FluidLevel::new(40, WATER);
    assert_eq!(sampler.get_water_level(other_cell, |_, _, _| water), water);
    assert_eq!(sampler.cached_water_level(other_cell), Some(water));
    assert_eq!(sampler.cached_water_level(p), Some(level));
}

#[test]
fn cached_levels_match_computed_levels_at_sample_points() {
    // a computation that depends on the position only
    let compute = |x: i32, y: i32, z: i32| FluidLevel::new(x + 2 * y - z, if y < 0 { LAVA } else { WATER });
    let mut cached = overworld_sampler(1, -2);
    for round in 0..2 {
        for x in 0..4 {
            for y in -7..29 {
                for z in -3..1 {
                    for p in cached.random_positions_for_pos(x, y, z) {
                        let direct = compute(unpack_x(p), unpack_y(p), unpack_z(p));
                        assert_eq!(cached.get_water_level(p, compute), direct, "round {round}");
                    }
                }
            }
        }
    }
}

#[test]
fn deep_aquifers_may_hold_lava() {
    let sampler = blocks();
    let water = FluidLevel::new(63, WATER);
    let lava = FluidLevel::new(-54, LAVA);
    assert!(sampler.may_be_lava(&water, -10));
    assert!(!sampler.may_be_lava(&water, -9));
    assert!(!sampler.may_be_lava(&water, MIN_HEIGHT_CELL));
    assert!(!sampler.may_be_lava(&lava, -30));
    assert_eq!(sampler.fluid_block_state(&water, -30, true), LAVA);
    assert_eq!(sampler.fluid_block_state(&water, -30, false), WATER);
    assert_eq!(sampler.fluid_block_state(&water, 10, true), WATER);
    assert_eq!(sampler.fluid_level_of(water, MIN_HEIGHT_CELL, true), water);
    assert_eq!(sampler.fluid_level_of(water, -30, true), FluidLevel::new(-30, LAVA));
    assert_eq!(sampler.fluid_level_of(water, 20, true), FluidLevel::new(20, WATER));
}

#[test]
fn water_and_lava_meeting() {
    let sampler = blocks();
    let water = FluidLevel::new(10, WATER);
    let lava = FluidLevel::new(10, LAVA);
    assert!(sampler.water_meets_lava(&water, &lava, 5));
    assert!(sampler.water_meets_lava(&lava, &water, 5));
    assert!(!sampler.water_meets_lava(&water, &lava, 10));
    assert!(!sampler.water_meets_lava(&water, &water, 5));
    let low_lava = FluidLevel::new(0, LAVA);
    assert!(!sampler.water_meets_lava(&water, &low_lava, 5));
    assert_ne!(STONE, WATER);
}

#[test]
fn noise_positions_and_levels() {
    assert_eq!(aquifer_search_cell(0, 0, 0), (-1, 0, -1));
    assert_eq!(aquifer_search_cell(21, 11, 5), (1, 1, 0));
    let lava = lava_noise_pos(-1, 39, 64);
    assert_eq!((lava.x(), lava.y(), lava.z()), (-1, 0, 1));
    let spread = spread_noise_pos(-17, -1, 31);
    assert_eq!((spread.x(), spread.y(), spread.z()), (-2, -1, 1));
    // band of y = 45 is 40..80, its middle is 60
    assert_eq!(noise_based_fluid_level(45, 100, 2), 66);
    assert_eq!(noise_based_fluid_level(45, 50, 2), 50);
    assert_eq!(noise_based_fluid_level(-1, 100, -3), -29);
}

#[test]
fn sample_points_lie_in_their_cells() {
    let sampler = overworld_sampler(2, -1);
    let mut cells = Vec::new();
    for x in 0..4 {
        for y in -7..29 {
            for z in -2..2 {
                for p in sampler.random_positions_for_pos(x, y, z) {
                    let cell = sampler.water_level_cell(p);
                    assert!(cell.is_some());
                    cells.push((p, cell.unwrap()));
                }
            }
        }
    }
    // one point per cell: equal cells hold equal points
    for &(p, c) in &cells {
        for &(q, d) in &cells {
            assert_eq!(c == d, p == q);
        }
    }
    let mut distinct: Vec<usize> = cells.iter().map(|&(_, c)| c).collect();
    distinct.sort_unstable();
    distinct.dedup();
    assert_eq!(distinct.len(), 4 * 4 * 35);
}

#[test]
fn at_most_one_point_per_search_offset() {
    let sampler = overworld_sampler(0, 0);
    for x in -3..5 {
        for z in -3..5 {
            assert!(sampler.random_positions_for_pos(x, 3, z).len() <= CHUNK_POS_OFFSETS.len());
        }
    }
}

#[test]
fn water_levels_are_computed_once_per_cell() {
    let mut sampler = overworld_sampler(0, 0);
    let p = pack_block_pos(3, -5, 7);
    let same_cell = pack_block_pos(0, -1, 0);
    let outside = pack_block_pos(1000, 0, 0);
    let mut calls = Vec::new();
    let level = sampler.get_water_level(p, |x, y, z| {
        calls.push((x, y, z));
        FluidLevel::new(-20, LAVA)
    });
    assert_eq!(level, FluidLevel::new(-20, LAVA));
    assert_eq!(calls, vec![(3, -5, 7)]);
    let level = sampler.get_water_level(same_cell, |x, y, z| {
        calls.push((x, y, z));
        FluidLevel::new(50, WATER)
    });
    assert_eq!(level, FluidLevel::new(-20, LAVA));
    assert_eq!(calls.len(), 1);
    for expected in [1, 2] {
        let level = sampler.get_water_level(outside, |x, y, z| {
            calls.push((x, y, z));
            FluidLevel::new(50, WATER)
        });
        assert_eq!(level, FluidLevel::new(50, WATER));
        assert_eq!(calls.len(), 1 + expected);
    }
    assert_eq!(calls[1], (1000, 0, 0));
}
