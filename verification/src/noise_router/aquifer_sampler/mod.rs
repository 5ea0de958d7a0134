//! Aquifer sampler: where water and lava appear in caves and underground.
//!
//! The world aquifer keeps a grid of cells (16 blocks wide, 12 blocks high) around a chunk.
//! Each cell holds one randomly placed sample point; a block takes its fluid from the sample
//! points nearest to it.
pub mod grid;
pub mod nearest;
pub mod world;

use vstd::prelude::*;
use vstd::arithmetic::div_mod::{lemma_fundamental_div_mod_converse_div, lemma_fundamental_div_mod_converse_mod};
use crate::BlockStateId;
use crate::math::floor_div;
use crate::noise_router::fluid_level::{FluidLevel, FluidLevelSampler};
use crate::noise_router::density_function::UnblendedNoisePos;

pub use grid::{AquiferGrid, CHUNK_POS_OFFSETS};
pub use nearest::nearest_points_to;
pub use world::WorldAquiferSampler;

verus! {

/// Sentinel fluid height meaning "no aquifer here".
pub const MIN_HEIGHT_CELL: i32 = i32::MIN;

/// Block states needed by the aquifer sampler.
#[derive(Clone, Copy, Debug, PartialEq, Eq, Structural)]
pub struct AquiferBlocks {
    /// Water block state.
    pub water: BlockStateId,
    /// Lava block state.
    pub lava: BlockStateId,
    /// Air block state.
    pub air: BlockStateId,
}

impl AquiferBlocks {
    /// Whether the fluid at height `level` may turn to lava: the level is deep (at most -10),
    /// is an actual level, and the default fluid there is not already lava.
    pub open spec fn lava_possible(self, default_level: FluidLevel, level: int) -> bool {
        &&& level <= -10
        &&& level != MIN_HEIGHT_CELL
        &&& default_level.block != self.lava
    }

    /// The fluid of an aquifer at height `level`: lava where it may be lava and the lava noise
    /// is high, else the default fluid.
    pub open spec fn fluid_block_at_level(
        self,
        default_level: FluidLevel,
        level: int,
        lava_noise_high: bool,
    ) -> BlockStateId {
        if self.lava_possible(default_level, level) && lava_noise_high {
            self.lava
        } else {
            default_level.block
        }
    }

    /// The fluid level of a position whose aquifer surface is `level_y`: the default level when
    /// there is no aquifer, else the aquifer's fluid up to `level_y`.
    pub open spec fn resolved_level(
        self,
        default_level: FluidLevel,
        level_y: int,
        lava_noise_high: bool,
    ) -> FluidLevel {
        if level_y == MIN_HEIGHT_CELL {
            default_level
        } else {
            FluidLevel {
                max_y_exclusive: level_y as i32,
                block: self.fluid_block_at_level(default_level, level_y, lava_noise_high),
            }
        }
    }

    /// Whether, at height `y`, one of two fluid levels gives water and the other lava.
    pub open spec fn meet_as_water_and_lava(self, level_1: FluidLevel, level_2: FluidLevel, y: int) -> bool {
        let b1 = level_1.block_at(y, self.air);
        let b2 = level_2.block_at(y, self.air);
        (b1 == self.lava && b2 == self.water) || (b1 == self.water && b2 == self.lava)
    }

    /// Whether the fluid at height `level` may turn to lava.
    pub fn may_be_lava(&self, default_level: &FluidLevel, level: i32) -> (r: bool)
        ensures
            r == self.lava_possible(*default_level, level as int),
    {
        level <= -10 && level != MIN_HEIGHT_CELL && default_level.block != self.lava
    }

    /// The fluid of an aquifer at height `level`; `lava_noise_high` tells whether the lava
    /// noise at the position exceeds its threshold (it needs reading only where lava is
    /// possible).
    pub fn fluid_block_state(
        &self,
        default_level: &FluidLevel,
        level: i32,
        lava_noise_high: bool,
    ) -> (r: BlockStateId)
        ensures
            r == self.fluid_block_at_level(*default_level, level as int, lava_noise_high),
            r == self.lava || r == default_level.block,
            !lava_noise_high ==> r == default_level.block,
            level > -10 || level == MIN_HEIGHT_CELL ==> r == default_level.block,
            default_level.block == self.lava ==> r == self.lava,
    {
        if self.may_be_lava(default_level, level) && lava_noise_high {
            self.lava
        } else {
            default_level.block
        }
    }

    /// The fluid level of a position whose aquifer surface is `level_y`
    /// (`MIN_HEIGHT_CELL` when it has no aquifer).
    pub fn fluid_level_of(
        &self,
        default_level: FluidLevel,
        level_y: i32,
        lava_noise_high: bool,
    ) -> (r: FluidLevel)
        ensures
            r == self.resolved_level(default_level, level_y as int, lava_noise_high),
            level_y == MIN_HEIGHT_CELL ==> r == default_level,
            level_y != MIN_HEIGHT_CELL ==> r.max_y_exclusive == level_y && r.block
                == self.fluid_block_at_level(default_level, level_y as int, lava_noise_high),
    {
        if level_y == MIN_HEIGHT_CELL {
            default_level
        } else {
            let block = self.fluid_block_state(&default_level, level_y, lava_noise_high);
            FluidLevel::new(level_y, block)
        }
    }

    /// Whether, at height `y`, one of two fluid levels gives water and the other lava, so
    /// that a barrier must separate them.
    pub fn water_meets_lava(&self, level_1: &FluidLevel, level_2: &FluidLevel, y: i32) -> (r: bool)
        ensures
            r == self.meet_as_water_and_lava(*level_1, *level_2, y as int),
            r == ((level_1.block_at(y as int, self.air) == self.lava && level_2.block_at(
                y as int,
                self.air,
            ) == self.water) || (level_1.block_at(y as int, self.air) == self.water
                && level_2.block_at(y as int, self.air) == self.lava)),
    {
        let block_state1 = level_1.get_block(y, self.air);
        let block_state2 = level_2.get_block(y, self.air);
        (block_state1 == self.lava && block_state2 == self.water) || (block_state1 == self.water
            && block_state2 == self.lava)
    }
}

/// The fluid of an aquifer is lava or the default fluid. It is the default fluid unless the
/// lava noise is high at a deep actual level (at most -10); a lava default stays lava; and a
/// high lava noise at a deep actual level gives lava.
pub proof fn lemma_fluid_block_choice(
    blocks: AquiferBlocks,
    default_level: FluidLevel,
    level: int,
    lava_noise_high: bool,
)
    ensures
        ({
            let r = blocks.fluid_block_at_level(default_level, level, lava_noise_high);
            &&& r == blocks.lava || r == default_level.block
            &&& !lava_noise_high ==> r == default_level.block
            &&& level > -10 || level == MIN_HEIGHT_CELL ==> r == default_level.block
            &&& default_level.block == blocks.lava ==> r == blocks.lava
            &&& level <= -10 && level != MIN_HEIGHT_CELL && lava_noise_high ==> r == blocks.lava
        }),
{
}

/// Without an aquifer the fluid level is the default level; with one, its surface is exactly
/// the aquifer's surface `level_y`, whatever the default level's height, and its fluid is
/// the aquifer's fluid choice.
pub proof fn lemma_resolved_level(
    blocks: AquiferBlocks,
    default_level: FluidLevel,
    level_y: i32,
    lava_noise_high: bool,
)
    ensures
        level_y == MIN_HEIGHT_CELL ==> blocks.resolved_level(
            default_level,
            level_y as int,
            lava_noise_high,
        ) == default_level,
        level_y != MIN_HEIGHT_CELL ==> blocks.resolved_level(
            default_level,
            level_y as int,
            lava_noise_high,
        ).max_y_exclusive == level_y,
        level_y != MIN_HEIGHT_CELL ==> blocks.resolved_level(
            default_level,
            level_y as int,
            lava_noise_high,
        ).block == blocks.fluid_block_at_level(default_level, level_y as int, lava_noise_high),
{
}

/// Whether two levels meet as water and lava depends on each level only through the block it
/// gives at height `y`: the relation is symmetric, it holds exactly when one of the blocks there
/// is water and the other lava, and (air being neither) it needs both levels to reach above `y`.
pub proof fn lemma_water_meets_lava(
    blocks: AquiferBlocks,
    level_1: FluidLevel,
    level_2: FluidLevel,
    y: int,
)
    ensures
        blocks.meet_as_water_and_lava(level_1, level_2, y) == blocks.meet_as_water_and_lava(
            level_2,
            level_1,
            y,
        ),
        y < level_1.max_y_exclusive && y < level_2.max_y_exclusive ==> blocks.meet_as_water_and_lava(
            level_1,
            level_2,
            y,
        ) == ((level_1.block == blocks.lava && level_2.block == blocks.water) || (level_1.block
            == blocks.water && level_2.block == blocks.lava)),
        blocks.air != blocks.water && blocks.air != blocks.lava && blocks.meet_as_water_and_lava(
            level_1,
            level_2,
            y,
        ) ==> y < level_1.max_y_exclusive && y < level_2.max_y_exclusive,
{
}

/// Aquifer sampler variants.
pub enum AquiferSampler {
    /// Simple sea-level based aquifer (no underground water pockets).
    SeaLevel(SeaLevelAquiferSampler),
    /// Full world aquifer with underground water and lava pockets.
    World(WorldAquiferSampler),
}

/// Simple aquifer sampler that uses the default fluid levels only.
pub struct SeaLevelAquiferSampler {
    level_sampler: FluidLevelSampler,
    blocks: AquiferBlocks,
}

impl View for SeaLevelAquiferSampler {
    type V = (FluidLevelSampler, AquiferBlocks);

    closed spec fn view(&self) -> (FluidLevelSampler, AquiferBlocks) {
        (self.level_sampler, self.blocks)
    }
}

impl SeaLevelAquiferSampler {
    /// Creates a new sea level aquifer sampler.
    pub fn new(level_sampler: FluidLevelSampler, blocks: AquiferBlocks) -> (r: Self)
        ensures
            r@ == (level_sampler, blocks),
    {
        Self { level_sampler, blocks }
    }

    /// The block of a non-solid position `(x, y, z)`: the default fluid below its surface,
    /// air above it.
    pub fn fluid_block_at(&self, x: i32, y: i32, z: i32) -> (r: BlockStateId)
        ensures
            r == self@.0.level_at(y as int).block_at(y as int, self@.1.air),
    {
        let level = self.level_sampler.get_fluid_level(x, y, z);
        level.get_block(y, self.blocks.air)
    }
}

/// Converts a block coordinate to a 16-block cell coordinate.
pub fn local_xz(xz: i32) -> (r: i32)
    ensures
        r as int == (xz as int) / 16,
{
    floor_div(xz, 16)
}

/// Converts a block coordinate to a 12-block cell coordinate.
pub fn local_y(y: i32) -> (r: i32)
    ensures
        r as int == (y as int) / 12,
{
    floor_div(y, 12)
}

/// Index of cell `(x, y, z)` in a grid laid out by `x`, then `z`, then `y`.
pub open spec fn cell_index(x: int, y: int, z: int, dim_y: int, dim_z: int) -> int {
    (x * dim_z + z) * dim_y + y
}

/// Calculates the index into the packed positions array.
pub fn packed_position_index(x: usize, y: usize, z: usize, dim_y: usize, dim_z: usize) -> (r: usize)
    requires
        cell_index(x as int, y as int, z as int, dim_y as int, dim_z as int) <= usize::MAX,
        0 <= x * dim_z + z <= usize::MAX,
        0 <= (x * dim_z + z) * dim_y <= usize::MAX,
    ensures
        r == cell_index(x as int, y as int, z as int, dim_y as int, dim_z as int),
{
    (x * dim_z + z) * dim_y + y
}

/// Cells in range have their index in range.
pub proof fn lemma_cell_index_bounds(x: int, y: int, z: int, dim_y: int, dim_z: int)
    requires
        0 <= x < 4,
        0 <= y < dim_y,
        0 <= z < dim_z,
    ensures
        0 <= x * dim_z + z < 4 * dim_z,
        0 <= (x * dim_z + z) * dim_y,
        0 <= cell_index(x, y, z, dim_y, dim_z) < 4 * dim_z * dim_y,
{
    assert(0 <= x * dim_z + z < 4 * dim_z) by (nonlinear_arith)
        requires
            0 <= x < 4,
            0 <= z < dim_z,
    ;
    assert(0 <= (x * dim_z + z) * dim_y) by (nonlinear_arith)
        requires
            0 <= x * dim_z + z,
            0 <= y < dim_y,
    ;
    assert(cell_index(x, y, z, dim_y, dim_z) < 4 * dim_z * dim_y) by (nonlinear_arith)
        requires
            0 <= x * dim_z + z < 4 * dim_z,
            0 <= y < dim_y,
            cell_index(x, y, z, dim_y, dim_z) == (x * dim_z + z) * dim_y + y,
    ;
}

/// Distinct cells in range have distinct indices.
pub proof fn lemma_cell_index_injective(
    x1: int,
    y1: int,
    z1: int,
    x2: int,
    y2: int,
    z2: int,
    dim_y: int,
    dim_z: int,
)
    requires
        0 <= x1 < 4,
        0 <= y1 < dim_y,
        0 <= z1 < dim_z,
        0 <= x2 < 4,
        0 <= y2 < dim_y,
        0 <= z2 < dim_z,
        cell_index(x1, y1, z1, dim_y, dim_z) == cell_index(x2, y2, z2, dim_y, dim_z),
    ensures
        x1 == x2 && y1 == y2 && z1 == z2,
{
    let i = cell_index(x1, y1, z1, dim_y, dim_z);
    lemma_fundamental_div_mod_converse_div(i, dim_y, x1 * dim_z + z1, y1);
    lemma_fundamental_div_mod_converse_mod(i, dim_y, x1 * dim_z + z1, y1);
    lemma_fundamental_div_mod_converse_div(i, dim_y, x2 * dim_z + z2, y2);
    lemma_fundamental_div_mod_converse_mod(i, dim_y, x2 * dim_z + z2, y2);
    let j = x1 * dim_z + z1;
    lemma_fundamental_div_mod_converse_div(j, dim_z, x1, z1);
    lemma_fundamental_div_mod_converse_mod(j, dim_z, x1, z1);
    lemma_fundamental_div_mod_converse_div(j, dim_z, x2, z2);
    lemma_fundamental_div_mod_converse_mod(j, dim_z, x2, z2);
}

/// The grid is laid out by `x`, then `z`, then `y`: an index gives back its cell as
/// `y = index mod dim_y`, `z = (index / dim_y) mod dim_z`, `x = index / (dim_y * dim_z)`.
pub proof fn lemma_cell_index_layout(x: int, y: int, z: int, dim_y: int, dim_z: int)
    requires
        0 <= x,
        0 <= y < dim_y,
        0 <= z < dim_z,
    ensures
        cell_index(x, y, z, dim_y, dim_z) % dim_y == y,
        (cell_index(x, y, z, dim_y, dim_z) / dim_y) % dim_z == z,
        cell_index(x, y, z, dim_y, dim_z) / dim_y / dim_z == x,
{
    let i = cell_index(x, y, z, dim_y, dim_z);
    lemma_fundamental_div_mod_converse_div(i, dim_y, x * dim_z + z, y);
    lemma_fundamental_div_mod_converse_mod(i, dim_y, x * dim_z + z, y);
    lemma_fundamental_div_mod_converse_div(x * dim_z + z, dim_z, x, z);
    lemma_fundamental_div_mod_converse_mod(x * dim_z + z, dim_z, x, z);
}

/// The cell coordinates searched for the aquifer sample points nearest to block `(x, y, z)`.
pub fn aquifer_search_cell(x: i32, y: i32, z: i32) -> (r: (i32, i32, i32))
    requires
        x >= i32::MIN + 5,
        y < i32::MAX,
        z >= i32::MIN + 5,
    ensures
        r.0 as int == (x - 5) / 16,
        r.1 as int == (y + 1) / 12,
        r.2 as int == (z - 5) / 16,
{
    (local_xz(x - 5), local_y(y + 1), local_xz(z - 5))
}

/// The grid position of the lava noise that decides whether a deep aquifer at block
/// `(x, y, z)` holds lava: 64 blocks across, 40 blocks up.
pub fn lava_noise_pos(x: i32, y: i32, z: i32) -> (r: UnblendedNoisePos)
    ensures
        r.coords() == (((x as int) / 64) as i32, ((y as int) / 40) as i32, ((z as int) / 64) as i32),
{
    UnblendedNoisePos::new(floor_div(x, 64), floor_div(y, 40), floor_div(z, 64))
}

/// The grid position of the fluid spread noise at block `(x, y, z)`: 16 blocks across,
/// 40 blocks up.
pub fn spread_noise_pos(x: i32, y: i32, z: i32) -> (r: UnblendedNoisePos)
    ensures
        r.coords() == (((x as int) / 16) as i32, ((y as int) / 40) as i32, ((z as int) / 16) as i32),
{
    UnblendedNoisePos::new(floor_div(x, 16), floor_div(y, 40), floor_div(z, 16))
}

/// The noise-based fluid surface at height `y`: `steps` multiples of 3 above the middle of
/// the 40-block band holding `y`, but never above `surface_height`.
pub fn noise_based_fluid_level(y: i32, surface_height: i32, steps: i32) -> (r: i32)
    requires
        i32::MIN <= steps * 3 <= i32::MAX,
        i32::MIN <= ((y as int) / 40) * 40,
        ((y as int) / 40) * 40 + 20 <= i32::MAX,
        i32::MIN <= steps * 3 + ((y as int) / 40) * 40 + 20 <= i32::MAX,
    ensures
        r as int == if surface_height <= steps * 3 + ((y as int) / 40) * 40 + 20 {
            surface_height as int
        } else {
            steps * 3 + ((y as int) / 40) * 40 + 20
        },
{
    let grid_y = floor_div(y, 40);
    let local_y: i32 = grid_y * 40 + 20;
    let local_height: i32 = steps * 3 + local_y;
    if surface_height <= local_height {
        surface_height
    } else {
        local_height
    }
}

} // verus!
