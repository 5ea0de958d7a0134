//! Fluid levels: the height below which a fluid fills space, and how a sampler picks one.
use vstd::prelude::*;
use crate::BlockStateId;

verus! {

/// A fluid surface: every block strictly below `max_y_exclusive` holds `block`.
#[derive(Clone, Copy, Debug, PartialEq, Eq, Structural)]
pub struct FluidLevel {
    pub max_y_exclusive: i32,
    pub block: BlockStateId,
}

impl FluidLevel {
    /// The fluid `block` up to (not including) height `max_y_exclusive`.
    pub fn new(max_y_exclusive: i32, block: BlockStateId) -> (r: Self)
        ensures
            r.max_y_exclusive == max_y_exclusive,
            r.block == block,
    {
        Self { max_y_exclusive, block }
    }

    /// The height below which the fluid fills space.
    pub fn max_y_exclusive(&self) -> (r: i32)
        ensures
            r == self.max_y_exclusive,
    {
        self.max_y_exclusive
    }

    /// The fluid block.
    pub fn block(&self) -> (r: BlockStateId)
        ensures
            r == self.block,
    {
        self.block
    }

    /// The block at height `y`: the fluid below the surface, `air` from the surface up.
    pub open spec fn block_at(self, y: int, air: BlockStateId) -> BlockStateId {
        if y < self.max_y_exclusive {
            self.block
        } else {
            air
        }
    }

    /// The block at height `y`.
    pub fn get_block(&self, y: i32, air: BlockStateId) -> (r: BlockStateId)
        ensures
            r == self.block_at(y as int, air),
    {
        if y < self.max_y_exclusive {
            self.block
        } else {
            air
        }
    }
}

/// Picks the default fluid level of a position: below `bottom_y` the bottom fluid (lava in the
/// overworld), elsewhere the top fluid (the sea).
#[derive(Clone, Copy, Debug, PartialEq, Eq, Structural)]
pub struct FluidLevelSampler {
    pub top_fluid: FluidLevel,
    pub bottom_fluid: FluidLevel,
    pub bottom_y: i32,
}

impl FluidLevelSampler {
    /// A sampler with `top_fluid` from `bottom_y` up and `bottom_fluid` below it.
    pub fn new(top_fluid: FluidLevel, bottom_fluid: FluidLevel, bottom_y: i32) -> (r: Self)
        ensures
            r == (FluidLevelSampler { top_fluid, bottom_fluid, bottom_y }),
    {
        Self { top_fluid, bottom_fluid, bottom_y }
    }

    /// The default fluid level at `(x, y, z)`; it depends on `y` alone.
    pub open spec fn level_at(self, y: int) -> FluidLevel {
        if y < self.bottom_y {
            self.bottom_fluid
        } else {
            self.top_fluid
        }
    }

    /// The default fluid level at `(x, y, z)`.
    pub fn get_fluid_level(&self, x: i32, y: i32, z: i32) -> (r: FluidLevel)
        ensures
            r == self.level_at(y as int),
    {
        if y < self.bottom_y {
            self.bottom_fluid
        } else {
            self.top_fluid
        }
    }
}

/// A fluid level gives its fluid at every height below its surface and air from the surface up.
pub proof fn lemma_block_at(level: FluidLevel, air: BlockStateId, y: int)
    ensures
        y < level.max_y_exclusive ==> level.block_at(y, air) == level.block,
        y >= level.max_y_exclusive ==> level.block_at(y, air) == air,
{
}

/// The default level is the bottom fluid strictly below `bottom_y` and the top fluid from
/// `bottom_y` up.
pub proof fn lemma_level_at(sampler: FluidLevelSampler, y: int)
    ensures
        y < sampler.bottom_y ==> sampler.level_at(y) == sampler.bottom_fluid,
        y >= sampler.bottom_y ==> sampler.level_at(y) == sampler.top_fluid,
{
}

} // verus!
