//! Chunk-specific density function components: the integer layout of their caches.
//!
//! The caches themselves hold density values; what is decided here is where a value lives in
//! a cache and when a cached value may be used.
pub mod biome_coords;
pub mod chunk_pos;

use vstd::prelude::*;
use crate::noise_router::chunk_density_function::chunk_pos::{packed, packed_column};

verus! {

/// Sizes of the cells and biome regions of the chunk being generated.
#[derive(Clone, Copy, Debug, PartialEq, Eq, Structural)]
pub struct ChunkNoiseFunctionBuilderOptions {
    /// Number of blocks per cell along X and Z.
    pub horizontal_cell_block_count: usize,
    /// Number of blocks per cell along Y.
    pub vertical_cell_block_count: usize,
    /// Number of cells per chunk along Y.
    pub vertical_cell_count: usize,
    /// Number of cells per chunk along X and Z.
    pub horizontal_cell_count: usize,
    /// Biome X coordinate of the chunk.
    pub start_biome_x: i32,
    /// Biome Z coordinate of the chunk.
    pub start_biome_z: i32,
    /// Last biome region of the chunk along X and Z, relative to its start.
    pub horizontal_biome_end: usize,
}

impl ChunkNoiseFunctionBuilderOptions {
    /// Builder options with the given sizes.
    pub fn new(
        horizontal_cell_block_count: usize,
        vertical_cell_block_count: usize,
        vertical_cell_count: usize,
        horizontal_cell_count: usize,
        start_biome_x: i32,
        start_biome_z: i32,
        horizontal_biome_end: usize,
    ) -> (r: Self)
        ensures
            r == (ChunkNoiseFunctionBuilderOptions {
                horizontal_cell_block_count,
                vertical_cell_block_count,
                vertical_cell_count,
                horizontal_cell_count,
                start_biome_x,
                start_biome_z,
                horizontal_biome_end,
            }),
    {
        Self {
            horizontal_cell_block_count,
            vertical_cell_block_count,
            vertical_cell_count,
            horizontal_cell_count,
            start_biome_x,
            start_biome_z,
            horizontal_biome_end,
        }
    }
}

/// Where the block being sampled lies within its cell, and the size of a cell.
#[derive(Clone, Copy, Debug, PartialEq, Eq, Structural)]
pub struct CellBlockPosition {
    /// Position along X within the cell.
    pub cell_x_block_position: usize,
    /// Position along Y within the cell.
    pub cell_y_block_position: usize,
    /// Position along Z within the cell.
    pub cell_z_block_position: usize,
    /// Number of blocks per cell along X and Z.
    pub horizontal_cell_block_count: usize,
    /// Number of blocks per cell along Y.
    pub vertical_cell_block_count: usize,
}

impl CellBlockPosition {
    /// A position within a cell.
    pub fn new(
        cell_x_block_position: usize,
        cell_y_block_position: usize,
        cell_z_block_position: usize,
        horizontal_cell_block_count: usize,
        vertical_cell_block_count: usize,
    ) -> (r: Self)
        ensures
            r == (CellBlockPosition {
                cell_x_block_position,
                cell_y_block_position,
                cell_z_block_position,
                horizontal_cell_block_count,
                vertical_cell_block_count,
            }),
    {
        Self {
            cell_x_block_position,
            cell_y_block_position,
            cell_z_block_position,
            horizontal_cell_block_count,
            vertical_cell_block_count,
        }
    }

    /// Moves to a new position within the cell and tells, per axis `(x, y, z)`, whether the
    /// position changed along it.
    pub fn update_position(
        &mut self,
        cell_x_block_position: usize,
        cell_y_block_position: usize,
        cell_z_block_position: usize,
    ) -> (changed: (bool, bool, bool))
        ensures
            *final(self) == (CellBlockPosition {
                cell_x_block_position,
                cell_y_block_position,
                cell_z_block_position,
                ..*old(self)
            }),
            changed == (
                cell_x_block_position != old(self).cell_x_block_position,
                cell_y_block_position != old(self).cell_y_block_position,
                cell_z_block_position != old(self).cell_z_block_position,
            ),
    {
        let changed_x = cell_x_block_position != self.cell_x_block_position;
        let changed_y = cell_y_block_position != self.cell_y_block_position;
        let changed_z = cell_z_block_position != self.cell_z_block_position;
        if changed_x {
            self.cell_x_block_position = cell_x_block_position;
        }
        if changed_y {
            self.cell_y_block_position = cell_y_block_position;
        }
        if changed_z {
            self.cell_z_block_position = cell_z_block_position;
        }
        (changed_x, changed_y, changed_z)
    }

    /// Whether the position lies within the cell.
    pub open spec fn in_cell(self) -> bool {
        &&& self.cell_x_block_position < self.horizontal_cell_block_count
        &&& self.cell_y_block_position < self.vertical_cell_block_count
        &&& self.cell_z_block_position < self.horizontal_cell_block_count
    }

    /// Number of blocks in the cell.
    pub open spec fn cell_volume(self) -> int {
        self.horizontal_cell_block_count * self.horizontal_cell_block_count
            * self.vertical_cell_block_count
    }

    /// Slot of the position in a cell cache, which stores a cell from its top layer down,
    /// each layer by X then Z.
    pub open spec fn cache_slot(self) -> int {
        ((self.vertical_cell_block_count - 1 - self.cell_y_block_position)
            * self.horizontal_cell_block_count + self.cell_x_block_position)
            * self.horizontal_cell_block_count + self.cell_z_block_position
    }

    /// Slot of the position in a cell cache.
    pub fn cell_cache_index(&self) -> (r: usize)
        requires
            self.in_cell(),
            self.cell_volume() <= usize::MAX,
        ensures
            r == self.cache_slot(),
            r < self.cell_volume(),
    {
        let h = self.horizontal_cell_block_count;
        let v = self.vertical_cell_block_count;
        let layer: usize = v - 1 - self.cell_y_block_position;
        proof {
            lemma_cell_slot_bounds(
                layer as int,
                self.cell_x_block_position as int,
                self.cell_z_block_position as int,
                h as int,
                v as int,
            );
        }
        (layer * h + self.cell_x_block_position) * h + self.cell_z_block_position
    }
}

/// A slot `(layer * h + x) * h + z` lies within a cell of `h * h * v` blocks.
proof fn lemma_cell_slot_bounds(layer: int, x: int, z: int, h: int, v: int)
    requires
        0 <= layer < v,
        0 <= x < h,
        0 <= z < h,
    ensures
        0 <= layer * h + x < v * h,
        0 <= (layer * h + x) * h,
        0 <= (layer * h + x) * h + z < h * h * v,
        0 <= layer * h <= layer * h + x <= (layer * h + x) * h,
{
    assert(0 <= layer * h <= layer * h + x <= (layer * h + x) * h) by (nonlinear_arith)
        requires
            0 <= layer,
            0 <= x < h,
    ;
    assert(0 <= layer * h + x < v * h) by (nonlinear_arith)
        requires
            0 <= layer < v,
            0 <= x < h,
    ;
    assert(0 <= (layer * h + x) * h) by (nonlinear_arith)
        requires
            0 <= layer * h + x,
            0 <= h,
    ;
    assert((layer * h + x) * h + z < h * h * v) by (nonlinear_arith)
        requires
            0 <= layer * h + x < v * h,
            0 <= z < h,
    ;
}

/// Distinct positions of a cell have distinct cache slots.
pub proof fn lemma_cell_cache_slots_distinct(a: CellBlockPosition, b: CellBlockPosition)
    requires
        a.in_cell(),
        b.in_cell(),
        a.horizontal_cell_block_count == b.horizontal_cell_block_count,
        a.vertical_cell_block_count == b.vertical_cell_block_count,
        a.cache_slot() == b.cache_slot(),
    ensures
        a == b,
{
    let h = a.horizontal_cell_block_count as int;
    let v = a.vertical_cell_block_count as int;
    let la = v - 1 - a.cell_y_block_position;
    let lb = v - 1 - b.cell_y_block_position;
    let i = a.cache_slot();
    let ja = la * h + a.cell_x_block_position;
    let jb = lb * h + b.cell_x_block_position;
    vstd::arithmetic::div_mod::lemma_fundamental_div_mod_converse_div(i, h, ja, a.cell_z_block_position as int);
    vstd::arithmetic::div_mod::lemma_fundamental_div_mod_converse_mod(i, h, ja, a.cell_z_block_position as int);
    vstd::arithmetic::div_mod::lemma_fundamental_div_mod_converse_div(i, h, jb, b.cell_z_block_position as int);
    vstd::arithmetic::div_mod::lemma_fundamental_div_mod_converse_mod(i, h, jb, b.cell_z_block_position as int);
    vstd::arithmetic::div_mod::lemma_fundamental_div_mod_converse_div(ja, h, la, a.cell_x_block_position as int);
    vstd::arithmetic::div_mod::lemma_fundamental_div_mod_converse_mod(ja, h, la, a.cell_x_block_position as int);
    vstd::arithmetic::div_mod::lemma_fundamental_div_mod_converse_div(ja, h, lb, b.cell_x_block_position as int);
    vstd::arithmetic::div_mod::lemma_fundamental_div_mod_converse_mod(ja, h, lb, b.cell_x_block_position as int);
}

/// The biome region grid that a flat cache covers: `(horizontal_biome_end + 1)²` regions
/// starting at biome `(start_biome_x, start_biome_z)`.
#[derive(Clone, Copy, Debug, PartialEq, Eq, Structural)]
pub struct FlatCacheLayout {
    /// Biome X coordinate of the first region.
    pub start_biome_x: i32,
    /// Biome Z coordinate of the first region.
    pub start_biome_z: i32,
    /// Last region along X and Z, relative to the start.
    pub horizontal_biome_end: usize,
}

impl FlatCacheLayout {
    /// The layout of a flat cache starting at biome `(start_biome_x, start_biome_z)`.
    pub fn new(start_biome_x: i32, start_biome_z: i32, horizontal_biome_end: usize) -> (r: Self)
        ensures
            r == (FlatCacheLayout { start_biome_x, start_biome_z, horizontal_biome_end }),
    {
        Self { start_biome_x, start_biome_z, horizontal_biome_end }
    }

    /// Number of regions per axis.
    pub open spec fn side(self) -> int {
        self.horizontal_biome_end + 1
    }

    /// Whether the layout's region count fits in memory indices.
    pub open spec fn fits(self) -> bool {
        &&& self.horizontal_biome_end <= i32::MAX
        &&& self.side() * self.side() <= usize::MAX
    }

    /// Number of cached values.
    pub fn len(&self) -> (r: usize)
        requires
            self.side() * self.side() <= usize::MAX,
        ensures
            r == self.side() * self.side(),
    {
        proof {
            assert(self.side() <= self.side() * self.side()) by (nonlinear_arith)
                requires
                    self.side() >= 1,
            ;
        }
        (self.horizontal_biome_end + 1) * (self.horizontal_biome_end + 1)
    }

    /// Index of relative biome region `(x, z)`: by X, then Z.
    pub open spec fn index_of(self, x: int, z: int) -> int {
        x * self.side() + z
    }

    /// Index of relative biome region `(biome_x_position, biome_z_position)`; it lies within
    /// the cache for a covered region.
    pub fn xz_to_index_const(&self, biome_x_position: usize, biome_z_position: usize) -> (r: usize)
        requires
            self.side() <= usize::MAX,
            biome_x_position * self.side() + biome_z_position <= usize::MAX,
        ensures
            r == self.index_of(biome_x_position as int, biome_z_position as int),
            biome_x_position <= self.horizontal_biome_end && biome_z_position
                <= self.horizontal_biome_end ==> r < self.side() * self.side(),
    {
        proof {
            assert(0 <= biome_x_position * self.side() <= biome_x_position * self.side()
                + biome_z_position) by (nonlinear_arith)
                requires
                    self.side() >= 1,
            ;
            if biome_x_position <= self.horizontal_biome_end && biome_z_position
                <= self.horizontal_biome_end {
                lemma_region_index_bounds(
                    biome_x_position as int,
                    biome_z_position as int,
                    self.side(),
                );
            }
        }
        biome_x_position * (self.horizontal_biome_end + 1) + biome_z_position
    }

    /// The slot caching the biome region of block `(x, z)`, if the region is covered.
    pub open spec fn slot_of(self, x: int, z: int) -> Option<int> {
        let rx = x / 4 - self.start_biome_x;
        let rz = z / 4 - self.start_biome_z;
        if 0 <= rx <= self.horizontal_biome_end && 0 <= rz <= self.horizontal_biome_end {
            Some(self.index_of(rx, rz))
        } else {
            None
        }
    }

    /// The slot caching the biome region of block `(x, z)`, if the region is covered.
    pub fn slot(&self, x: i32, z: i32) -> (r: Option<usize>)
        requires
            self.fits(),
        ensures
            match r {
                Some(i) => self.slot_of(x as int, z as int) == Some(i as int) && i < self.side()
                    * self.side(),
                None => self.slot_of(x as int, z as int) is None,
            },
    {
        let relative_x: i64 = biome_coords::from_block(x) as i64
            - self.start_biome_x as i64;
        let relative_z: i64 = biome_coords::from_block(z) as i64
            - self.start_biome_z as i64;
        let end: i64 = self.horizontal_biome_end as i64;
        if relative_x >= 0 && relative_z >= 0 && relative_x <= end && relative_z <= end {
            proof {
                lemma_region_index_bounds(relative_x as int, relative_z as int, self.side());
            }
            Some(self.xz_to_index_const(relative_x as usize, relative_z as usize))
        } else {
            None
        }
    }
}

/// A region index `x * side + z` lies within `side²` regions.
proof fn lemma_region_index_bounds(x: int, z: int, side: int)
    requires
        0 <= x < side,
        0 <= z < side,
    ensures
        0 <= x * side,
        0 <= x * side + z < side * side,
{
    assert(0 <= x * side && x * side + z < side * side) by (nonlinear_arith)
        requires
            0 <= x < side,
            0 <= z < side,
    ;
}

/// Distinct covered regions have distinct slots.
pub proof fn lemma_flat_cache_slots_distinct(layout: FlatCacheLayout, x1: int, z1: int, x2: int, z2: int)
    requires
        0 <= x1 <= layout.horizontal_biome_end,
        0 <= z1 <= layout.horizontal_biome_end,
        0 <= x2 <= layout.horizontal_biome_end,
        0 <= z2 <= layout.horizontal_biome_end,
        layout.index_of(x1, z1) == layout.index_of(x2, z2),
    ensures
        x1 == x2 && z1 == z2,
{
    let i = layout.index_of(x1, z1);
    vstd::arithmetic::div_mod::lemma_fundamental_div_mod_converse_div(i, layout.side(), x1, z1);
    vstd::arithmetic::div_mod::lemma_fundamental_div_mod_converse_mod(i, layout.side(), x1, z1);
    vstd::arithmetic::div_mod::lemma_fundamental_div_mod_converse_div(i, layout.side(), x2, z2);
    vstd::arithmetic::div_mod::lemma_fundamental_div_mod_converse_mod(i, layout.side(), x2, z2);
}

/// Length of a density interpolator's y-z plane buffer: one value per cell corner.
pub open spec fn interpolator_plane_len(vertical_cell_count: int, horizontal_cell_count: int) -> int {
    (vertical_cell_count + 1) * (horizontal_cell_count + 1)
}

/// Index of cell corner `(cell_y, cell_z)` in a density interpolator's y-z plane buffer:
/// by Z, then Y.
pub open spec fn plane_index(vertical_cell_count: int, cell_y: int, cell_z: int) -> int {
    cell_z * (vertical_cell_count + 1) + cell_y
}

/// Index of cell corner `(cell_y_position, cell_z_position)` in a y-z plane buffer.
pub fn yz_to_buf_index(vertical_cell_count: usize, cell_y_position: usize, cell_z_position: usize) -> (r: usize)
    requires
        vertical_cell_count < usize::MAX,
        plane_index(vertical_cell_count as int, cell_y_position as int, cell_z_position as int)
            <= usize::MAX,
        0 <= cell_z_position * (vertical_cell_count + 1) <= usize::MAX,
    ensures
        r == plane_index(vertical_cell_count as int, cell_y_position as int, cell_z_position as int),
{
    cell_z_position * (vertical_cell_count + 1) + cell_y_position
}

/// Indices of the four corners `(y, z)`, `(y, z + 1)`, `(y + 1, z)`, `(y + 1, z + 1)` of cell
/// `(cell_y_position, cell_z_position)` in a y-z plane buffer; all lie within the buffer.
pub fn cell_corner_indices(
    vertical_cell_count: usize,
    horizontal_cell_count: usize,
    cell_y_position: usize,
    cell_z_position: usize,
) -> (r: (usize, usize, usize, usize))
    requires
        cell_y_position < vertical_cell_count,
        cell_z_position < horizontal_cell_count,
        interpolator_plane_len(vertical_cell_count as int, horizontal_cell_count as int)
            <= usize::MAX,
    ensures
        r.0 == plane_index(vertical_cell_count as int, cell_y_position as int, cell_z_position as int),
        r.1 == plane_index(vertical_cell_count as int, cell_y_position as int, cell_z_position + 1),
        r.2 == plane_index(vertical_cell_count as int, cell_y_position + 1, cell_z_position as int),
        r.3 == plane_index(vertical_cell_count as int, cell_y_position + 1, cell_z_position + 1),
        r.0 < interpolator_plane_len(vertical_cell_count as int, horizontal_cell_count as int),
        r.1 < interpolator_plane_len(vertical_cell_count as int, horizontal_cell_count as int),
        r.2 < interpolator_plane_len(vertical_cell_count as int, horizontal_cell_count as int),
        r.3 < interpolator_plane_len(vertical_cell_count as int, horizontal_cell_count as int),
{
    let v = vertical_cell_count;
    let y = cell_y_position;
    let z = cell_z_position;
    proof {
        let vi = v as int;
        let hi = horizontal_cell_count as int;
        assert(0 <= (z + 1) * (vi + 1) && (z + 1) * (vi + 1) + y + 1 < (vi + 1) * (hi + 1)) by (nonlinear_arith)
            requires
                0 <= y < vi,
                0 <= z < hi,
        ;
        assert(vi + 1 <= (vi + 1) * (hi + 1)) by (nonlinear_arith)
            requires
                0 <= vi,
                1 <= hi,
        ;
        assert(0 <= z * (vi + 1) <= (z + 1) * (vi + 1)) by (nonlinear_arith)
            requires
                0 <= z,
                0 <= vi,
        ;
    }
    (
        yz_to_buf_index(v, y, z),
        yz_to_buf_index(v, y, z + 1),
        yz_to_buf_index(v, y + 1, z),
        yz_to_buf_index(v, y + 1, z + 1),
    )
}

/// What a cache-once component answers with.
#[derive(Clone, Copy, Debug, PartialEq, Eq, Structural)]
pub enum CacheOnceLookup {
    /// The value stored by the current fill pass, at the current fill index.
    FillCache,
    /// The result of the last single sample, taken in the current sampling pass.
    LastResult,
    /// A fresh sample of the wrapped component, to be remembered as the last result.
    Sample,
}

/// What a cache-once component answers with while cell caches are in use: the current fill
/// pass's value where the component's fill cache belongs to that pass and is not empty, else
/// the last result where it was taken in the current sampling pass, else a fresh sample.
pub fn cache_once_lookup(
    cache_fill_unique_id: u64,
    options_fill_unique_id: u64,
    cache_is_empty: bool,
    cache_result_unique_id: u64,
    options_result_unique_id: u64,
) -> (r: CacheOnceLookup)
    ensures
        r == if cache_fill_unique_id == options_fill_unique_id && !cache_is_empty {
            CacheOnceLookup::FillCache
        } else if cache_result_unique_id == options_result_unique_id {
            CacheOnceLookup::LastResult
        } else {
            CacheOnceLookup::Sample
        },
{
    if cache_fill_unique_id == options_fill_unique_id && !cache_is_empty {
        CacheOnceLookup::FillCache
    } else if cache_result_unique_id == options_result_unique_id {
        CacheOnceLookup::LastResult
    } else {
        CacheOnceLookup::Sample
    }
}

/// The column key under which a 2D cache remembers its last sample for block `(x, z)`: the
/// low 32 bits of `x` and of `z`, packed.
pub fn column_key(x: i32, z: i32) -> (r: u64)
    ensures
        r as int == packed_column(x as int, z as int),
{
    let r = packed(x as u64, z as u64);
    assert(packed_column((x as u64) as int, (z as u64) as int) == packed_column(x as int, z as int))
        by (bit_vector);
    r
}

/// A cell cache stores a cell from its top layer down, each layer by X then Z: a slot gives back
/// the position as `z = slot mod h`, `x = (slot / h) mod h` and `y = v - 1 - slot / (h * h)`.
pub proof fn lemma_cell_cache_slot_layout(c: CellBlockPosition)
    requires
        c.in_cell(),
    ensures
        c.cache_slot() % (c.horizontal_cell_block_count as int) == c.cell_z_block_position,
        (c.cache_slot() / (c.horizontal_cell_block_count as int)) % (
        c.horizontal_cell_block_count as int) == c.cell_x_block_position,
        c.cache_slot() / (c.horizontal_cell_block_count as int) / (
        c.horizontal_cell_block_count as int) == c.vertical_cell_block_count - 1
            - c.cell_y_block_position,
{
    let h = c.horizontal_cell_block_count as int;
    let layer = c.vertical_cell_block_count - 1 - c.cell_y_block_position;
    let j = layer * h + c.cell_x_block_position;
    vstd::arithmetic::div_mod::lemma_fundamental_div_mod_converse_div(c.cache_slot(), h, j, c.cell_z_block_position as int);
    vstd::arithmetic::div_mod::lemma_fundamental_div_mod_converse_mod(c.cache_slot(), h, j, c.cell_z_block_position as int);
    vstd::arithmetic::div_mod::lemma_fundamental_div_mod_converse_div(j, h, layer, c.cell_x_block_position as int);
    vstd::arithmetic::div_mod::lemma_fundamental_div_mod_converse_mod(j, h, layer, c.cell_x_block_position as int);
}

/// A flat cache is laid out by X, then Z: an index gives back its region as
/// `x = index / side`, `z = index mod side`; and block `(x, z)` is cached in the slot of its
/// biome region relative to the start exactly when that region is covered.
pub proof fn lemma_flat_cache_layout(layout: FlatCacheLayout, rx: int, rz: int, x: int, z: int)
    requires
        0 <= rx,
        0 <= rz <= layout.horizontal_biome_end,
    ensures
        layout.index_of(rx, rz) / layout.side() == rx,
        layout.index_of(rx, rz) % layout.side() == rz,
        layout.slot_of(x, z) is Some <==> (layout.start_biome_x <= x / 4 <= layout.start_biome_x
            + layout.horizontal_biome_end && layout.start_biome_z <= z / 4 <= layout.start_biome_z
            + layout.horizontal_biome_end),
        layout.slot_of(x, z) is Some ==> layout.slot_of(x, z)->Some_0 == layout.index_of(
            x / 4 - layout.start_biome_x,
            z / 4 - layout.start_biome_z,
        ),
{
    vstd::arithmetic::div_mod::lemma_fundamental_div_mod_converse_div(layout.index_of(rx, rz), layout.side(), rx, rz);
    vstd::arithmetic::div_mod::lemma_fundamental_div_mod_converse_mod(layout.index_of(rx, rz), layout.side(), rx, rz);
}

/// A y-z plane buffer is laid out by Z, then Y: an index gives back its corner as
/// `y = index mod (v + 1)`, `z = index / (v + 1)`.
pub proof fn lemma_plane_index_layout(vertical_cell_count: int, cell_y: int, cell_z: int)
    requires
        0 <= cell_y <= vertical_cell_count,
        0 <= cell_z,
    ensures
        plane_index(vertical_cell_count, cell_y, cell_z) % (vertical_cell_count + 1) == cell_y,
        plane_index(vertical_cell_count, cell_y, cell_z) / (vertical_cell_count + 1) == cell_z,
{
    vstd::arithmetic::div_mod::lemma_fundamental_div_mod_converse_div(plane_index(vertical_cell_count, cell_y, cell_z), vertical_cell_count + 1, cell_z, cell_y);
    vstd::arithmetic::div_mod::lemma_fundamental_div_mod_converse_mod(plane_index(vertical_cell_count, cell_y, cell_z), vertical_cell_count + 1, cell_z, cell_y);
}

} // verus!
