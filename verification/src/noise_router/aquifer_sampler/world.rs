//! The world aquifer sampler.
use vstd::prelude::*;
use vstd::arithmetic::div_mod::lemma_fundamental_div_mod_converse_div;
use crate::noise_router::aquifer_sampler::{
    lemma_cell_index_bounds, local_xz, local_y, packed_position_index, AquiferBlocks,
};
use crate::noise_router::aquifer_sampler::grid::{
    cell_offset_in_range, chunk_pos_offset, drawn_prefix, lemma_drawn_prefix_complete,
    lemma_cached_level_is_computed, lemma_drawn_prefix_push, lemma_remember_keeps_computed, unpacked, AquiferGrid, CHUNK_POS_OFFSETS,
};
use crate::noise_router::block_pos::{pack_block_pos, packed_x, packed_y, packed_z, unpack_x, unpack_y, unpack_z};
use crate::noise_router::fluid_level::{FluidLevel, FluidLevelSampler};

verus! {

/// Full world aquifer sampler with underground water and lava pockets.
pub struct WorldAquiferSampler {
    fluid_level_sampler: FluidLevelSampler,
    blocks: AquiferBlocks,
    start_x: i32,
    start_y: i32,
    start_z: i32,
    size_y: usize,
    size_z: usize,
    levels: Vec<Option<FluidLevel>>,
    packed_positions: Vec<i64>,
}

impl View for WorldAquiferSampler {
    type V = AquiferGrid;

    closed spec fn view(&self) -> AquiferGrid {
        AquiferGrid {
            fluid_level_sampler: self.fluid_level_sampler,
            blocks: self.blocks,
            start_x: self.start_x as int,
            start_y: self.start_y as int,
            start_z: self.start_z as int,
            size_y: self.size_y as int,
            size_z: self.size_z as int,
            levels: self.levels@,
            packed_positions: self.packed_positions@,
        }
    }
}

impl WorldAquiferSampler {
    /// The `k`-th search offset.
    fn search_offset(k: usize) -> (r: (i8, i8))
        requires
            k < 13,
        ensures
            r == CHUNK_POS_OFFSETS@[k as int],
            (r.0 as int, r.1 as int) == chunk_pos_offset(k as int),
    {
        CHUNK_POS_OFFSETS[k]
    }

    #[verifier::type_invariant]
    spec fn well_formed(self) -> bool {
        self@.wf()
    }

    /// The block states of this sampler.
    pub fn blocks(&self) -> (r: AquiferBlocks)
        ensures
            r == self@.blocks,
    {
        self.blocks
    }

    /// The default fluid levels of this sampler.
    pub fn fluid_level_sampler(&self) -> (r: FluidLevelSampler)
        ensures
            r == self@.fluid_level_sampler,
    {
        self.fluid_level_sampler
    }

    /// The index of the grid cell holding the position packed in `packed_pos`, if the cell
    /// lies in the grid.
    pub fn water_level_cell(&self, packed_pos: i64) -> (r: Option<usize>)
        ensures
            match r {
                Some(i) => self@.water_level_cell(packed_pos) == Some(i as int) && i
                    < self@.levels.len(),
                None => self@.water_level_cell(packed_pos) is None,
            },
    {
        proof {
            use_type_invariant(self);
        }
        let x = unpack_x(packed_pos);
        let y = unpack_y(packed_pos);
        let z = unpack_z(packed_pos);
        let cell_x: i64 = local_xz(x) as i64 - self.start_x as i64;
        let cell_y: i64 = local_y(y) as i64 - self.start_y as i64;
        let cell_z: i64 = local_xz(z) as i64 - self.start_z as i64;
        if cell_x < 0 || cell_x >= 4 || cell_z < 0 || cell_z >= self.size_z as i64 || cell_y < 0
            || cell_y >= self.size_y as i64 {
            return None;
        }
        proof {
            lemma_cell_index_bounds(
                cell_x as int,
                cell_y as int,
                cell_z as int,
                self.size_y as int,
                self.size_z as int,
            );
            assert(4 * self.size_z * self.size_y == 16 * self.size_y);
        }
        Some(packed_position_index(
            cell_x as usize,
            cell_y as usize,
            cell_z as usize,
            self.size_y,
            self.size_z,
        ))
    }

    /// The fluid level already computed for the cell holding the position packed in
    /// `packed_pos`, if there is one.
    pub fn cached_water_level(&self, packed_pos: i64) -> (r: Option<FluidLevel>)
        ensures
            r == self@.cached_level(packed_pos),
    {
        match self.water_level_cell(packed_pos) {
            Some(i) => self.levels[i],
            None => None,
        }
    }

    /// Remembers `level` as the fluid level of the cell holding the position packed in
    /// `packed_pos`; positions outside the grid are not remembered.
    fn remember_water_level(&mut self, packed_pos: i64, level: FluidLevel)
        ensures
            final(self)@ == old(self)@.remember(packed_pos, level),
    {
        proof {
            use_type_invariant(&*self);
        }
        match self.water_level_cell(packed_pos) {
            Some(i) => {
                self.levels[i] = Some(level);
            },
            None => {},
        }
    }

    /// The fluid level of the sample point packed in `packed_pos`: the one remembered for its
    /// grid cell if there is one; else `compute` of the point's coordinates, remembered for its
    /// cell (points outside the grid are computed each time).
    ///
    /// The cache never changes a result: when every remembered level is what `compute` gives
    /// at its cell's sample point, and `packed_pos` is the sample point of its cell (or lies
    /// outside the grid), the result is what `compute` gives at `packed_pos`, and the remembered
    /// levels stay what `compute` gives.
    pub fn get_water_level<C: FnOnce(i32, i32, i32) -> FluidLevel>(
        &mut self,
        packed_pos: i64,
        compute: C,
    ) -> (r: FluidLevel)
        requires
            compute.requires(
                (
                    packed_x(packed_pos as int) as i32,
                    packed_y(packed_pos as int) as i32,
                    packed_z(packed_pos as int) as i32,
                ),
            ),
        ensures
            old(self)@.cached_level(packed_pos) is Some ==> r == old(self)@.cached_level(
                packed_pos,
            )->Some_0 && final(self)@ == old(self)@,
            old(self)@.cached_level(packed_pos) is None ==> compute.ensures(
                (
                    packed_x(packed_pos as int) as i32,
                    packed_y(packed_pos as int) as i32,
                    packed_z(packed_pos as int) as i32,
                ),
                r,
            ) && final(self)@ == old(self)@.remember(packed_pos, r),
            old(self)@.levels_computed_by(compute) && (old(self)@.water_level_cell(packed_pos) is None
                || old(self)@.is_own_point(packed_pos)) ==> compute.ensures(unpacked(packed_pos), r)
                && final(self)@.levels_computed_by(compute),
    {
        proof {
            use_type_invariant(&*self);
        }
        let ghost old_grid = self@;
        if let Some(level) = self.cached_water_level(packed_pos) {
            proof {
                if old_grid.levels_computed_by(compute) && old_grid.is_own_point(packed_pos) {
                    lemma_cached_level_is_computed(old_grid, packed_pos, compute);
                }
            }
            return level;
        }
        let level = compute(unpack_x(packed_pos), unpack_y(packed_pos), unpack_z(packed_pos));
        self.remember_water_level(packed_pos, level);
        proof {
            if old_grid.levels_computed_by(compute) && (old_grid.water_level_cell(packed_pos) is None
                || old_grid.is_own_point(packed_pos)) {
                lemma_remember_keeps_computed(old_grid, packed_pos, level, compute);
            }
        }
        level
    }

    /// The first of the cells `y - 1`, `y`, `y + 1` that lies in the grid.
    fn column_cell_y(&self, y: i64) -> (r: Option<usize>)
        requires
            self@.wf(),
            -0x1_0000_0000 <= y <= 0x1_0000_0000,
        ensures
            match r {
                Some(cy) => self@.column_cell_y(y as int) == Some(cy as int),
                None => self@.column_cell_y(y as int) is None,
            },
    {
        let size_y = self.size_y as i64;
        if 0 <= y - 1 && y - 1 < size_y {
            Some((y - 1) as usize)
        } else if 0 <= y && y < size_y {
            Some(y as usize)
        } else if 0 <= y + 1 && y + 1 < size_y {
            Some((y + 1) as usize)
        } else {
            None
        }
    }

    /// The sample points around cell `(x, y, z)`: for each of the 13 search offsets whose
    /// column lies in the grid, the point of the column's first cell among `y - 1`, `y`,
    /// `y + 1` that lies in the grid.
    pub fn random_positions_for_pos(&self, x: i32, y: i32, z: i32) -> (r: Vec<i64>)
        ensures
            r@ == self@.random_positions(x as int, y as int, z as int),
    {
        proof {
            use_type_invariant(self);
        }
        let mut result: Vec<i64> = Vec::new();
        let mut k: usize = 0;
        while k < 13
            invariant
                0 <= k <= 13,
                self@.wf(),
                result@ == self@.search_candidates(x as int, y as int, z as int, k as nat),
            decreases 13 - k,
        {
            let (dx, dz) = Self::search_offset(k);
            let cell_x: i64 = x as i64 - self.start_x as i64 + dx as i64;
            let cell_z: i64 = z as i64 - self.start_z as i64 + dz as i64;
            if 0 <= cell_x && cell_x < 4 && 0 <= cell_z && cell_z < self.size_z as i64 {
                let cell_y = self.column_cell_y(y as i64 - self.start_y as i64);
                match cell_y {
                    Some(cy) => {
                        proof {
                            lemma_cell_index_bounds(
                                cell_x as int,
                                cy as int,
                                cell_z as int,
                                self.size_y as int,
                                self.size_z as int,
                            );
                            assert(4 * self.size_z * self.size_y == 16 * self.size_y);
                        }
                        let index = packed_position_index(
                            cell_x as usize,
                            cy,
                            cell_z as usize,
                            self.size_y,
                            self.size_z,
                        );
                        result.push(self.packed_positions[index]);
                    },
                    None => {},
                }
            }
            k = k + 1;
        }
        result
    }

    /// Creates a new world aquifer sampler for chunk `(chunk_x, chunk_z)` of a world that
    /// spans `height` blocks up from `minimum_y`.
    ///
    /// The grid starts one cell before the chunk and spans 4 cells along X and Z and from one
    /// cell below `minimum_y` to one cell above the top; `random_deriver` gives, for the
    /// absolute coordinates of a cell, the offsets of its sample point within the cell.
    pub fn new<F: Fn(i32, i32, i32) -> (i32, i32, i32)>(
        chunk_x: i32,
        chunk_z: i32,
        random_deriver: &F,
        minimum_y: i8,
        height: u16,
        fluid_level_sampler: FluidLevelSampler,
        blocks: AquiferBlocks,
    ) -> (s: Self)
        requires
            i32::MIN <= (chunk_x - 1) * 16,
            (chunk_x + 2) * 16 + 9 <= i32::MAX,
            i32::MIN <= (chunk_z - 1) * 16,
            (chunk_z + 2) * 16 + 9 <= i32::MAX,
            forall|x: i32, y: i32, z: i32| random_deriver.requires((x, y, z)),
            forall|x: i32, y: i32, z: i32, r: (i32, i32, i32)|
                #[trigger] random_deriver.ensures((x, y, z), r) ==> cell_offset_in_range(r),
        ensures
            s@.wf(),
            s@.fluid_level_sampler == fluid_level_sampler,
            s@.blocks == blocks,
            s@.start_x == chunk_x - 1,
            s@.start_z == chunk_z - 1,
            s@.start_y == (minimum_y as int) / 12 - 1,
            s@.size_y == (minimum_y + height) / 12 - (minimum_y as int) / 12 + 3,
            s@.size_z == 4,
            forall|i: int| 0 <= i < s@.levels.len() ==> s@.levels[i] is None,
            forall|cx: int, cy: int, cz: int|
                s@.in_grid(cx, cy, cz) ==> #[trigger] s@.drawn_from(*random_deriver, cx, cy, cz),
    {
        // Convert chunk coordinates to 16-block cells
        let chunk_block_x: i32 = chunk_x * 16;
        let chunk_block_z: i32 = chunk_z * 16;
        let start_x: i32 = local_xz(chunk_block_x) - 1;
        let start_z: i32 = local_xz(chunk_block_z) - 1;
        proof {
            lemma_fundamental_div_mod_converse_div(chunk_x * 16, 16, chunk_x as int, 0);
            lemma_fundamental_div_mod_converse_div(chunk_z * 16, 16, chunk_z as int, 0);
        }

        let max_y: i32 = minimum_y as i32 + height as i32;
        let start_y: i32 = local_y(minimum_y as i32) - 1;
        let end_y: i32 = local_y(max_y) + 1;

        let size_x: i32 = local_xz(16) + 3;
        let size_y: usize = (end_y - start_y + 1) as usize;
        let size_z: i32 = local_xz(16) + 3;
        assert(size_x == 4 && size_z == 4);

        let total_size: usize = size_x as usize * size_y * size_z as usize;

        let mut packed_positions: Vec<i64> = Vec::new();
        let ghost g = AquiferGrid {
            fluid_level_sampler,
            blocks,
            start_x: start_x as int,
            start_y: start_y as int,
            start_z: start_z as int,
            size_y: size_y as int,
            size_z: 4,
            levels: Seq::empty(),
            packed_positions: Seq::empty(),
        };

        let mut x_cell: i32 = 0;
        assert(0 * 4 * size_y == 0) by (nonlinear_arith);
        while x_cell < size_x
            invariant
                size_x == 4,
                size_z == 4,
                1 <= size_y <= 0x10000,
                0 <= x_cell <= 4,
                g.size_y == size_y,
                g.size_z == 4,
                g.start_x == start_x,
                g.start_y == start_y,
                g.start_z == start_z,
                start_x == chunk_x - 1,
                start_z == chunk_z - 1,
                -0x1000 <= start_y <= 0x1000,
                i32::MIN <= (chunk_x - 1) * 16,
                (chunk_x + 2) * 16 + 9 <= i32::MAX,
                i32::MIN <= (chunk_z - 1) * 16,
                (chunk_z + 2) * 16 + 9 <= i32::MAX,
                forall|x: i32, y: i32, z: i32| random_deriver.requires((x, y, z)),
                forall|x: i32, y: i32, z: i32, r: (i32, i32, i32)|
                    #[trigger] random_deriver.ensures((x, y, z), r) ==> cell_offset_in_range(r),
                packed_positions@.len() == x_cell * 4 * size_y,
                drawn_prefix(g, *random_deriver, packed_positions@),
            decreases 4 - x_cell,
        {
            let abs_x: i32 = start_x + x_cell;
            let mut z_cell: i32 = 0;
            while z_cell < size_z
                invariant
                    size_x == 4,
                    size_z == 4,
                    1 <= size_y <= 0x10000,
                    0 <= x_cell < 4,
                    0 <= z_cell <= 4,
                    abs_x == start_x + x_cell,
                    g.size_y == size_y,
                    g.size_z == 4,
                    g.start_x == start_x,
                    g.start_y == start_y,
                    g.start_z == start_z,
                    start_x == chunk_x - 1,
                    start_z == chunk_z - 1,
                    -0x1000 <= start_y <= 0x1000,
                    i32::MIN <= (chunk_x - 1) * 16,
                    (chunk_x + 2) * 16 + 9 <= i32::MAX,
                    i32::MIN <= (chunk_z - 1) * 16,
                    (chunk_z + 2) * 16 + 9 <= i32::MAX,
                    forall|x: i32, y: i32, z: i32| random_deriver.requires((x, y, z)),
                    forall|x: i32, y: i32, z: i32, r: (i32, i32, i32)|
                        #[trigger] random_deriver.ensures((x, y, z), r) ==> cell_offset_in_range(r),
                    packed_positions@.len() == (x_cell * 4 + z_cell) * size_y,
                    drawn_prefix(g, *random_deriver, packed_positions@),
                decreases 4 - z_cell,
            {
                let abs_z: i32 = start_z + z_cell;
                let mut y_cell: i32 = 0;
                while y_cell < size_y as i32
                    invariant
                        size_x == 4,
                        size_z == 4,
                        1 <= size_y <= 0x10000,
                        0 <= x_cell < 4,
                        0 <= z_cell < 4,
                        0 <= y_cell <= size_y,
                        abs_x == start_x + x_cell,
                        abs_z == start_z + z_cell,
                        g.size_y == size_y,
                        g.size_z == 4,
                        g.start_x == start_x,
                        g.start_y == start_y,
                        g.start_z == start_z,
                        start_x == chunk_x - 1,
                        start_z == chunk_z - 1,
                        -0x1000 <= start_y <= 0x1000,
                        i32::MIN <= (chunk_x - 1) * 16,
                        (chunk_x + 2) * 16 + 9 <= i32::MAX,
                        i32::MIN <= (chunk_z - 1) * 16,
                        (chunk_z + 2) * 16 + 9 <= i32::MAX,
                        forall|x: i32, y: i32, z: i32| random_deriver.requires((x, y, z)),
                        forall|x: i32, y: i32, z: i32, r: (i32, i32, i32)|
                            #[trigger] random_deriver.ensures((x, y, z), r) ==> cell_offset_in_range(
                                r,
                            ),
                        packed_positions@.len() == (x_cell * 4 + z_cell) * size_y + y_cell,
                        drawn_prefix(g, *random_deriver, packed_positions@),
                    decreases size_y - y_cell,
                {
                    let abs_y: i32 = start_y + y_cell;
                    let offsets = random_deriver(abs_x, abs_y, abs_z);
                    let rand_x: i32 = abs_x * 16 + offsets.0;
                    let rand_y: i32 = abs_y * 12 + offsets.1;
                    let rand_z: i32 = abs_z * 16 + offsets.2;
                    let packed = pack_block_pos(rand_x, rand_y, rand_z);
                    let ghost old_positions = packed_positions@;
                    packed_positions.push(packed);
                    proof {
                        assert(random_deriver.ensures((abs_x, abs_y, abs_z), offsets));
                        lemma_drawn_prefix_push(
                            g,
                            *random_deriver,
                            old_positions,
                            packed,
                            x_cell as int,
                            y_cell as int,
                            z_cell as int,
                            offsets,
                        );
                    }
                    y_cell = y_cell + 1;
                }
                proof {
                    assert((x_cell * 4 + z_cell) * size_y + size_y == (x_cell * 4 + z_cell + 1)
                        * size_y) by (nonlinear_arith);
                }
                z_cell = z_cell + 1;
            }
            proof {
                assert((x_cell * 4 + 4) * size_y == (x_cell + 1) * 4 * size_y) by (nonlinear_arith);
            }
            x_cell = x_cell + 1;
        }

        assert(total_size == 4 * 4 * size_y) by (nonlinear_arith)
            requires
                total_size == size_x * size_y * size_z,
                size_x == 4,
                size_z == 4,
        ;
        let mut levels: Vec<Option<FluidLevel>> = Vec::new();
        while levels.len() < total_size
            invariant
                levels@.len() <= total_size,
                forall|i: int| 0 <= i < levels@.len() ==> levels@[i] is None,
            decreases total_size - levels.len(),
        {
            levels.push(None);
        }

        proof {
            lemma_drawn_prefix_complete(g, *random_deriver, packed_positions@, levels@);
        }
        let s = Self {
            fluid_level_sampler,
            blocks,
            start_x,
            start_y,
            start_z,
            size_y,
            size_z: size_z as usize,
            levels,
            packed_positions,
        };
        assert(s@ == AquiferGrid { packed_positions: packed_positions@, levels: levels@, ..g });
        s
    }
}

} // verus!
