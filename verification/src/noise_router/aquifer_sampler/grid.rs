//! The cell grid of the world aquifer: its abstract state, the search for sample points
//! around a position, the per-cell fluid level cache, and how its sample points are drawn.
use vstd::prelude::*;
use vstd::arithmetic::div_mod::lemma_fundamental_div_mod_converse_div;
use crate::noise_router::aquifer_sampler::{
    cell_index, lemma_cell_index_bounds, lemma_cell_index_injective, AquiferBlocks,
};
use crate::noise_router::block_pos::{lemma_unpack_pack, packable, packed_value, packed_x, packed_y, packed_z};
use crate::noise_router::fluid_level::{FluidLevel, FluidLevelSampler};

verus! {

/// Chunk position offsets `(dx, dz)` of the 13 cells searched around a position, in search
/// order: the centre first, then the left, centre and right sections.
pub const CHUNK_POS_OFFSETS: [(i8, i8); 13] = [
    (0, 0),
    (-2, -1),
    (-1, -1),
    (0, -1),
    (1, -1),
    (-3, 0),
    (-2, 0),
    (-1, 0),
    (1, 0),
    (-2, 1),
    (-1, 1),
    (0, 1),
    (1, 1),
];

/// The `k`-th search offset: entry `k` of `CHUNK_POS_OFFSETS`.
pub open spec fn chunk_pos_offset(k: int) -> (int, int) {
    (CHUNK_POS_OFFSETS@[k].0 as int, CHUNK_POS_OFFSETS@[k].1 as int)
}

/// The search visits the cell itself first, and reaches at most 3 columns to the left
/// (`dx` from -3 to 1) and one row on either side (`dz` from -1 to 1); no offset repeats.
pub proof fn lemma_search_offsets()
    ensures
        chunk_pos_offset(0) == (0int, 0int),
        forall|k: int| 0 <= k < 13 ==> -3 <= #[trigger] chunk_pos_offset(k).0 <= 1
            && -1 <= chunk_pos_offset(k).1 <= 1,
        forall|j: int, k: int|
            0 <= j < k < 13 ==> #[trigger] chunk_pos_offset(j) != #[trigger] chunk_pos_offset(k),
{
    assert(CHUNK_POS_OFFSETS@ == seq![(0i8, 0i8), (-2i8, -1i8), (-1i8, -1i8), (0i8, -1i8), (1i8, -1i8), (-3i8, 0i8), (-2i8, 0i8), (-1i8, 0i8), (1i8, 0i8), (-2i8, 1i8), (-1i8, 1i8), (0i8, 1i8), (1i8, 1i8)]);
}

/// The coordinates packed in `p`, as the arguments of a fluid level computation.
pub open spec fn unpacked(p: i64) -> (i32, i32, i32) {
    (packed_x(p as int) as i32, packed_y(p as int) as i32, packed_z(p as int) as i32)
}

/// Whether a random offset lies within a cell: `0..10` across, `0..9` up.
pub open spec fn cell_offset_in_range(r: (i32, i32, i32)) -> bool {
    &&& 0 <= r.0 < 10
    &&& 0 <= r.1 < 9
    &&& 0 <= r.2 < 10
}

/// The abstract state of a world aquifer sampler.
pub struct AquiferGrid {
    /// Default fluid levels.
    pub fluid_level_sampler: FluidLevelSampler,
    /// Block states for water, lava and air.
    pub blocks: AquiferBlocks,
    /// First cell of the grid along X, in 16-block cells.
    pub start_x: int,
    /// First cell of the grid along Y, in 12-block cells.
    pub start_y: int,
    /// First cell of the grid along Z, in 16-block cells.
    pub start_z: int,
    /// Number of cells along Y.
    pub size_y: int,
    /// Number of cells along Z (the grid is 4 cells along X).
    pub size_z: int,
    /// Fluid level of each cell, once computed.
    pub levels: Seq<Option<FluidLevel>>,
    /// Packed sample point of each cell.
    pub packed_positions: Seq<i64>,
}

impl AquiferGrid {
    /// The shape every grid keeps: 4 cells along X and Z, between 1 and 65536 along Y,
    /// one sample point and one level slot per cell.
    pub open spec fn wf(self) -> bool {
        &&& self.size_z == 4
        &&& 1 <= self.size_y <= 0x10000
        &&& self.packed_positions.len() == 4 * self.size_z * self.size_y
        &&& self.levels.len() == self.packed_positions.len()
        &&& -0x1000_0000 <= self.start_x <= 0x1000_0000
        &&& -0x1000_0000 <= self.start_z <= 0x1000_0000
        &&& -0x1000 <= self.start_y <= 0x1000
    }

    /// Whether cell `(cx, cy, cz)` (relative to the grid start) lies in the grid.
    pub open spec fn in_grid(self, cx: int, cy: int, cz: int) -> bool {
        &&& 0 <= cx < 4
        &&& 0 <= cy < self.size_y
        &&& 0 <= cz < self.size_z
    }

    /// Index of cell `(cx, cy, cz)` (relative to the grid start).
    pub open spec fn index_of(self, cx: int, cy: int, cz: int) -> int {
        cell_index(cx, cy, cz, self.size_y, self.size_z)
    }

    /// The first of the cells `y - 1`, `y`, `y + 1` (relative to the grid start) that lies in
    /// the grid, if any.
    pub open spec fn column_cell_y(self, y: int) -> Option<int> {
        if 0 <= y - 1 < self.size_y {
            Some(y - 1)
        } else if 0 <= y < self.size_y {
            Some(y)
        } else if 0 <= y + 1 < self.size_y {
            Some(y + 1)
        } else {
            None
        }
    }

    /// The sample point found for search offset `k` around cell `(x, y, z)` (absolute cell
    /// coordinates): that of the offset column's first cell in the grid, if the column and a
    /// cell are in the grid.
    pub open spec fn search_candidate(self, x: int, y: int, z: int, k: int) -> Option<i64> {
        let cx = x - self.start_x + chunk_pos_offset(k).0;
        let cz = z - self.start_z + chunk_pos_offset(k).1;
        if !(0 <= cx < 4 && 0 <= cz < self.size_z) {
            None
        } else {
            match self.column_cell_y(y - self.start_y) {
                Some(cy) => Some(self.packed_positions[self.index_of(cx, cy, cz)]),
                None => None,
            }
        }
    }

    /// The sample points found for the first `n` search offsets around `(x, y, z)`, in order.
    pub open spec fn search_candidates(self, x: int, y: int, z: int, n: nat) -> Seq<i64>
        decreases n,
    {
        if n == 0 {
            Seq::empty()
        } else {
            let prev = self.search_candidates(x, y, z, (n - 1) as nat);
            match self.search_candidate(x, y, z, n - 1) {
                Some(p) => prev.push(p),
                None => prev,
            }
        }
    }

    /// The sample points around cell `(x, y, z)` (absolute cell coordinates), for all 13
    /// search offsets in order.
    pub open spec fn random_positions(self, x: int, y: int, z: int) -> Seq<i64> {
        self.search_candidates(x, y, z, 13)
    }

    /// The grid cell holding the position packed in `p`, as an index, if it lies in the grid.
    pub open spec fn water_level_cell(self, p: i64) -> Option<int> {
        let cx = packed_x(p as int) / 16 - self.start_x;
        let cy = packed_y(p as int) / 12 - self.start_y;
        let cz = packed_z(p as int) / 16 - self.start_z;
        if self.in_grid(cx, cy, cz) {
            Some(self.index_of(cx, cy, cz))
        } else {
            None
        }
    }

    /// The fluid level remembered for the cell holding the position packed in `p`.
    pub open spec fn cached_level(self, p: i64) -> Option<FluidLevel> {
        match self.water_level_cell(p) {
            Some(i) => self.levels[i],
            None => None,
        }
    }

    /// The grid after remembering `level` for the cell holding the position packed in `p`;
    /// a position outside the grid leaves it unchanged.
    pub open spec fn remember(self, p: i64, level: FluidLevel) -> AquiferGrid {
        match self.water_level_cell(p) {
            Some(i) => AquiferGrid { levels: self.levels.update(i, Some(level)), ..self },
            None => self,
        }
    }

    /// Whether `p` is the sample point of the grid cell that holds it.
    pub open spec fn is_own_point(self, p: i64) -> bool {
        match self.water_level_cell(p) {
            Some(i) => self.packed_positions[i] == p,
            None => false,
        }
    }

    /// Every remembered fluid level is a level that `compute` gives at the coordinates of its
    /// cell's sample point.
    pub open spec fn levels_computed_by<C: FnOnce(i32, i32, i32) -> FluidLevel>(
        self,
        compute: C,
    ) -> bool {
        forall|i: int|
            0 <= i < self.levels.len() && #[trigger] self.levels[i] is Some ==> compute.ensures(
                unpacked(self.packed_positions[i]),
                self.levels[i]->Some_0,
            )
    }

    /// The sample point of cell `(cx, cy, cz)` was drawn from `random_deriver` at the cell's
    /// absolute coordinates: `random_deriver` gave offsets `r` there, and the point is the
    /// cell's corner block moved by `r`.
    pub open spec fn drawn_from<F: Fn(i32, i32, i32) -> (i32, i32, i32)>(
        self,
        random_deriver: F,
        cx: int,
        cy: int,
        cz: int,
    ) -> bool {
        let ax = self.start_x + cx;
        let ay = self.start_y + cy;
        let az = self.start_z + cz;
        exists|r: (i32, i32, i32)|
            #[trigger] random_deriver.ensures((ax as i32, ay as i32, az as i32), r)
                && self.packed_positions[self.index_of(cx, cy, cz)] as int == packed_value(
                ax * 16 + r.0,
                ay * 12 + r.1,
                az * 16 + r.2,
            )
    }
}

/// Every cell of `g` whose index falls within `positions` has its sample point drawn from
/// `random_deriver` in `positions`.
pub open spec fn drawn_prefix<F: Fn(i32, i32, i32) -> (i32, i32, i32)>(
    g: AquiferGrid,
    random_deriver: F,
    positions: Seq<i64>,
) -> bool {
    forall|cx: int, cy: int, cz: int|
        g.in_grid(cx, cy, cz) && g.index_of(cx, cy, cz) < positions.len()
            ==> #[trigger] (AquiferGrid { packed_positions: positions, ..g }).drawn_from(
            random_deriver,
            cx,
            cy,
            cz,
        )
}

/// Appending the sample point of the next cell keeps every drawn cell drawn and draws the
/// next one.
pub(crate) proof fn lemma_drawn_prefix_push<F: Fn(i32, i32, i32) -> (i32, i32, i32)>(
    g: AquiferGrid,
    random_deriver: F,
    positions: Seq<i64>,
    packed: i64,
    x_cell: int,
    y_cell: int,
    z_cell: int,
    offsets: (i32, i32, i32),
)
    requires
        g.size_z == 4,
        g.size_y >= 1,
        g.in_grid(x_cell, y_cell, z_cell),
        positions.len() == g.index_of(x_cell, y_cell, z_cell),
        drawn_prefix(g, random_deriver, positions),
        random_deriver.ensures(
            (
                (g.start_x + x_cell) as i32,
                (g.start_y + y_cell) as i32,
                (g.start_z + z_cell) as i32,
            ),
            offsets,
        ),
        packed as int == packed_value(
            (g.start_x + x_cell) * 16 + offsets.0,
            (g.start_y + y_cell) * 12 + offsets.1,
            (g.start_z + z_cell) * 16 + offsets.2,
        ),
    ensures
        drawn_prefix(g, random_deriver, positions.push(packed)),
{
    let ng = AquiferGrid { packed_positions: positions.push(packed), ..g };
    let og = AquiferGrid { packed_positions: positions, ..g };
    assert forall|cx: int, cy: int, cz: int|
        g.in_grid(cx, cy, cz) && g.index_of(cx, cy, cz) < positions.len() + 1 implies #[trigger] ng.drawn_from(
        random_deriver,
        cx,
        cy,
        cz,
    ) by {
        lemma_cell_index_bounds(cx, cy, cz, g.size_y, g.size_z);
        if g.index_of(cx, cy, cz) < positions.len() {
            assert(og.drawn_from(random_deriver, cx, cy, cz));
            let r = choose|r: (i32, i32, i32)|
                #[trigger] random_deriver.ensures(
                    ((g.start_x + cx) as i32, (g.start_y + cy) as i32, (g.start_z + cz) as i32),
                    r,
                ) && og.packed_positions[og.index_of(cx, cy, cz)] as int == packed_value(
                    (g.start_x + cx) * 16 + r.0,
                    (g.start_y + cy) * 12 + r.1,
                    (g.start_z + cz) * 16 + r.2,
                );
            assert(ng.packed_positions[ng.index_of(cx, cy, cz)] == og.packed_positions[og.index_of(
                cx,
                cy,
                cz,
            )]);
            assert(random_deriver.ensures(
                ((ng.start_x + cx) as i32, (ng.start_y + cy) as i32, (ng.start_z + cz) as i32),
                r,
            ));
            assert(ng.drawn_from(random_deriver, cx, cy, cz));
        } else {
            lemma_cell_index_injective(cx, cy, cz, x_cell, y_cell, z_cell, g.size_y, g.size_z);
            assert(ng.packed_positions[ng.index_of(cx, cy, cz)] as int == packed_value(
                (ng.start_x + cx) * 16 + offsets.0,
                (ng.start_y + cy) * 12 + offsets.1,
                (ng.start_z + cz) * 16 + offsets.2,
            ));
            assert(random_deriver.ensures(
                ((ng.start_x + cx) as i32, (ng.start_y + cy) as i32, (ng.start_z + cz) as i32),
                offsets,
            ));
            assert(ng.drawn_from(random_deriver, cx, cy, cz));
        }
    }
}

/// Once all cells have their points, every cell of the grid is drawn.
pub(crate) proof fn lemma_drawn_prefix_complete<F: Fn(i32, i32, i32) -> (i32, i32, i32)>(
    g: AquiferGrid,
    random_deriver: F,
    positions: Seq<i64>,
    levels: Seq<Option<FluidLevel>>,
)
    requires
        g.size_z == 4,
        g.size_y >= 1,
        positions.len() == 4 * 4 * g.size_y,
        drawn_prefix(g, random_deriver, positions),
    ensures
        forall|cx: int, cy: int, cz: int|
            g.in_grid(cx, cy, cz) ==> #[trigger] (AquiferGrid {
                packed_positions: positions,
                levels,
                ..g
            }).drawn_from(random_deriver, cx, cy, cz),
{
    assert forall|cx: int, cy: int, cz: int| g.in_grid(cx, cy, cz) implies #[trigger] (AquiferGrid {
        packed_positions: positions,
        levels,
        ..g
    }).drawn_from(random_deriver, cx, cy, cz) by {
        lemma_cell_index_bounds(cx, cy, cz, g.size_y, g.size_z);
        let og = AquiferGrid { packed_positions: positions, ..g };
        let ng = AquiferGrid { packed_positions: positions, levels, ..g };
        assert(og.drawn_from(random_deriver, cx, cy, cz));
        let r = choose|r: (i32, i32, i32)|
            #[trigger] random_deriver.ensures(
                ((g.start_x + cx) as i32, (g.start_y + cy) as i32, (g.start_z + cz) as i32),
                r,
            ) && og.packed_positions[og.index_of(cx, cy, cz)] as int == packed_value(
                (g.start_x + cx) * 16 + r.0,
                (g.start_y + cy) * 12 + r.1,
                (g.start_z + cz) * 16 + r.2,
            );
        assert(random_deriver.ensures(
            ((ng.start_x + cx) as i32, (ng.start_y + cy) as i32, (ng.start_z + cz) as i32),
            r,
        ));
        assert(ng.drawn_from(random_deriver, cx, cy, cz));
    }
}

/// Remembering a fluid level and then reading it back gives that level for every position of
/// the same grid cell, and leaves every other cell as it was; the grid keeps its shape.
pub proof fn lemma_cache_read_after_write(g: AquiferGrid, p: i64, q: i64, level: FluidLevel)
    requires
        g.wf(),
    ensures
        g.remember(p, level).wf(),
        g.water_level_cell(p) is Some && g.water_level_cell(q) == g.water_level_cell(p)
            ==> g.remember(p, level).cached_level(q) == Some(level),
        g.water_level_cell(q) != g.water_level_cell(p) ==> g.remember(p, level).cached_level(q)
            == g.cached_level(q),
        g.water_level_cell(p) is None ==> g.remember(p, level) == g,
{
    match g.water_level_cell(p) {
        Some(i) => {
            let cx = packed_x(p as int) / 16 - g.start_x;
            let cy = packed_y(p as int) / 12 - g.start_y;
            let cz = packed_z(p as int) / 16 - g.start_z;
            lemma_cell_index_bounds(cx, cy, cz, g.size_y, g.size_z);
            match g.water_level_cell(q) {
                Some(j) => {
                    let qx = packed_x(q as int) / 16 - g.start_x;
                    let qy = packed_y(q as int) / 12 - g.start_y;
                    let qz = packed_z(q as int) / 16 - g.start_z;
                    lemma_cell_index_bounds(qx, qy, qz, g.size_y, g.size_z);
                },
                None => {},
            }
        },
        None => {},
    }
}

/// The sample point of every cell lies within that cell: the cell that the level cache
/// assigns to the point is the cell it was drawn for (for cells whose blocks fit the packed
/// layout).
pub proof fn lemma_sample_point_in_own_cell<F: Fn(i32, i32, i32) -> (i32, i32, i32)>(
    g: AquiferGrid,
    random_deriver: F,
    cx: int,
    cy: int,
    cz: int,
)
    requires
        g.wf(),
        g.in_grid(cx, cy, cz),
        g.drawn_from(random_deriver, cx, cy, cz),
        forall|x: i32, y: i32, z: i32, r: (i32, i32, i32)|
            #[trigger] random_deriver.ensures((x, y, z), r) ==> cell_offset_in_range(r),
        i32::MIN <= g.start_x + cx <= i32::MAX,
        i32::MIN <= g.start_y + cy <= i32::MAX,
        i32::MIN <= g.start_z + cz <= i32::MAX,
        packable((g.start_x + cx) * 16, (g.start_y + cy) * 12, (g.start_z + cz) * 16),
        packable((g.start_x + cx) * 16 + 9, (g.start_y + cy) * 12 + 8, (g.start_z + cz) * 16 + 9),
    ensures
        g.water_level_cell(g.packed_positions[g.index_of(cx, cy, cz)]) == Some(g.index_of(cx, cy, cz)),
        g.is_own_point(g.packed_positions[g.index_of(cx, cy, cz)]),
{
    let ax = g.start_x + cx;
    let ay = g.start_y + cy;
    let az = g.start_z + cz;
    let r = choose|r: (i32, i32, i32)|
        #[trigger] random_deriver.ensures((ax as i32, ay as i32, az as i32), r)
            && g.packed_positions[g.index_of(cx, cy, cz)] as int == packed_value(
            ax * 16 + r.0,
            ay * 12 + r.1,
            az * 16 + r.2,
        );
    assert(cell_offset_in_range(r));
    let bx = (ax * 16 + r.0) as i32;
    let by = (ay * 12 + r.1) as i32;
    let bz = (az * 16 + r.2) as i32;
    lemma_unpack_pack(bx, by, bz);
    let p = g.packed_positions[g.index_of(cx, cy, cz)];
    assert(packed_x(p as int) == bx && packed_y(p as int) == by && packed_z(p as int) == bz);
    lemma_fundamental_div_mod_converse_div(bx as int, 16, ax, r.0 as int);
    lemma_fundamental_div_mod_converse_div(by as int, 12, ay, r.1 as int);
    lemma_fundamental_div_mod_converse_div(bz as int, 16, az, r.2 as int);
}

/// Whether `p` is the sample point of a cell of grid `g`.
pub open spec fn is_grid_point(g: AquiferGrid, p: i64) -> bool {
    exists|cx: int, cy: int, cz: int|
        g.in_grid(cx, cy, cz) && p == g.packed_positions[#[trigger] g.index_of(cx, cy, cz)]
}

/// The sample points found around a cell are at most one per search offset, and each is the
/// sample point of a grid cell.
pub proof fn lemma_random_positions_are_grid_points(g: AquiferGrid, x: int, y: int, z: int, n: nat)
    requires
        g.wf(),
        n <= 13,
    ensures
        g.search_candidates(x, y, z, n).len() <= n,
        forall|i: int|
            0 <= i < g.search_candidates(x, y, z, n).len() ==> is_grid_point(
                g,
                #[trigger] g.search_candidates(x, y, z, n)[i],
            ),
    decreases n,
{
    if n > 0 {
        lemma_random_positions_are_grid_points(g, x, y, z, (n - 1) as nat);
        let prev = g.search_candidates(x, y, z, (n - 1) as nat);
        let cur = g.search_candidates(x, y, z, n);
        assert forall|i: int| 0 <= i < cur.len() implies is_grid_point(g, #[trigger] cur[i]) by {
            if i < prev.len() {
                assert(cur[i] == prev[i]);
                assert(is_grid_point(g, prev[i]));
            } else {
                let k = n - 1;
                let cx = x - g.start_x + chunk_pos_offset(k).0;
                let cz = z - g.start_z + chunk_pos_offset(k).1;
                let cy = g.column_cell_y(y - g.start_y)->Some_0;
                assert(g.in_grid(cx, cy, cz) && cur[i] == g.packed_positions[g.index_of(cx, cy, cz)]);
            }
        }
    }
}

/// A level remembered for a grid cell is what `compute` gives at a point that is its cell's own
/// sample point, whenever every remembered level is.
pub proof fn lemma_cached_level_is_computed<C: FnOnce(i32, i32, i32) -> FluidLevel>(
    g: AquiferGrid,
    p: i64,
    compute: C,
)
    requires
        g.wf(),
        g.levels_computed_by(compute),
        g.is_own_point(p),
        g.cached_level(p) is Some,
    ensures
        compute.ensures(unpacked(p), g.cached_level(p)->Some_0),
{
    let i = g.water_level_cell(p)->Some_0;
    let cx = packed_x(p as int) / 16 - g.start_x;
    let cy = packed_y(p as int) / 12 - g.start_y;
    let cz = packed_z(p as int) / 16 - g.start_z;
    lemma_cell_index_bounds(cx, cy, cz, g.size_y, g.size_z);
    assert(g.levels[i] is Some);
}

/// Remembering what `compute` gives at a cell's own sample point (or at a point outside the
/// grid) keeps every remembered level what `compute` gives.
pub proof fn lemma_remember_keeps_computed<C: FnOnce(i32, i32, i32) -> FluidLevel>(
    g: AquiferGrid,
    p: i64,
    level: FluidLevel,
    compute: C,
)
    requires
        g.wf(),
        g.levels_computed_by(compute),
        g.water_level_cell(p) is None || g.is_own_point(p),
        compute.ensures(unpacked(p), level),
    ensures
        g.remember(p, level).levels_computed_by(compute),
{
    match g.water_level_cell(p) {
        Some(i) => {
            let cx = packed_x(p as int) / 16 - g.start_x;
            let cy = packed_y(p as int) / 12 - g.start_y;
            let cz = packed_z(p as int) / 16 - g.start_z;
            lemma_cell_index_bounds(cx, cy, cz, g.size_y, g.size_z);
            let h = g.remember(p, level);
            assert forall|j: int|
                0 <= j < h.levels.len() && #[trigger] h.levels[j] is Some implies compute.ensures(
                unpacked(h.packed_positions[j]),
                h.levels[j]->Some_0,
            ) by {
                if j != i {
                    assert(g.levels[j] is Some);
                }
            }
        },
        None => {},
    }
}

/// A cache that remembers nothing holds only levels that any computation gives.
pub proof fn lemma_empty_cache_computed_by<C: FnOnce(i32, i32, i32) -> FluidLevel>(
    g: AquiferGrid,
    compute: C,
)
    requires
        forall|i: int| 0 <= i < g.levels.len() ==> g.levels[i] is None,
    ensures
        g.levels_computed_by(compute),
{
}

/// The cell searched in a column is the lowest of `y - 1`, `y`, `y + 1` that lies in the grid:
/// whatever is found is one of them and in the grid, none lower of them is in the grid, and
/// nothing is found only when none of them is.
pub proof fn lemma_column_cell_y(g: AquiferGrid, y: int)
    ensures
        match g.column_cell_y(y) {
            Some(cy) => {
                &&& y - 1 <= cy <= y + 1
                &&& 0 <= cy < g.size_y
                &&& cy > y - 1 ==> !(0 <= y - 1 < g.size_y)
                &&& cy > y ==> !(0 <= y < g.size_y)
            },
            None => !(0 <= y - 1 < g.size_y) && !(0 <= y < g.size_y) && !(0 <= y + 1 < g.size_y),
        },
{
}

/// The sample point found for search offset `k` is that of a grid cell in the column moved by
/// the `k`-th offset, and a point is found exactly when that column and one of the cells
/// `y - 1`, `y`, `y + 1` of it lie in the grid.
pub proof fn lemma_search_candidate(g: AquiferGrid, x: int, y: int, z: int, k: int)
    ensures
        ({
            let cx = x - g.start_x + CHUNK_POS_OFFSETS@[k].0;
            let cz = z - g.start_z + CHUNK_POS_OFFSETS@[k].1;
            match g.search_candidate(x, y, z, k) {
                Some(p) => exists|cy: int|
                    y - g.start_y - 1 <= cy <= y - g.start_y + 1 && g.in_grid(cx, cy, cz) && p
                        == g.packed_positions[#[trigger] g.index_of(cx, cy, cz)],
                None => forall|cy: int|
                    y - g.start_y - 1 <= cy <= y - g.start_y + 1 ==> !#[trigger] g.in_grid(cx, cy, cz),
            }
        }),
{
    lemma_column_cell_y(g, y - g.start_y);
    let cx = x - g.start_x + CHUNK_POS_OFFSETS@[k].0;
    let cz = z - g.start_z + CHUNK_POS_OFFSETS@[k].1;
    match g.search_candidate(x, y, z, k) {
        Some(p) => {
            let cy = g.column_cell_y(y - g.start_y)->Some_0;
            assert(g.in_grid(cx, cy, cz) && p == g.packed_positions[g.index_of(cx, cy, cz)]);
        },
        None => {},
    }
}

} // verus!
