//! Selection of the three aquifer sample points nearest to a position.
use vstd::prelude::*;
use crate::noise_router::block_pos::{packed_x, packed_y, packed_z, unpack_x, unpack_y, unpack_z};

verus! {

/// A sample point and its squared distance to the position being sampled.
pub type PointDistance = (i64, i32);

/// Squared distance from the position packed in `p` to `(x, y, z)`.
pub open spec fn dist_sq(p: i64, x: int, y: int, z: int) -> int {
    let dx = packed_x(p as int) - x;
    let dy = packed_y(p as int) - y;
    let dz = packed_z(p as int) - z;
    dx * dx + dy * dy + dz * dz
}

/// The empty selection: no point yet, each slot at the greatest distance.
pub open spec fn no_nearest() -> (PointDistance, PointDistance, PointDistance) {
    ((0, i32::MAX), (0, i32::MAX), (0, i32::MAX))
}

/// Inserts point `p` at squared distance `d` into the selection `n` of the three nearest
/// points, kept in increasing order of distance; a point no nearer than the third is left out,
/// and among equal distances the earlier point stays first.
pub open spec fn insert_nearest(
    n: (PointDistance, PointDistance, PointDistance),
    p: i64,
    d: i32,
) -> (PointDistance, PointDistance, PointDistance) {
    if d < n.2.1 {
        if d < n.1.1 {
            if d < n.0.1 {
                ((p, d), n.0, n.1)
            } else {
                (n.0, (p, d), n.1)
            }
        } else {
            (n.0, n.1, (p, d))
        }
    } else {
        n
    }
}

/// The selection of the three nearest of `points` to `(x, y, z)`, inserting the points in order.
pub open spec fn nearest_points(points: Seq<i64>, x: int, y: int, z: int) -> (
    PointDistance,
    PointDistance,
    PointDistance,
)
    decreases points.len(),
{
    if points.len() == 0 {
        no_nearest()
    } else {
        insert_nearest(
            nearest_points(points.drop_last(), x, y, z),
            points.last(),
            dist_sq(points.last(), x, y, z) as i32,
        )
    }
}

/// Whether every point of `points` is within `i32` squared distance of `(x, y, z)`.
pub open spec fn distances_fit(points: Seq<i64>, x: int, y: int, z: int) -> bool {
    forall|i: int| 0 <= i < points.len() ==> #[trigger] dist_sq(points[i], x, y, z) <= i32::MAX
}

/// Squared distances are never negative.
proof fn lemma_dist_sq_nonneg(p: i64, x: int, y: int, z: int)
    ensures
        dist_sq(p, x, y, z) >= 0,
{
    let dx = packed_x(p as int) - x;
    let dy = packed_y(p as int) - y;
    let dz = packed_z(p as int) - z;
    assert(dx * dx + dy * dy + dz * dz >= 0) by (nonlinear_arith);
}

/// A squared distance that fits in an `i32` has each of its terms small.
proof fn lemma_small_square_terms(dx: int, dy: int, dz: int)
    requires
        dx * dx + dy * dy + dz * dz <= i32::MAX,
    ensures
        -46341 < dx < 46341,
        -46341 < dy < 46341,
        -46341 < dz < 46341,
{
    assert(0 <= dx * dx && 0 <= dy * dy && 0 <= dz * dz) by (nonlinear_arith);
    assert(-46341 < dx < 46341) by (nonlinear_arith)
        requires
            dx * dx <= i32::MAX,
    ;
    assert(-46341 < dy < 46341) by (nonlinear_arith)
        requires
            dy * dy <= i32::MAX,
    ;
    assert(-46341 < dz < 46341) by (nonlinear_arith)
        requires
            dz * dz <= i32::MAX,
    ;
}

/// Squared distance from packed point `p` to `(x, y, z)`.
fn distance_sq(p: i64, x: i32, y: i32, z: i32) -> (r: i32)
    requires
        dist_sq(p, x as int, y as int, z as int) <= i32::MAX,
    ensures
        r == dist_sq(p, x as int, y as int, z as int),
{
    let dx: i64 = unpack_x(p) as i64 - x as i64;
    let dy: i64 = unpack_y(p) as i64 - y as i64;
    let dz: i64 = unpack_z(p) as i64 - z as i64;
    proof {
        lemma_small_square_terms(dx as int, dy as int, dz as int);
        assert(0 <= dx * dx < 46341 * 46341) by (nonlinear_arith)
            requires
                -46341 < dx < 46341,
        ;
        assert(0 <= dy * dy < 46341 * 46341) by (nonlinear_arith)
            requires
                -46341 < dy < 46341,
        ;
        assert(0 <= dz * dz < 46341 * 46341) by (nonlinear_arith)
            requires
                -46341 < dz < 46341,
        ;
    }
    (dx * dx + dy * dy + dz * dz) as i32
}

/// Finds the three sample points nearest to `(sample_x, sample_y, sample_z)` among `points`,
/// in increasing order of distance, each with its squared distance. Slots that no point
/// fills hold point `0` at distance `i32::MAX`.
pub fn nearest_points_to(points: &Vec<i64>, sample_x: i32, sample_y: i32, sample_z: i32) -> (r: (
    PointDistance,
    PointDistance,
    PointDistance,
))
    requires
        distances_fit(points@, sample_x as int, sample_y as int, sample_z as int),
    ensures
        r == nearest_points(points@, sample_x as int, sample_y as int, sample_z as int),
{
    let mut n0: PointDistance = (0, i32::MAX);
    let mut n1: PointDistance = (0, i32::MAX);
    let mut n2: PointDistance = (0, i32::MAX);
    let mut i: usize = 0;
    while i < points.len()
        invariant
            0 <= i <= points@.len(),
            distances_fit(points@, sample_x as int, sample_y as int, sample_z as int),
            (n0, n1, n2) == nearest_points(
                points@.subrange(0, i as int),
                sample_x as int,
                sample_y as int,
                sample_z as int,
            ),
        decreases points@.len() - i,
    {
        let packed_random = points[i];
        assert(dist_sq(points@[i as int], sample_x as int, sample_y as int, sample_z as int)
            <= i32::MAX);
        let dist = distance_sq(packed_random, sample_x, sample_y, sample_z);
        if dist < n2.1 {
            if dist < n1.1 {
                if dist < n0.1 {
                    n2 = n1;
                    n1 = n0;
                    n0 = (packed_random, dist);
                } else {
                    n2 = n1;
                    n1 = (packed_random, dist);
                }
            } else {
                n2 = (packed_random, dist);
            }
        }
        assert(points@.subrange(0, i + 1).drop_last() == points@.subrange(0, i as int));
        i = i + 1;
    }
    assert(points@.subrange(0, points@.len() as int) == points@);
    (n0, n1, n2)
}

/// Whether the selection entry `e` is one of `points` with its squared distance.
pub open spec fn is_point_of(e: PointDistance, points: Seq<i64>, x: int, y: int, z: int) -> bool {
    exists|j: int|
        0 <= j < points.len() && e == (#[trigger] points[j], dist_sq(points[j], x, y, z) as i32)
}

/// The selection holds the three nearest points: its distances increase, each entry is
/// one of the points (or an unfilled slot), and every point is in the selection or no
/// nearer than its third entry.
pub proof fn lemma_nearest_points_are_nearest(points: Seq<i64>, x: int, y: int, z: int)
    requires
        distances_fit(points, x, y, z),
    ensures
        ({
            let n = nearest_points(points, x, y, z);
            &&& n.0.1 <= n.1.1 <= n.2.1
            &&& n.0 == (0i64, i32::MAX) || is_point_of(n.0, points, x, y, z)
            &&& n.1 == (0i64, i32::MAX) || is_point_of(n.1, points, x, y, z)
            &&& n.2 == (0i64, i32::MAX) || is_point_of(n.2, points, x, y, z)
            &&& forall|i: int|
                #![trigger points[i]]
                0 <= i < points.len() ==> {
                    let e = (points[i], dist_sq(points[i], x, y, z) as i32);
                    dist_sq(points[i], x, y, z) >= n.2.1 || e == n.0 || e == n.1 || e == n.2
                }
        }),
    decreases points.len(),
{
    if points.len() > 0 {
        let prev = points.drop_last();
        assert(distances_fit(prev, x, y, z)) by {
            assert forall|i: int| 0 <= i < prev.len() implies #[trigger] dist_sq(
                prev[i],
                x,
                y,
                z,
            ) <= i32::MAX by {
                assert(prev[i] == points[i]);
            }
        }
        lemma_nearest_points_are_nearest(prev, x, y, z);
        let p = points.last();
        assert(dist_sq(points[points.len() - 1], x, y, z) <= i32::MAX);
        let m = nearest_points(prev, x, y, z);
        let n = nearest_points(points, x, y, z);
        let last = points.len() - 1;
        lemma_dist_sq_nonneg(p, x, y, z);
        // entries taken over from the previous selection stay points of the longer sequence
        assert forall|e: PointDistance| is_point_of(e, prev, x, y, z) implies is_point_of(
            e,
            points,
            x,
            y,
            z,
        ) by {
            let j = choose|j: int|
                0 <= j < prev.len() && e == (#[trigger] prev[j], dist_sq(prev[j], x, y, z) as i32);
            assert(points[j] == prev[j]);
        }
        assert(is_point_of((p, dist_sq(p, x, y, z) as i32), points, x, y, z)) by {
            assert(points[last] == p);
        }
        assert forall|i: int| #![trigger points[i]] 0 <= i < points.len() implies {
            let e = (points[i], dist_sq(points[i], x, y, z) as i32);
            dist_sq(points[i], x, y, z) >= n.2.1 || e == n.0 || e == n.1 || e == n.2
        } by {
            lemma_dist_sq_nonneg(points[i], x, y, z);
            if i < last {
                assert(points[i] == prev[i]);
                assert(dist_sq(prev[i], x, y, z) <= i32::MAX);
            }
        }
    }
}

/// Squared distance of point `i` of `points` to `(x, y, z)`.
pub open spec fn dist_of(points: Seq<i64>, x: int, y: int, z: int, i: int) -> int {
    dist_sq(points[i], x, y, z)
}

/// Whether point `i` is among the first `len` points and nearer than `i32::MAX`.
pub open spec fn selectable(points: Seq<i64>, len: int, x: int, y: int, z: int, i: int) -> bool {
    0 <= i < len && dist_of(points, x, y, z, i) < i32::MAX
}

/// Whether point `i` comes before point `j` when the points are sorted by squared distance,
/// earlier points first among equal distances.
pub open spec fn ranks_before(points: Seq<i64>, x: int, y: int, z: int, i: int, j: int) -> bool {
    dist_of(points, x, y, z, i) < dist_of(points, x, y, z, j) || (dist_of(points, x, y, z, i)
        == dist_of(points, x, y, z, j) && i < j)
}

/// Whether entry `e` is point `j` with its squared distance.
pub open spec fn entry_of(points: Seq<i64>, x: int, y: int, z: int, e: PointDistance, j: int) -> bool {
    e == (points[j], dist_of(points, x, y, z, j) as i32)
}

/// Whether `n` holds, in order, the first three of the first `len` points when sorted by
/// squared distance (earlier points first among equals), points `j0`, `j1`, `j2`; slots left
/// over when fewer points are nearer than `i32::MAX` hold point `0` at distance `i32::MAX`.
pub open spec fn first_three_at(
    points: Seq<i64>,
    len: int,
    x: int,
    y: int,
    z: int,
    n: (PointDistance, PointDistance, PointDistance),
    j0: int,
    j1: int,
    j2: int,
) -> bool {
    &&& ({
        ||| n.0 == (0i64, i32::MAX) && forall|i: int| !#[trigger] selectable(points, len, x, y, z, i)
        ||| selectable(points, len, x, y, z, j0) && entry_of(points, x, y, z, n.0, j0) && forall|
            i: int,
        | #[trigger] selectable(points, len, x, y, z, i) && i != j0 ==> ranks_before(
            points,
            x,
            y,
            z,
            j0,
            i,
        )
    })
    &&& ({
        ||| n.1 == (0i64, i32::MAX) && forall|i: int| #[trigger]
            selectable(points, len, x, y, z, i) ==> i == j0
        ||| selectable(points, len, x, y, z, j1) && j1 != j0 && entry_of(points, x, y, z, n.1, j1)
            && forall|i: int|
            #[trigger] selectable(points, len, x, y, z, i) && i != j0 && i != j1 ==> ranks_before(
                points,
                x,
                y,
                z,
                j1,
                i,
            )
    })
    &&& ({
        ||| n.2 == (0i64, i32::MAX) && forall|i: int| #[trigger]
            selectable(points, len, x, y, z, i) ==> i == j0 || i == j1
        ||| selectable(points, len, x, y, z, j2) && j2 != j0 && j2 != j1 && entry_of(
            points,
            x,
            y,
            z,
            n.2,
            j2,
        ) && forall|i: int|
            #[trigger] selectable(points, len, x, y, z, i) && i != j0 && i != j1 && i != j2
                ==> ranks_before(points, x, y, z, j2, i)
    })
}

/// The selection of the nearest points is the first three points of the input sorted stably
/// by squared distance: three distinct points, no point left out that is nearer than the
/// third (or as near and earlier), and unfilled slots only when fewer than three points are
/// nearer than `i32::MAX`.
pub proof fn lemma_nearest_points_first_three(points: Seq<i64>, x: int, y: int, z: int)
    requires
        distances_fit(points, x, y, z),
    ensures
        exists|j0: int, j1: int, j2: int|
            #[trigger] first_three_at(
                points,
                points.len() as int,
                x,
                y,
                z,
                nearest_points(points, x, y, z),
                j0,
                j1,
                j2,
            ),
{
    lemma_prefix_first_three(points, points.len() as int, x, y, z);
    assert(points.take(points.len() as int) == points);
}

/// The selection of the first `len` points is the first three of them, sorted stably.
proof fn lemma_prefix_first_three(points: Seq<i64>, len: int, x: int, y: int, z: int)
    requires
        distances_fit(points, x, y, z),
        0 <= len <= points.len(),
    ensures
        exists|j0: int, j1: int, j2: int|
            #[trigger] first_three_at(
                points,
                len,
                x,
                y,
                z,
                nearest_points(points.take(len), x, y, z),
                j0,
                j1,
                j2,
            ),
    decreases len,
{
    if len == 0 {
        assert(first_three_at(points, 0, x, y, z, nearest_points(points.take(0), x, y, z), 0, 0, 0));
    } else {
        let m = len - 1;
        lemma_prefix_first_three(points, m, x, y, z);
        let mm = nearest_points(points.take(m), x, y, z);
        let (a0, a1, a2) = choose|j0: int, j1: int, j2: int|
            #[trigger] first_three_at(points, m, x, y, z, mm, j0, j1, j2);
        assert(points.take(len).drop_last() == points.take(m));
        assert(points.take(len).last() == points[m]);
        let p = points[m];
        let d = dist_of(points, x, y, z, m);
        assert forall|i: int| 0 <= i < points.len() implies 0 <= #[trigger] dist_of(points, x, y, z, i)
            <= i32::MAX by {
            lemma_dist_sq_nonneg(points[i], x, y, z);
        }
        assert(dist_sq(points[m], x, y, z) <= i32::MAX);
        let n = nearest_points(points.take(len), x, y, z);
        assert(n == insert_nearest(mm, p, d as i32));
        lemma_insert_first_three(points, len, x, y, z, mm, a0, a1, a2);
    }
}

/// Inserting point `len - 1` into the first three of the first `len - 1` points gives the first
/// three of the first `len` points.
proof fn lemma_insert_first_three(
    points: Seq<i64>,
    len: int,
    x: int,
    y: int,
    z: int,
    mm: (PointDistance, PointDistance, PointDistance),
    a0: int,
    a1: int,
    a2: int,
)
    requires
        1 <= len <= points.len(),
        forall|i: int| 0 <= i < points.len() ==> 0 <= #[trigger] dist_of(points, x, y, z, i) <= i32::MAX,
        first_three_at(points, len - 1, x, y, z, mm, a0, a1, a2),
    ensures
        exists|j0: int, j1: int, j2: int|
            #[trigger] first_three_at(
                points,
                len,
                x,
                y,
                z,
                insert_nearest(mm, points[len - 1], dist_of(points, x, y, z, len - 1) as i32),
                j0,
                j1,
                j2,
            ),
{
    let m = len - 1;
    let p = points[m];
    let d = dist_of(points, x, y, z, m);
    let n = insert_nearest(mm, p, d as i32);
    assert(0 <= d <= i32::MAX);
    assert forall|i: int| #[trigger] selectable(points, len, x, y, z, i) && i != m implies selectable(points, m, x, y, z, i) by {}
    if !(d < i32::MAX) {
        assert(first_three_at(points, len, x, y, z, n, a0, a1, a2));
    } else if !((d as i32) < mm.2.1) {
        assert(first_three_at(points, len, x, y, z, n, a0, a1, a2));
    } else if !((d as i32) < mm.1.1) {
        assert(first_three_at(points, len, x, y, z, n, a0, a1, m));
    } else if !((d as i32) < mm.0.1) {
        assert(first_three_at(points, len, x, y, z, n, a0, m, a1));
    } else {
        assert(first_three_at(points, len, x, y, z, n, m, a0, a1));
    }
}

} // verus!
