//! Clipping of a polygon against the six planes of the view volume.
//!
//! A vertex holds clip coordinates (x, y, z, w). It lies inside the view
//! volume where each of x, y and z is between -w and w. Each axis gives two
//! planes, one for each sign; where the two planes of the x axis hold, w is
//! not negative.

use vstd::prelude::*;
use crate::fixed::{floor_div, wide_product};
use crate::gpu3d::{Gpu3D, Vertex};
use crate::memconsts::MAX_POLYGON_VERTICES;

verus! {

/// The vertex is on the inner side of the plane of `axis` and `side`:
/// `side` times its coordinate on the axis is at most w. `side` is 1 for
/// the plane at +w and -1 for the plane at -w.
pub open spec fn inside(v: Vertex, axis: int, side: int) -> bool {
    side * v.coords[axis] <= v.coords[3]
}

/// How far inside the plane the vertex lies: w less `side` times the
/// coordinate. Negative for a vertex outside.
pub open spec fn distance(v: Vertex, axis: int, side: int) -> int {
    v.coords[3] - side * v.coords[axis]
}

/// The value between `a`, at the inner vertex, and `b`, at the outer one,
/// where the edge crosses the plane. `num` is the distance of the inner
/// vertex and `den` the sum of both distances; the quotient is rounded
/// toward minus infinity.
pub open spec fn lerp(a: i32, b: i32, num: int, den: int) -> i32 {
    (a + ((b - a) * num) / den) as i32
}

/// The coordinates of the point where the edge from `v_in`, inside, to
/// `v_out`, outside, crosses the plane. The coordinate on the axis of the
/// plane is set on the plane exactly.
pub open spec fn cut_coords(v_in: Vertex, v_out: Vertex, axis: int, side: int) -> [i32; 4] {
    let num = distance(v_in, axis, side);
    let den = num - distance(v_out, axis, side);
    let w = lerp(v_in.coords[3], v_out.coords[3], num, den);
    let on_plane = (side * w) as i32;
    [
        if axis == 0 {
            on_plane
        } else {
            lerp(v_in.coords[0], v_out.coords[0], num, den)
        },
        if axis == 1 {
            on_plane
        } else {
            lerp(v_in.coords[1], v_out.coords[1], num, den)
        },
        if axis == 2 {
            on_plane
        } else {
            lerp(v_in.coords[2], v_out.coords[2], num, den)
        },
        w,
    ]
}

/// The vertex where the edge from `v_in`, inside, to `v_out`, outside,
/// crosses the plane. Colours and texture coordinates are interpolated like
/// the position where `add_attributes` holds, and are those of `v_out`
/// where it does not.
pub open spec fn cut(v_in: Vertex, v_out: Vertex, axis: int, side: int, add_attributes: bool) -> Vertex {
    let num = distance(v_in, axis, side);
    let den = num - distance(v_out, axis, side);
    if add_attributes {
        Vertex {
            coords: cut_coords(v_in, v_out, axis, side),
            colors: [
                lerp(v_in.colors[0], v_out.colors[0], num, den),
                lerp(v_in.colors[1], v_out.colors[1], num, den),
                lerp(v_in.colors[2], v_out.colors[2], num, den),
            ],
            final_colors: [
                lerp(v_in.final_colors[0], v_out.final_colors[0], num, den),
                lerp(v_in.final_colors[1], v_out.final_colors[1], num, den),
                lerp(v_in.final_colors[2], v_out.final_colors[2], num, den),
            ],
            clipped: true,
            texcoords: [
                lerp(v_in.texcoords[0], v_out.texcoords[0], num, den),
                lerp(v_in.texcoords[1], v_out.texcoords[1], num, den),
            ],
        }
    } else {
        Vertex { coords: cut_coords(v_in, v_out, axis, side), clipped: true, ..v_out }
    }
}

/// The vertex before vertex `i` on the ring.
pub open spec fn before(ring: Seq<Vertex>, i: int) -> Vertex {
    if i == 0 {
        ring[ring.len() - 1]
    } else {
        ring[i - 1]
    }
}

/// The vertex after vertex `i` on the ring.
pub open spec fn after(ring: Seq<Vertex>, i: int) -> Vertex {
    if i + 1 == ring.len() {
        ring[0]
    } else {
        ring[i + 1]
    }
}

/// What vertex `i` of the ring leaves behind when the ring is cut by a
/// plane: itself where it is inside; where it is outside, the crossing of
/// each of its two edges whose other end is inside, the edge from the
/// vertex before it first. The vertices before `clip_start` were cut
/// already and are kept as they are.
pub open spec fn emitted(
    ring: Seq<Vertex>,
    i: int,
    axis: int,
    side: int,
    clip_start: int,
    add_attributes: bool,
) -> Seq<Vertex> {
    let v = ring[i];
    if i < clip_start || inside(v, axis, side) {
        seq![v]
    } else {
        let first = if inside(before(ring, i), axis, side) {
            seq![cut(before(ring, i), v, axis, side, add_attributes)]
        } else {
            Seq::<Vertex>::empty()
        };
        if inside(after(ring, i), axis, side) {
            first.push(cut(after(ring, i), v, axis, side, add_attributes))
        } else {
            first
        }
    }
}

/// What the first `n` vertices of the ring leave behind when the ring is
/// cut by a plane.
pub open spec fn cut_upto(
    ring: Seq<Vertex>,
    n: int,
    axis: int,
    side: int,
    clip_start: int,
    add_attributes: bool,
) -> Seq<Vertex>
    decreases n,
{
    if n <= 0 {
        Seq::<Vertex>::empty()
    } else {
        cut_upto(ring, n - 1, axis, side, clip_start, add_attributes) + emitted(
            ring,
            n - 1,
            axis,
            side,
            clip_start,
            add_attributes,
        )
    }
}

/// The ring cut by one plane: the vertices inside stay, in order, and each
/// edge that crosses the plane gives the vertex where it crosses.
pub open spec fn cut_by(
    ring: Seq<Vertex>,
    axis: int,
    side: int,
    clip_start: int,
    add_attributes: bool,
) -> Seq<Vertex> {
    cut_upto(ring, ring.len() as int, axis, side, clip_start, add_attributes)
}

/// A ring as far as it can become a polygon: one of more than ten vertices
/// is dropped whole.
pub open spec fn capped(ring: Seq<Vertex>) -> Seq<Vertex> {
    if ring.len() > MAX_POLYGON_VERTICES {
        Seq::<Vertex>::empty()
    } else {
        ring
    }
}

/// The ring cut by the two planes of one axis, the one at +w first.
pub open spec fn clipped_by_axis(
    ring: Seq<Vertex>,
    axis: int,
    clip_start: int,
    add_attributes: bool,
) -> Seq<Vertex> {
    capped(
        cut_by(capped(cut_by(ring, axis, 1, clip_start, add_attributes)), axis, -1, clip_start, add_attributes),
    )
}

/// Every vertex of the ring is inside the plane.
pub open spec fn all_inside(ring: Seq<Vertex>, axis: int, side: int) -> bool {
    forall|i: int| 0 <= i < ring.len() ==> inside(#[trigger] ring[i], axis, side)
}

/// Every vertex of the ring is outside the plane.
pub open spec fn all_outside(ring: Seq<Vertex>, axis: int, side: int) -> bool {
    forall|i: int| 0 <= i < ring.len() ==> !inside(#[trigger] ring[i], axis, side)
}

/// Every vertex of the ring is inside the view volume.
pub open spec fn within_volume(ring: Seq<Vertex>) -> bool {
    &&& all_inside(ring, 0, 1)
    &&& all_inside(ring, 0, -1)
    &&& all_inside(ring, 1, 1)
    &&& all_inside(ring, 1, -1)
    &&& all_inside(ring, 2, 1)
    &&& all_inside(ring, 2, -1)
}

/// The whole ring lies beyond one of the six planes.
pub open spec fn beyond_one_plane(ring: Seq<Vertex>) -> bool {
    ||| all_outside(ring, 0, 1)
    ||| all_outside(ring, 0, -1)
    ||| all_outside(ring, 1, 1)
    ||| all_outside(ring, 1, -1)
    ||| all_outside(ring, 2, 1)
    ||| all_outside(ring, 2, -1)
}

/// The polygon clipped to the view volume. A ring that lies wholly beyond
/// one plane is rejected before any edge is cut; any other is cut by the
/// planes of the z axis, then of the y axis, then of the x axis. Whenever a
/// cut leaves more than ten vertices, which no convex polygon of up to four
/// vertices does, the polygon is dropped.
#[verifier::opaque]
pub open spec fn clipped(ring: Seq<Vertex>, clip_start: int, add_attributes: bool) -> Seq<Vertex> {
    if ring.len() > MAX_POLYGON_VERTICES || beyond_one_plane(ring) {
        Seq::<Vertex>::empty()
    } else {
        clipped_by_axis(
            clipped_by_axis(clipped_by_axis(ring, 2, clip_start, add_attributes), 1, clip_start, add_attributes),
            0,
            clip_start,
            add_attributes,
        )
    }
}

/// A ring whose vertices are all inside a plane is not changed by the cut.
pub proof fn lemma_cut_keeps_inside_ring(
    ring: Seq<Vertex>,
    n: int,
    axis: int,
    side: int,
    clip_start: int,
    add_attributes: bool,
)
    requires
        all_inside(ring, axis, side),
        0 <= n <= ring.len(),
    ensures
        cut_upto(ring, n, axis, side, clip_start, add_attributes) == ring.subrange(0, n),
    decreases n,
{
    if n > 0 {
        lemma_cut_keeps_inside_ring(ring, n - 1, axis, side, clip_start, add_attributes);
        assert(inside(ring[n - 1], axis, side));
        assert(ring.subrange(0, n - 1) + seq![ring[n - 1]] =~= ring.subrange(0, n));
    } else {
        assert(ring.subrange(0, 0) =~= Seq::<Vertex>::empty());
    }
}

/// Clipping a polygon that lies inside the view volume gives back the
/// same vertices, in the same order, with nothing changed.
pub proof fn lemma_clip_inside_is_identity(ring: Seq<Vertex>, clip_start: int, add_attributes: bool)
    requires
        ring.len() <= MAX_POLYGON_VERTICES,
        within_volume(ring),
    ensures
        clipped(ring, clip_start, add_attributes) == ring,
{
    reveal(clipped);
    if ring.len() == 0 {
        assert(cut_by(ring, 2, 1, clip_start, add_attributes) =~= ring);
        assert(cut_by(ring, 2, -1, clip_start, add_attributes) =~= ring);
        assert(cut_by(ring, 1, 1, clip_start, add_attributes) =~= ring);
        assert(cut_by(ring, 1, -1, clip_start, add_attributes) =~= ring);
        assert(cut_by(ring, 0, 1, clip_start, add_attributes) =~= ring);
        assert(cut_by(ring, 0, -1, clip_start, add_attributes) =~= ring);
        assert(clipped(ring, clip_start, add_attributes) =~= ring);
    } else {
        assert(inside(ring[0], 0, 1) && inside(ring[0], 0, -1) && inside(ring[0], 1, 1) && inside(
            ring[0],
            1,
            -1,
        ) && inside(ring[0], 2, 1) && inside(ring[0], 2, -1));
        assert(!beyond_one_plane(ring));
        let n = ring.len() as int;
        assert(ring.subrange(0, n) =~= ring);
        lemma_cut_keeps_inside_ring(ring, n, 2, 1, clip_start, add_attributes);
        lemma_cut_keeps_inside_ring(ring, n, 2, -1, clip_start, add_attributes);
        assert(clipped_by_axis(ring, 2, clip_start, add_attributes) == ring);
        lemma_cut_keeps_inside_ring(ring, n, 1, 1, clip_start, add_attributes);
        lemma_cut_keeps_inside_ring(ring, n, 1, -1, clip_start, add_attributes);
        assert(clipped_by_axis(ring, 1, clip_start, add_attributes) == ring);
        lemma_cut_keeps_inside_ring(ring, n, 0, 1, clip_start, add_attributes);
        lemma_cut_keeps_inside_ring(ring, n, 0, -1, clip_start, add_attributes);
        assert(clipped_by_axis(ring, 0, clip_start, add_attributes) == ring);
    }
}

/// Clipping a polygon that lies wholly beyond one plane leaves no vertex.
pub proof fn lemma_clip_outside_is_empty(
    ring: Seq<Vertex>,
    axis: int,
    side: int,
    clip_start: int,
    add_attributes: bool,
)
    requires
        0 <= axis < 3,
        side == 1 || side == -1,
        all_outside(ring, axis, side),
    ensures
        clipped(ring, clip_start, add_attributes).len() == 0,
{
    reveal(clipped);
}

/// Clipping never leaves more than ten vertices.
pub proof fn lemma_clip_at_most_ten(ring: Seq<Vertex>, clip_start: int, add_attributes: bool)
    ensures
        clipped(ring, clip_start, add_attributes).len() <= MAX_POLYGON_VERTICES,
{
    reveal(clipped);
}

/// How many of the first `n` vertices of the ring are inside the plane.
pub open spec fn inside_upto(ring: Seq<Vertex>, n: int, axis: int, side: int) -> int
    decreases n,
{
    if n <= 0 {
        0
    } else {
        inside_upto(ring, n - 1, axis, side) + if inside(ring[n - 1], axis, side) {
            1int
        } else {
            0int
        }
    }
}

/// How many of the first `n` vertices of the ring are outside the plane
/// while the vertex before them is inside: the places where the outline
/// leaves the inner side.
pub open spec fn exits_upto(ring: Seq<Vertex>, n: int, axis: int, side: int) -> int
    decreases n,
{
    if n <= 0 {
        0
    } else {
        exits_upto(ring, n - 1, axis, side) + if !inside(ring[n - 1], axis, side) && inside(
            before(ring, n - 1),
            axis,
            side,
        ) {
            1int
        } else {
            0int
        }
    }
}

/// How many of the first `n` vertices of the ring are outside the plane
/// while the vertex after them is inside: the places where the outline
/// comes back to the inner side.
pub open spec fn entries_upto(ring: Seq<Vertex>, n: int, axis: int, side: int) -> int
    decreases n,
{
    if n <= 0 {
        0
    } else {
        entries_upto(ring, n - 1, axis, side) + if !inside(ring[n - 1], axis, side) && inside(
            after(ring, n - 1),
            axis,
            side,
        ) {
            1int
        } else {
            0int
        }
    }
}

/// The outline crosses the plane at most twice: it leaves the inner side
/// at most once and comes back at most once, as the outline of every
/// convex polygon does.
pub open spec fn crosses_at_most_twice(ring: Seq<Vertex>, axis: int, side: int) -> bool {
    exits_upto(ring, ring.len() as int, axis, side) <= 1 && entries_upto(
        ring,
        ring.len() as int,
        axis,
        side,
    ) <= 1
}

/// A cut leaves the vertices inside and one vertex for each crossing.
pub proof fn lemma_cut_counts(ring: Seq<Vertex>, n: int, axis: int, side: int, add_attributes: bool)
    requires
        0 <= n <= ring.len(),
    ensures
        cut_upto(ring, n, axis, side, 0, add_attributes).len() == inside_upto(ring, n, axis, side)
            + exits_upto(ring, n, axis, side) + entries_upto(ring, n, axis, side),
        0 <= inside_upto(ring, n, axis, side) <= n,
        0 <= exits_upto(ring, n, axis, side),
        0 <= entries_upto(ring, n, axis, side),
        exits_upto(ring, n, axis, side) + entries_upto(ring, n, axis, side) > 0 ==> inside_upto(
            ring,
            n,
            axis,
            side,
        ) < n,
    decreases n,
{
    if n > 0 {
        lemma_cut_counts(ring, n - 1, axis, side, add_attributes);
    }
}

/// A cut by a plane that the outline crosses at most twice adds at most
/// one vertex.
pub proof fn lemma_convex_cut_adds_one(ring: Seq<Vertex>, axis: int, side: int, add_attributes: bool)
    requires
        crosses_at_most_twice(ring, axis, side),
    ensures
        cut_by(ring, axis, side, 0, add_attributes).len() <= ring.len() + 1,
{
    lemma_cut_counts(ring, ring.len() as int, axis, side, add_attributes);
}

/// The axis of the plane that is cut by in place `j` of the six.
pub open spec fn plane_axis(j: int) -> int {
    2 - j / 2
}

/// The side of the plane that is cut by in place `j` of the six.
pub open spec fn plane_side(j: int) -> int {
    if j % 2 == 0 {
        1
    } else {
        -1
    }
}

/// The ring after it is cut by the first `k` of the six planes, whatever
/// the number of its vertices.
pub open spec fn cut_by_first(ring: Seq<Vertex>, k: int, add_attributes: bool) -> Seq<Vertex>
    decreases k,
{
    if k <= 0 {
        ring
    } else {
        cut_by(
            cut_by_first(ring, k - 1, add_attributes),
            plane_axis(k - 1),
            plane_side(k - 1),
            0,
            add_attributes,
        )
    }
}

/// Each of the six planes crosses the outline, as the planes before it
/// have left it, at most twice.
pub open spec fn convex_throughout(ring: Seq<Vertex>, add_attributes: bool) -> bool {
    forall|j: int|
        0 <= j < 6 ==> crosses_at_most_twice(
            #[trigger] cut_by_first(ring, j, add_attributes),
            plane_axis(j),
            plane_side(j),
        )
}

/// A triangle or quadrilateral that every plane crosses at most twice, as
/// is the case for a convex polygon, is never dropped for the number of
/// its vertices: clipping cuts it by the six planes in turn, each of which
/// adds at most one vertex.
pub proof fn lemma_convex_polygon_is_not_dropped(ring: Seq<Vertex>, add_attributes: bool)
    requires
        ring.len() <= 4,
        !beyond_one_plane(ring),
        convex_throughout(ring, add_attributes),
    ensures
        clipped(ring, 0, add_attributes) == cut_by_first(ring, 6, add_attributes),
        clipped(ring, 0, add_attributes).len() <= ring.len() + 6,
{
    reveal(clipped);
    reveal_with_fuel(cut_by_first, 7);
    let r0 = cut_by_first(ring, 0, add_attributes);
    let r1 = cut_by_first(ring, 1, add_attributes);
    let r2 = cut_by_first(ring, 2, add_attributes);
    let r3 = cut_by_first(ring, 3, add_attributes);
    let r4 = cut_by_first(ring, 4, add_attributes);
    let r5 = cut_by_first(ring, 5, add_attributes);
    let r6 = cut_by_first(ring, 6, add_attributes);
    assert(r0 == ring);
    lemma_convex_cut_adds_one(r0, 2, 1, add_attributes);
    assert(r1 == cut_by(r0, 2, 1, 0, add_attributes));
    lemma_convex_cut_adds_one(r1, 2, -1, add_attributes);
    assert(r2 == cut_by(r1, 2, -1, 0, add_attributes));
    lemma_convex_cut_adds_one(r2, 1, 1, add_attributes);
    assert(r3 == cut_by(r2, 1, 1, 0, add_attributes));
    lemma_convex_cut_adds_one(r3, 1, -1, add_attributes);
    assert(r4 == cut_by(r3, 1, -1, 0, add_attributes));
    lemma_convex_cut_adds_one(r4, 0, 1, add_attributes);
    assert(r5 == cut_by(r4, 0, 1, 0, add_attributes));
    lemma_convex_cut_adds_one(r5, 0, -1, add_attributes);
    assert(r6 == cut_by(r5, 0, -1, 0, add_attributes));
    assert(clipped_by_axis(ring, 2, 0, add_attributes) == r2);
    assert(clipped_by_axis(r2, 1, 0, add_attributes) == r4);
    assert(clipped_by_axis(r4, 0, 0, add_attributes) == r6);
}

/// The vertex is on the inner side of the plane, or its weight is the
/// least value of a lane, whose negative no lane can hold, and the plane
/// is the one at -w.
pub open spec fn on_inner_side(v: Vertex, axis: int, side: int) -> bool {
    inside(v, axis, side) || (side == -1 && v.coords[3] == i32::MIN)
}

/// The vertex where an edge crosses a plane lies on the plane: its
/// coordinate on the axis of the plane is its weight, taken with the sign
/// of the plane.
pub proof fn lemma_cut_lies_on_plane(
    v_in: Vertex,
    v_out: Vertex,
    axis: int,
    side: int,
    add_attributes: bool,
)
    requires
        0 <= axis < 3,
        side == 1 || side == -1,
    ensures
        cut(v_in, v_out, axis, side, add_attributes).coords[axis] == (side * cut(
            v_in,
            v_out,
            axis,
            side,
            add_attributes,
        ).coords[3]) as i32,
        on_inner_side(cut(v_in, v_out, axis, side, add_attributes), axis, side),
        cut(v_in, v_out, axis, side, add_attributes).coords[3] >= 0 ==> inside(
            cut(v_in, v_out, axis, side, add_attributes),
            axis,
            -side,
        ),
{
    let c = cut_coords(v_in, v_out, axis, side);
    assert(cut(v_in, v_out, axis, side, add_attributes).coords == c);
    let w = c[3];
    assert(c[axis] == (side * w) as i32);
}

/// Every vertex that a cut leaves is on the inner side of the plane of
/// the cut.
pub proof fn lemma_cut_leaves_inner_side(
    ring: Seq<Vertex>,
    n: int,
    axis: int,
    side: int,
    add_attributes: bool,
)
    requires
        0 <= n <= ring.len(),
        0 <= axis < 3,
        side == 1 || side == -1,
    ensures
        forall|k: int|
            0 <= k < cut_upto(ring, n, axis, side, 0, add_attributes).len() ==> on_inner_side(
                #[trigger] cut_upto(ring, n, axis, side, 0, add_attributes)[k],
                axis,
                side,
            ),
    decreases n,
{
    if n > 0 {
        lemma_cut_leaves_inner_side(ring, n - 1, axis, side, add_attributes);
        let v = ring[n - 1];
        lemma_cut_lies_on_plane(before(ring, n - 1), v, axis, side, add_attributes);
        lemma_cut_lies_on_plane(after(ring, n - 1), v, axis, side, add_attributes);
        let head = cut_upto(ring, n - 1, axis, side, 0, add_attributes);
        let tail = emitted(ring, n - 1, axis, side, 0, add_attributes);
        assert forall|k: int| 0 <= k < (head + tail).len() implies on_inner_side(
            #[trigger] (head + tail)[k],
            axis,
            side,
        ) by {
            if k >= head.len() {
                assert((head + tail)[k] == tail[k - head.len()]);
            }
        }
    }
}

/// Every vertex that the second cut of an axis leaves, and whose weight is
/// not negative, lies between the two planes of the axis, if the ring that
/// is cut lies on the inner side of the first.
pub proof fn lemma_second_cut_keeps_first(
    ring: Seq<Vertex>,
    n: int,
    axis: int,
    add_attributes: bool,
)
    requires
        0 <= n <= ring.len(),
        0 <= axis < 3,
        forall|k: int| 0 <= k < ring.len() ==> inside(#[trigger] ring[k], axis, 1),
    ensures
        forall|k: int|
            0 <= k < cut_upto(ring, n, axis, -1, 0, add_attributes).len() && (#[trigger] cut_upto(
                ring,
                n,
                axis,
                -1,
                0,
                add_attributes,
            )[k]).coords[3] >= 0 ==> inside(
                cut_upto(ring, n, axis, -1, 0, add_attributes)[k],
                axis,
                1,
            ) && inside(cut_upto(ring, n, axis, -1, 0, add_attributes)[k], axis, -1),
    decreases n,
{
    if n > 0 {
        lemma_second_cut_keeps_first(ring, n - 1, axis, add_attributes);
        let v = ring[n - 1];
        lemma_cut_lies_on_plane(before(ring, n - 1), v, axis, -1, add_attributes);
        lemma_cut_lies_on_plane(after(ring, n - 1), v, axis, -1, add_attributes);
        let head = cut_upto(ring, n - 1, axis, -1, 0, add_attributes);
        let tail = emitted(ring, n - 1, axis, -1, 0, add_attributes);
        assert forall|k: int|
            0 <= k < (head + tail).len() && (#[trigger] (head + tail)[k]).coords[3]
                >= 0 implies inside((head + tail)[k], axis, 1) && inside(
            (head + tail)[k],
            axis,
            -1,
        ) by {
            if k >= head.len() {
                assert((head + tail)[k] == tail[k - head.len()]);
            }
        }
    }
}

/// What clipping leaves lies between the two planes of the x axis, which
/// are cut by last: every vertex left whose weight is not negative has its
/// x between -w and w. The planes of the other two axes are cut by
/// earlier, and rounding in a later cut may take a vertex past one of them
/// by a unit.
pub proof fn lemma_clip_leaves_x_planes(ring: Seq<Vertex>, add_attributes: bool)
    ensures
        forall|k: int|
            0 <= k < clipped(ring, 0, add_attributes).len() && (#[trigger] clipped(
                ring,
                0,
                add_attributes,
            )[k]).coords[3] >= 0 ==> inside(clipped(ring, 0, add_attributes)[k], 0, 1) && inside(
                clipped(ring, 0, add_attributes)[k],
                0,
                -1,
            ),
{
    reveal(clipped);
    if !(ring.len() > MAX_POLYGON_VERTICES || beyond_one_plane(ring)) {
        let by_y = clipped_by_axis(clipped_by_axis(ring, 2, 0, add_attributes), 1, 0, add_attributes);
        let upper = capped(cut_by(by_y, 0, 1, 0, add_attributes));
        lemma_cut_leaves_inner_side(by_y, by_y.len() as int, 0, 1, add_attributes);
        assert forall|k: int| 0 <= k < upper.len() implies inside(#[trigger] upper[k], 0, 1) by {
            assert(upper == cut_by(by_y, 0, 1, 0, add_attributes));
            assert(on_inner_side(cut_upto(by_y, by_y.len() as int, 0, 1, 0, add_attributes)[k], 0, 1));
        }
        lemma_second_cut_keeps_first(upper, upper.len() as int, 0, add_attributes);
    }
}

/// `side` as one of the two signs: what is not positive counts as -1.
pub open spec fn sign_of(side: i32) -> int {
    if side > 0 {
        1
    } else {
        -1
    }
}

fn distance_exec(v: &Vertex, axis: usize, side: i32) -> (r: i128)
    requires
        axis < 3,
    ensures
        r == distance(*v, axis as int, sign_of(side)),
        -0x1_0000_0000 <= r <= 0x1_0000_0000,
{
    if side > 0 {
        v.coords[3] as i128 - v.coords[axis] as i128
    } else {
        v.coords[3] as i128 + v.coords[axis] as i128
    }
}

fn inside_exec(v: &Vertex, axis: usize, side: i32) -> (r: bool)
    requires
        axis < 3,
    ensures
        r == inside(*v, axis as int, sign_of(side)),
{
    distance_exec(v, axis, side) >= 0
}

fn lerp_exec(a: i32, b: i32, num: i128, den: i128) -> (r: i32)
    requires
        -0x1_0000_0000 <= num <= 0x1_0000_0000,
        0 < den <= 0x2_0000_0000,
    ensures
        r == lerp(a, b, num as int, den as int),
{
    let q = floor_div(wide_product(b as i128 - a as i128, num), den);
    proof {
        let p: int = (b - a) * num;
        let d: int = den as int;
        assert(-0x8_0000_0000_0000_0000_0000_0000 <= p / d <= 0x8_0000_0000_0000_0000_0000_0000)
            by (nonlinear_arith)
            requires
                -0x8_0000_0000_0000_0000_0000_0000 <= p <= 0x8_0000_0000_0000_0000_0000_0000,
                0 < d,
        ;
    }
    #[verifier::truncate]
    ((a as i128 + q) as i32)
}

fn cut_coords_exec(v_in: &Vertex, v_out: &Vertex, axis: usize, side: i32) -> (r: [i32; 4])
    requires
        axis < 3,
        inside(*v_in, axis as int, sign_of(side)),
        !inside(*v_out, axis as int, sign_of(side)),
    ensures
        r == cut_coords(*v_in, *v_out, axis as int, sign_of(side)),
{
    let num = distance_exec(v_in, axis, side);
    let den = num - distance_exec(v_out, axis, side);
    let w = lerp_exec(v_in.coords[3], v_out.coords[3], num, den);
    let on_plane: i32 = if side > 0 {
        w
    } else {
        #[verifier::truncate]
        ((-(w as i64)) as i32)
    };
    assert(on_plane == (sign_of(side) * w) as i32);
    let r = [
        if axis == 0 {
            on_plane
        } else {
            lerp_exec(v_in.coords[0], v_out.coords[0], num, den)
        },
        if axis == 1 {
            on_plane
        } else {
            lerp_exec(v_in.coords[1], v_out.coords[1], num, den)
        },
        if axis == 2 {
            on_plane
        } else {
            lerp_exec(v_in.coords[2], v_out.coords[2], num, den)
        },
        w,
    ];
    assert(r =~= cut_coords(*v_in, *v_out, axis as int, sign_of(side)));
    r
}

impl Gpu3D {
    /// The vertex where the edge from `v_in`, inside the plane, to `v_out`,
    /// outside it, crosses the plane of axis `plane` and sign `side`.
    pub fn clip_vertex(
        plane: usize,
        v_out: &Vertex,
        v_in: &Vertex,
        side: i32,
        add_attributes: bool,
    ) -> (r: Vertex)
        requires
            plane < 3,
            inside(*v_in, plane as int, sign_of(side)),
            !inside(*v_out, plane as int, sign_of(side)),
        ensures
            r == cut(*v_in, *v_out, plane as int, sign_of(side), add_attributes),
    {
        let coords = cut_coords_exec(v_in, v_out, plane, side);
        if add_attributes {
            let num = distance_exec(v_in, plane, side);
            let den = num - distance_exec(v_out, plane, side);
            let r = Vertex {
                coords,
                colors: [
                    lerp_exec(v_in.colors[0], v_out.colors[0], num, den),
                    lerp_exec(v_in.colors[1], v_out.colors[1], num, den),
                    lerp_exec(v_in.colors[2], v_out.colors[2], num, den),
                ],
                final_colors: [
                    lerp_exec(v_in.final_colors[0], v_out.final_colors[0], num, den),
                    lerp_exec(v_in.final_colors[1], v_out.final_colors[1], num, den),
                    lerp_exec(v_in.final_colors[2], v_out.final_colors[2], num, den),
                ],
                clipped: true,
                texcoords: [
                    lerp_exec(v_in.texcoords[0], v_out.texcoords[0], num, den),
                    lerp_exec(v_in.texcoords[1], v_out.texcoords[1], num, den),
                ],
            };
            let ghost c = cut(*v_in, *v_out, plane as int, sign_of(side), add_attributes);
            assert(r.colors =~= c.colors);
            assert(r.final_colors =~= c.final_colors);
            assert(r.texcoords =~= c.texcoords);
            r
        } else {
            Vertex { coords, clipped: true, ..*v_out }
        }
    }
}


fn all_outside_exec(v_list: &Vec<Vertex>, axis: usize, side: i32) -> (r: bool)
    requires
        axis < 3,
    ensures
        r == all_outside(v_list@, axis as int, sign_of(side)),
{
    let mut i: usize = 0;
    while i < v_list.len()
        invariant
            axis < 3,
            i <= v_list.len(),
            forall|k: int| 0 <= k < i ==> !inside(#[trigger] v_list@[k], axis as int, sign_of(side)),
        decreases v_list.len() - i,
    {
        if inside_exec(&v_list[i], axis, side) {
            return false;
        }
        i = i + 1;
    }
    true
}

fn beyond_one_plane_exec(v_list: &Vec<Vertex>) -> (r: bool)
    ensures
        r == beyond_one_plane(v_list@),
{
    all_outside_exec(v_list, 0, 1) || all_outside_exec(v_list, 0, -1) || all_outside_exec(
        v_list,
        1,
        1,
    ) || all_outside_exec(v_list, 1, -1) || all_outside_exec(v_list, 2, 1) || all_outside_exec(
        v_list,
        2,
        -1,
    )
}

/// Cuts the ring by one plane.
fn cut_side(
    plane: usize,
    side: i32,
    v_list: &Vec<Vertex>,
    clip_start: usize,
    add_attributes: bool,
) -> (r: Vec<Vertex>)
    requires
        plane < 3,
    ensures
        r@ == cut_by(v_list@, plane as int, sign_of(side), clip_start as int, add_attributes),
{
    let n = v_list.len();
    let mut out: Vec<Vertex> = Vec::new();
    let mut i: usize = 0;
    while i < n
        invariant
            plane < 3,
            n == v_list.len(),
            i <= n,
            out@ == cut_upto(
                v_list@,
                i as int,
                plane as int,
                sign_of(side),
                clip_start as int,
                add_attributes,
            ),
        decreases n - i,
    {
        let v = v_list[i];
        let ghost expected = emitted(
            v_list@,
            i as int,
            plane as int,
            sign_of(side),
            clip_start as int,
            add_attributes,
        );
        let ghost so_far = out@;
        if i < clip_start || inside_exec(&v, plane, side) {
            out.push(v);
            assert(out@ =~= so_far + expected);
        } else {
            let prev = if i == 0 {
                v_list[n - 1]
            } else {
                v_list[i - 1]
            };
            let next = if i + 1 == n {
                v_list[0]
            } else {
                v_list[i + 1]
            };
            if inside_exec(&prev, plane, side) {
                out.push(Gpu3D::clip_vertex(plane, &v, &prev, side, add_attributes));
            }
            if inside_exec(&next, plane, side) {
                out.push(Gpu3D::clip_vertex(plane, &v, &next, side, add_attributes));
            }
            assert(out@ =~= so_far + expected);
        }
        i = i + 1;
    }
    out
}

fn cap(ring: Vec<Vertex>) -> (r: Vec<Vertex>)
    ensures
        r@ == capped(ring@),
{
    if ring.len() > MAX_POLYGON_VERTICES {
        Vec::new()
    } else {
        ring
    }
}

impl Gpu3D {
    /// Cuts the ring by the two planes of one axis: 0 for x, 1 for y, 2
    /// for z.
    pub fn clip_plane(
        plane: usize,
        v_list: &Vec<Vertex>,
        clip_start: usize,
        add_attributes: bool,
    ) -> (r: Vec<Vertex>)
        requires
            plane < 3,
        ensures
            r@ == clipped_by_axis(v_list@, plane as int, clip_start as int, add_attributes),
            r@.len() <= MAX_POLYGON_VERTICES,
    {
        let upper = cap(cut_side(plane, 1, v_list, clip_start, add_attributes));
        cap(cut_side(plane, -1, &upper, clip_start, add_attributes))
    }

    /// Clips a polygon to the view volume and hands back what is left of
    /// it, at most ten vertices.
    pub fn clip(v_list: &Vec<Vertex>, clip_start: usize, add_attributes: bool) -> (r: Vec<Vertex>)
        ensures
            r@ == clipped(v_list@, clip_start as int, add_attributes),
            r@.len() <= MAX_POLYGON_VERTICES,
            within_volume(v_list@) && v_list@.len() <= MAX_POLYGON_VERTICES ==> r@ == v_list@,
            beyond_one_plane(v_list@) ==> r@.len() == 0,
    {
        proof {
            reveal(clipped);
            if within_volume(v_list@) && v_list@.len() <= MAX_POLYGON_VERTICES {
                lemma_clip_inside_is_identity(v_list@, clip_start as int, add_attributes);
            }
        }
        if v_list.len() > MAX_POLYGON_VERTICES || beyond_one_plane_exec(v_list) {
            return Vec::new();
        }
        let by_z = Gpu3D::clip_plane(2, v_list, clip_start, add_attributes);
        let by_y = Gpu3D::clip_plane(1, &by_z, clip_start, add_attributes);
        Gpu3D::clip_plane(0, &by_y, clip_start, add_attributes)
    }
}

} // verus!
