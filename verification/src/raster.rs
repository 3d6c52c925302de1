//! The rasterizer: which polygon of the render buffer shows at each pixel
//! of a scanline.
//!
//! A polygon covers the pixels that lie on one side of all its edges, on
//! the scanlines between its top and its bottom. It is drawn flat: every
//! pixel of it has the colour and the depth of its first vertex.

use vstd::prelude::*;
use crate::bits::{field, get_field};
use crate::buffers::filled;
use crate::compose::{argb, to_argb, from_channels, make_color};
use crate::fixed::wide_product;
use crate::geometry::GxModel;
use crate::gpu3d::{Gpu3D, Polygon, Vertex};
use crate::gxstate::GxState;
use crate::memconsts::{PIXELS_PER_LINE, SCANLINES};

verus! {

/// What the 3D layer holds at one pixel while a scanline is drawn.
#[derive(Debug, Clone, Copy)]
pub struct Fragment {
    /// The colour, where a polygon or the rear plane shows.
    pub color: Option<u32>,
    /// The depth of what shows; smaller is nearer.
    pub depth: u32,
    /// The polygon id of the translucent polygon that shows, 255 where
    /// none does.
    pub trans_id: u8,
}

/// The id that marks a pixel as not covered by a translucent polygon.
pub const NO_TRANSLUCENT: u8 = 0xFF;

/// On which side of the edge from `a` to `b` the pixel lies: positive on
/// one side, negative on the other, zero on the edge.
pub open spec fn cross(a: Vertex, b: Vertex, px: int, py: int) -> int {
    (b.coords[0] - a.coords[0]) * (py - a.coords[1]) - (b.coords[1] - a.coords[1]) * (px
        - a.coords[0])
}

/// The side of edge `k` of the ring, which runs from vertex `k` to the
/// next one around.
pub open spec fn edge_side(ring: Seq<Vertex>, k: int, px: int, py: int) -> int {
    cross(
        ring[k],
        ring[if k + 1 == ring.len() {
            0
        } else {
            k + 1
        }],
        px,
        py,
    )
}

/// The pixel lies on the non-negative side of every edge.
pub open spec fn all_left(ring: Seq<Vertex>, px: int, py: int) -> bool {
    forall|k: int| 0 <= k < ring.len() ==> #[trigger] edge_side(ring, k, px, py) >= 0
}

/// The pixel lies on the non-positive side of every edge.
pub open spec fn all_right(ring: Seq<Vertex>, px: int, py: int) -> bool {
    forall|k: int| 0 <= k < ring.len() ==> #[trigger] edge_side(ring, k, px, py) <= 0
}

/// The vertices of the polygon are in the buffer.
pub open spec fn in_buffer(poly: Polygon, verts: Seq<Vertex>) -> bool {
    poly.vertices >= 3 && poly.vert_index + poly.vertices <= verts.len()
}

/// The vertices of the polygon, in the order of its outline.
pub open spec fn outline(poly: Polygon, verts: Seq<Vertex>) -> Seq<Vertex> {
    verts.subrange(poly.vert_index as int, poly.vert_index + poly.vertices)
}

/// The polygon covers pixel (`px`, `py`).
pub open spec fn covers(poly: Polygon, verts: Seq<Vertex>, px: int, py: int) -> bool {
    &&& in_buffer(poly, verts)
    &&& poly.top_y <= py <= poly.bottom_y
    &&& (all_left(outline(poly, verts), px, py) || all_right(outline(poly, verts), px, py))
}

/// The colour that the polygon is drawn in: that of its first vertex.
pub open spec fn polygon_color(poly: Polygon, verts: Seq<Vertex>) -> u32 {
    let v = verts[poly.vert_index as int];
    from_channels(v.final_colors[0] as u32, v.final_colors[1] as u32, v.final_colors[2] as u32)
}

/// The depth that the polygon is drawn at: that of its first vertex.
pub open spec fn polygon_depth(poly: Polygon, verts: Seq<Vertex>) -> u32 {
    verts[poly.vert_index as int].coords[2] as u32
}

/// The polygon passes the depth test against what the pixel holds: it is
/// nearer, or, in depth-equal mode, exactly as deep.
pub open spec fn passes_depth(poly: Polygon, depth: u32, frag: Fragment) -> bool {
    if poly.attributes.depth_test_equal {
        depth == frag.depth
    } else {
        depth < frag.depth
    }
}

/// The pixel after the polygon is drawn. Where the polygon covers the
/// pixel and passes the depth test, it shows; a translucent polygon does
/// not show over a translucent polygon of the same id, and sets the depth
/// only where its attributes say so.
pub open spec fn shade(frag: Fragment, poly: Polygon, verts: Seq<Vertex>, px: int, py: int) -> Fragment {
    let depth = polygon_depth(poly, verts);
    if covers(poly, verts, px, py) && passes_depth(poly, depth, frag) && !(poly.translucent
        && frag.trans_id == poly.attributes.id as u8) {
        Fragment {
            color: Some(polygon_color(poly, verts)),
            depth: if !poly.translucent || poly.attributes.set_new_trans_depth {
                depth
            } else {
                frag.depth
            },
            trans_id: if poly.translucent {
                poly.attributes.id as u8
            } else {
                NO_TRANSLUCENT
            },
        }
    } else {
        frag
    }
}

/// The pixel after the first `n` polygons are drawn, in the order in which
/// they were submitted.
pub open spec fn shaded(
    polys: Seq<Polygon>,
    verts: Seq<Vertex>,
    n: int,
    start: Fragment,
    px: int,
    py: int,
) -> Fragment
    decreases n,
{
    if n <= 0 {
        start
    } else {
        shade(shaded(polys, verts, n - 1, start, px, py), polys[n - 1], verts, px, py)
    }
}

/// What a pixel holds before any polygon is drawn: the rear plane, in the
/// clear colour where its alpha is not zero, at the clear depth.
pub open spec fn rear_plane(state: GxState) -> Fragment {
    Fragment {
        color: if field(state.clear_color, 16, 0x1F) != 0 {
            Some(argb(field(state.clear_color, 0, 0x7FFF) as u16))
        } else {
            None
        },
        depth: field(state.clear_depth, 0, 0x7FFF),
        trans_id: NO_TRANSLUCENT,
    }
}

impl GxModel {
    /// What the 3D layer shows at column `x` of scanline `line`: nothing,
    /// or a colour.
    pub open spec fn raster_pixel(self, line: int, x: int) -> Option<u32> {
        shaded(
            self.core.rend_poly,
            self.core.rend_vert,
            self.core.rend_poly.len() as int,
            rear_plane(self.core.state),
            x,
            line,
        ).color
    }

    /// What the 3D layer shows on scanline `line`.
    pub open spec fn raster_line(self, line: int) -> Seq<Option<u32>> {
        Seq::new(PIXELS_PER_LINE as nat, |x: int| self.raster_pixel(line, x))
    }
}

fn cross_exec(a: &Vertex, b: &Vertex, px: i64, py: i64) -> (r: i128)
    requires
        0 <= px < 0x1_0000,
        0 <= py < 0x1_0000,
    ensures
        r == cross(*a, *b, px as int, py as int),
{
    let dx = b.coords[0] as i128 - a.coords[0] as i128;
    let dy = b.coords[1] as i128 - a.coords[1] as i128;
    let ex = px as i128 - a.coords[0] as i128;
    let ey = py as i128 - a.coords[1] as i128;
    wide_product(dx, ey) - wide_product(dy, ex)
}

fn covers_exec(poly: &Polygon, verts: &Vec<Vertex>, px: usize, py: usize) -> (r: bool)
    requires
        px < PIXELS_PER_LINE,
        py < SCANLINES,
    ensures
        r == covers(*poly, verts@, px as int, py as int),
{
    let start = poly.vert_index as usize;
    let n = poly.vertices as usize;
    if n < 3 || start + n > verts.len() || (py as u16) < poly.top_y || (py as u16) > poly.bottom_y {
        return false;
    }
    let ghost ring = outline(*poly, verts@);
    let mut left = true;
    let mut right = true;
    let mut k: usize = 0;
    while k < n
        invariant
            k <= n,
            n == poly.vertices,
            start == poly.vert_index,
            n >= 3,
            start + n <= verts.len(),
            px < PIXELS_PER_LINE,
            py < SCANLINES,
            ring == outline(*poly, verts@),
            left == (forall|j: int| 0 <= j < k ==> #[trigger] edge_side(ring, j, px as int, py as int) >= 0),
            right == (forall|j: int| 0 <= j < k ==> #[trigger] edge_side(ring, j, px as int, py as int) <= 0),
        decreases n - k,
    {
        let next = if k + 1 == n {
            0
        } else {
            k + 1
        };
        let side = cross_exec(&verts[start + k], &verts[start + next], px as i64, py as i64);
        assert(side == edge_side(ring, k as int, px as int, py as int));
        if side < 0 {
            left = false;
        }
        if side > 0 {
            right = false;
        }
        k = k + 1;
    }
    left || right
}

fn shade_exec(frag: Fragment, poly: &Polygon, verts: &Vec<Vertex>, px: usize, py: usize) -> (r: Fragment)
    requires
        px < PIXELS_PER_LINE,
        py < SCANLINES,
    ensures
        r == shade(frag, *poly, verts@, px as int, py as int),
{
    if !covers_exec(poly, verts, px, py) {
        return frag;
    }
    let v = &verts[poly.vert_index as usize];
    let depth = v.coords[2] as u32;
    let passes = if poly.attributes.depth_test_equal {
        depth == frag.depth
    } else {
        depth < frag.depth
    };
    let id = poly.attributes.id as u8;
    if passes && !(poly.translucent && frag.trans_id == id) {
        Fragment {
            color: Some(
                make_color(
                    v.final_colors[0] as u32,
                    v.final_colors[1] as u32,
                    v.final_colors[2] as u32,
                ),
            ),
            depth: if !poly.translucent || poly.attributes.set_new_trans_depth {
                depth
            } else {
                frag.depth
            },
            trans_id: if poly.translucent {
                id
            } else {
                NO_TRANSLUCENT
            },
        }
    } else {
        frag
    }
}

fn rear_plane_exec(state: &GxState) -> (r: Fragment)
    ensures
        r == rear_plane(*state),
{
    Fragment {
        color: if get_field(state.clear_color, 16, 0x1F) != 0 {
            Some(to_argb(get_field(state.clear_color, 0, 0x7FFF) as u16))
        } else {
            None
        },
        depth: get_field(state.clear_depth, 0, 0x7FFF),
        trans_id: NO_TRANSLUCENT,
    }
}

impl Gpu3D {
    /// Draws one polygon on the pixels of a scanline.
    fn shade_line(&self, frags: &mut Vec<Fragment>, index: usize, line: usize)
        requires
            index < self.rend_poly.len(),
            line < SCANLINES,
            old(frags).len() == PIXELS_PER_LINE,
        ensures
            final(frags).len() == PIXELS_PER_LINE,
            forall|x: int|
                0 <= x < PIXELS_PER_LINE ==> #[trigger] final(frags)@[x] == shade(
                    old(frags)@[x],
                    self.rend_poly@[index as int],
                    self.rend_vert@,
                    x,
                    line as int,
                ),
    {
        let poly = self.rend_poly[index];
        let mut x: usize = 0;
        while x < PIXELS_PER_LINE
            invariant
                x <= PIXELS_PER_LINE,
                line < SCANLINES,
                index < self.rend_poly.len(),
                poly == self.rend_poly@[index as int],
                frags.len() == PIXELS_PER_LINE,
                forall|k: int|
                    0 <= k < x ==> #[trigger] frags@[k] == shade(
                        old(frags)@[k],
                        poly,
                        self.rend_vert@,
                        k,
                        line as int,
                    ),
                forall|k: int| x <= k < PIXELS_PER_LINE ==> frags@[k] == old(frags)@[k],
            decreases PIXELS_PER_LINE - x,
        {
            let f = shade_exec(frags[x], &poly, &self.rend_vert, x, line);
            frags[x] = f;
            x = x + 1;
        }
    }

    /// What the 3D layer holds at each pixel of a scanline once every
    /// polygon of the render buffer is drawn.
    fn shade_scanline(&self, line: usize) -> (frags: Vec<Fragment>)
        requires
            line < SCANLINES,
        ensures
            frags.len() == PIXELS_PER_LINE,
            forall|x: int|
                0 <= x < PIXELS_PER_LINE ==> (#[trigger] frags@[x]).color == self@.raster_pixel(
                    line as int,
                    x,
                ),
    {
        let start = rear_plane_exec(&self.state);
        let mut frags = filled(PIXELS_PER_LINE, start);
        let n = self.rend_poly.len();
        let mut i: usize = 0;
        while i < n
            invariant
                i <= n,
                n == self.rend_poly.len(),
                line < SCANLINES,
                frags.len() == PIXELS_PER_LINE,
                start == rear_plane(self.state),
                forall|x: int|
                    0 <= x < PIXELS_PER_LINE ==> #[trigger] frags@[x] == shaded(
                        self.rend_poly@,
                        self.rend_vert@,
                        i as int,
                        start,
                        x,
                        line as int,
                    ),
            decreases n - i,
        {
            self.shade_line(&mut frags, i, line);
            i = i + 1;
        }
        frags
    }

    /// Render a single scanline into the provided line buffers: where the
    /// 3D layer shows at a column, the column takes its colour and the
    /// priority given; the other columns are left as they are.
    pub fn render_scanline(
        &self,
        line: usize,
        framebuffer: &mut Vec<u32>,
        bg_priorities: &mut Vec<u8>,
        bg0_priority: u8,
    )
        requires
            line < SCANLINES,
            old(framebuffer).len() == PIXELS_PER_LINE,
            old(bg_priorities).len() == PIXELS_PER_LINE,
        ensures
            final(framebuffer).len() == PIXELS_PER_LINE,
            final(bg_priorities).len() == PIXELS_PER_LINE,
            forall|x: int|
                0 <= x < PIXELS_PER_LINE ==> written(
                    self@.raster_pixel(line as int, x),
                    bg0_priority,
                    (old(framebuffer)@[x], old(bg_priorities)@[x]),
                    (#[trigger] final(framebuffer)@[x], final(bg_priorities)@[x]),
                ),
    {
        let frags = self.shade_scanline(line);
        let mut x: usize = 0;
        while x < PIXELS_PER_LINE
            invariant
                x <= PIXELS_PER_LINE,
                frags.len() == PIXELS_PER_LINE,
                framebuffer.len() == PIXELS_PER_LINE,
                bg_priorities.len() == PIXELS_PER_LINE,
                forall|k: int|
                    0 <= k < PIXELS_PER_LINE ==> (#[trigger] frags@[k]).color
                        == self@.raster_pixel(line as int, k),
                forall|k: int|
                    0 <= k < x ==> written(
                        self@.raster_pixel(line as int, k),
                        bg0_priority,
                        (old(framebuffer)@[k], old(bg_priorities)@[k]),
                        (#[trigger] framebuffer@[k], bg_priorities@[k]),
                    ),
                forall|k: int|
                    x <= k < PIXELS_PER_LINE ==> framebuffer@[k] == old(framebuffer)@[k]
                        && bg_priorities@[k] == old(bg_priorities)@[k],
            decreases PIXELS_PER_LINE - x,
        {
            match frags[x].color {
                Some(c) => {
                    framebuffer[x] = c;
                    bg_priorities[x] = bg0_priority;
                },
                None => {},
            }
            x = x + 1;
        }
    }
}

/// What the rasterizer leaves at a column of the line buffers: the colour
/// of the 3D layer and the priority given where the layer shows, and what
/// was there before where it does not. `before` and `after` hold the
/// colour and the priority at the column.
pub open spec fn written(pixel: Option<u32>, priority: u8, before: (u32, u8), after: (u32, u8)) -> bool {
    match pixel {
        Some(c) => after == (c, priority),
        None => after == before,
    }
}

} // verus!
