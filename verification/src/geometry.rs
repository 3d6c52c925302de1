//! What the geometry commands do to the engine: vertices become polygons,
//! polygons are clipped and brought to screen coordinates, and the two
//! geometry buffers change places when a swap is due.

use vstd::prelude::*;
use vstd::array::spec_array_update;
use crate::bits::{field, get_field};
use crate::clip::clipped;
use crate::fixed::{floor_div, wide_product};
use crate::gpu3d::{
    Disp3dCnt, GxCommand, Polygon, PolygonAttr, TexImageParam, Vertex, Viewport, command_cost,
};
use crate::gxstate::{GxState, vertices_needed};
use crate::matrix::{Mtx, to_lane};
use crate::memconsts::{MAX_POLYGONS, MAX_VERTICES, PIPE_CAPACITY, FIFO_CAPACITY};

verus! {

/// `v` brought into the range from `lo` to `hi`.
pub open spec fn clamp(v: int, lo: int, hi: int) -> int {
    if v < lo {
        lo
    } else if v > hi {
        hi
    } else {
        v
    }
}

/// A clip coordinate `c` with weight `w` brought to the screen: the range
/// from -w to w is spread over `scale` steps from `offset` on, and the
/// result kept between 0 and `max`. A vertex whose weight is not positive
/// has no place on the screen and goes to `offset`.
pub open spec fn project(c: int, w: int, scale: int, offset: int, max: int) -> int {
    if w <= 0 {
        clamp(offset, 0, max)
    } else {
        clamp(((c + w) * scale) / (2 * w) + offset, 0, max)
    }
}

/// The vertex with its clip coordinates replaced by screen coordinates:
/// column, scanline (counted downward) and a depth of fifteen bits; the
/// weight is kept.
pub open spec fn to_screen(v: Vertex, vp: Viewport) -> Vertex {
    let w = v.coords[3] as int;
    Vertex {
        coords: [
            project(v.coords[0] as int, w, vp.x2 - vp.x1 + 1, vp.x1 as int, 255) as i32,
            project(-(v.coords[1] as int), w, vp.y2 - vp.y1 + 1, vp.y1 as int, 191) as i32,
            project(v.coords[2] as int, w, 0x7FFF, 0, 0x7FFF) as i32,
            v.coords[3],
        ],
        ..v
    }
}

fn project_exec(c: i64, w: i32, scale: i32, offset: i32, max: i32) -> (r: i32)
    requires
        -0x8000_0000 <= c <= 0x8000_0000,
        -0x8000 <= scale <= 0x8000,
        0 <= offset <= 0x8000,
        0 <= max <= 0x7FFF,
    ensures
        r == project(c as int, w as int, scale as int, offset as int, max as int),
        0 <= r <= max,
{
    let raw: i128 = if w <= 0 {
        offset as i128
    } else {
        let p = wide_product(c as i128 + w as i128, scale as i128);
        floor_div(p, 2 * (w as i128)) + offset as i128
    };
    if raw < 0 {
        0
    } else if raw > max as i128 {
        max
    } else {
        raw as i32
    }
}

pub fn to_screen_exec(v: &Vertex, vp: &Viewport) -> (r: Vertex)
    ensures
        r == to_screen(*v, *vp),
        0 <= r.coords[0] <= 255,
        0 <= r.coords[1] <= 191,
        0 <= r.coords[2] <= 0x7FFF,
{
    let w = v.coords[3];
    let r = Vertex {
        coords: [
            project_exec(v.coords[0] as i64, w, vp.x2 as i32 - vp.x1 as i32 + 1, vp.x1 as i32, 255),
            project_exec(
                -(v.coords[1] as i64),
                w,
                vp.y2 as i32 - vp.y1 as i32 + 1,
                vp.y1 as i32,
                191,
            ),
            project_exec(v.coords[2] as i64, w, 0x7FFF, 0, 0x7FFF),
            w,
        ],
        ..*v
    };
    assert(r.coords =~= to_screen(*v, *vp).coords);
    r
}

/// The vertices of a ring, each brought to the screen.
pub open spec fn on_screen(ring: Seq<Vertex>, vp: Viewport) -> Seq<Vertex> {
    Seq::new(ring.len(), |i: int| to_screen(ring[i], vp))
}

/// The topmost scanline among the first `n` vertices, none above the last
/// scanline of the screen.
pub open spec fn top_of(vs: Seq<Vertex>, n: int) -> int
    decreases n,
{
    if n <= 0 {
        191
    } else if vs[n - 1].coords[1] < top_of(vs, n - 1) {
        vs[n - 1].coords[1] as int
    } else {
        top_of(vs, n - 1)
    }
}

/// The bottommost scanline among the first `n` vertices, none above the
/// first scanline of the screen.
pub open spec fn bottom_of(vs: Seq<Vertex>, n: int) -> int
    decreases n,
{
    if n <= 0 {
        0
    } else if vs[n - 1].coords[1] > bottom_of(vs, n - 1) {
        vs[n - 1].coords[1] as int
    } else {
        bottom_of(vs, n - 1)
    }
}

/// The registers and the two geometry buffers: what commands act on.
pub struct GxCore {
    pub state: GxState,
    /// The vertices that the geometry engine has produced this frame.
    pub geo_vert: Seq<Vertex>,
    /// The polygons that the geometry engine has produced this frame.
    pub geo_poly: Seq<Polygon>,
    /// The vertices that the rasterizer draws from.
    pub rend_vert: Seq<Vertex>,
    /// The polygons that the rasterizer draws.
    pub rend_poly: Seq<Polygon>,
}

/// The mathematical model of the 3D engine: the core and the two stages of
/// the command queue.
pub struct GxModel {
    pub core: GxCore,
    pub fifo: Seq<GxCommand>,
    pub pipe: Seq<GxCommand>,
}

/// The sixteen-bit half of a parameter word from bit `shift` on, as a
/// signed fixed-point lane.
pub open spec fn half(word: u32, shift: u32) -> i16 {
    field(word, shift, 0xFFFF) as i16
}

/// The ten-bit part of a parameter word from bit `shift` on, as a signed
/// fixed-point lane: its six lowest bits are zero.
pub open spec fn tenth(word: u32, shift: u32) -> i16 {
    (field(word, shift, 0x3FF) << 6) as i16
}

pub fn half_exec(word: u32, shift: u32) -> (r: i16)
    requires
        shift < 32,
    ensures
        r == half(word, shift),
{
    get_field(word, shift, 0xFFFF) as i16
}

pub fn tenth_exec(word: u32, shift: u32) -> (r: i16)
    requires
        shift < 32,
    ensures
        r == tenth(word, shift),
{
    (get_field(word, shift, 0x3FF) << 6) as i16
}

impl GxState {
    /// The polygon of `n` vertices that starts at vertex `start` of the
    /// geometry buffer, with the attributes of the run in work.
    pub open spec fn polygon_of(self, screen: Seq<Vertex>, start: int) -> Polygon {
        Polygon {
            vert_index: start as u16,
            vertices: screen.len() as u8,
            top_y: top_of(screen, screen.len() as int) as u16,
            bottom_y: bottom_of(screen, screen.len() as int) as u16,
            attributes: self.current_poly_attr,
            texparams: self.teximage_param,
            palette_base: self.pltt_base,
            translucent: self.current_poly_attr.translucent(),
        }
    }

    /// The state with the RAM overflow flag set.
    pub open spec fn overflowed(self) -> GxState {
        GxState { disp3dcnt: Disp3dCnt { ram_overflow: true, ..self.disp3dcnt }, ..self }
    }

    /// The state with the matrix stack error flag set where `error` holds.
    pub open spec fn stack_checked(self, error: bool) -> GxState {
        if error {
            GxState { gxstat: crate::gpu3d::GxStat { mtx_overflow: true, ..self.gxstat }, ..self }
        } else {
            self
        }
    }

    /// The state after a matrix command.
    pub open spec fn matrix_command(self, cmd: GxCommand) -> GxState {
        let p = cmd.params@;
        let op = cmd.command;
        if op == 0x10 {
            GxState { mtx: self.mtx.with_mode(p[0]), ..self }
        } else if op == 0x11 {
            (GxState { mtx: self.mtx.pushed(), ..self }).stack_checked(self.mtx.push_overflows())
        } else if op == 0x12 {
            (GxState { mtx: self.mtx.popped(p[0]), ..self }).stack_checked(
                self.mtx.pop_underflows(p[0]),
            )
        } else if op == 0x15 {
            GxState { mtx: self.mtx.loaded(Mtx::identity()), ..self }
        } else if op == 0x16 {
            GxState { mtx: self.mtx.loaded(Mtx::from_words_4x4(p)), ..self }
        } else if op == 0x17 {
            GxState { mtx: self.mtx.loaded(Mtx::from_words_4x3(p)), ..self }
        } else if op == 0x18 {
            GxState { mtx: self.mtx.multiplied(Mtx::from_words_4x4(p), true), ..self }
        } else if op == 0x19 {
            GxState { mtx: self.mtx.multiplied(Mtx::from_words_4x3(p), true), ..self }
        } else if op == 0x1A {
            GxState { mtx: self.mtx.multiplied(Mtx::from_words_3x3(p), true), ..self }
        } else if op == 0x1B {
            GxState { mtx: self.mtx.multiplied(Mtx::scaling(p), false), ..self }
        } else if op == 0x1C {
            GxState { mtx: self.mtx.multiplied(Mtx::translation(p), true), ..self }
        } else {
            self
        }
    }

    /// The state after a command that sets the coordinates of the next
    /// vertex: all three as sixteen-bit or ten-bit lanes, or two of them
    /// with the third kept.
    pub open spec fn vertex_command(self, cmd: GxCommand) -> GxState {
        let p = cmd.params@;
        let op = cmd.command;
        let old = self.current_vertex;
        GxState {
            current_vertex: if op == 0x23 {
                [half(p[0], 0), half(p[0], 16), half(p[1], 0)]
            } else if op == 0x24 {
                [tenth(p[0], 0), tenth(p[0], 10), tenth(p[0], 20)]
            } else if op == 0x25 {
                [half(p[0], 0), half(p[0], 16), old[2]]
            } else if op == 0x26 {
                [half(p[0], 0), old[1], half(p[0], 16)]
            } else {
                [old[0], half(p[0], 0), half(p[0], 16)]
            },
            ..self
        }
    }

    /// The state after a command that sets an attribute of the vertices
    /// and polygons to come.
    pub open spec fn attribute_command(self, cmd: GxCommand) -> GxState {
        let p = cmd.params@;
        let op = cmd.command;
        if op == 0x20 {
            GxState { current_color: field(p[0], 0, 0x7FFF), ..self }
        } else if op == 0x22 {
            GxState { current_texcoords: [half(p[0], 0), half(p[0], 16)], ..self }
        } else if op == 0x29 {
            GxState { polygon_attr: PolygonAttr::decode(p[0]), ..self }
        } else if op == 0x2A {
            GxState { teximage_param: TexImageParam::decode(p[0]), ..self }
        } else if op == 0x2B {
            GxState { pltt_base: field(p[0], 0, 0x1FFF), ..self }
        } else if op == 0x60 {
            GxState { viewport: Viewport::decode(p[0]), ..self }
        } else {
            self
        }
    }
}

/// The command sets the coordinates of a vertex.
pub open spec fn is_vertex_command(op: u8) -> bool {
    0x23 <= op <= 0x27
}

impl GxCore {
    /// The buffers are within their capacities.
    pub open spec fn wf(self) -> bool {
        &&& self.state.wf()
        &&& self.geo_vert.len() <= MAX_VERTICES
        &&& self.geo_poly.len() <= MAX_POLYGONS
        &&& self.rend_vert.len() <= MAX_VERTICES
        &&& self.rend_poly.len() <= MAX_POLYGONS
    }

    /// The core after a clipped polygon of the run described by `before`
    /// is handed to the geometry buffer. With fewer than three vertices it
    /// is dropped. Where a buffer has no room for it, it is dropped too and
    /// the RAM overflow flag is set. Otherwise its vertices go to the
    /// geometry buffer in screen coordinates, and the polygon with them.
    pub open spec fn stored(self, ring: Seq<Vertex>, before: GxState) -> GxCore {
        if ring.len() < 3 {
            self
        } else if self.geo_vert.len() + ring.len() > MAX_VERTICES || self.geo_poly.len()
            >= MAX_POLYGONS {
            GxCore { state: self.state.overflowed(), ..self }
        } else {
            let screen = on_screen(ring, before.viewport);
            GxCore {
                geo_vert: self.geo_vert + screen,
                geo_poly: self.geo_poly.push(before.polygon_of(screen, self.geo_vert.len() as int)),
                ..self
            }
        }
    }

    /// The core after the polygon whose vertices are complete is taken
    /// up: it is clipped and what is left of it handed to the geometry
    /// buffer.
    pub open spec fn assembled(self) -> GxCore {
        (GxCore { state: self.state.after_polygon(), ..self }).stored(
            clipped(self.state.ring(), 0, true),
            self.state,
        )
    }

    /// The core after the vertex that the registers describe is
    /// submitted. Outside a run a vertex is ignored. Inside one the clip
    /// matrix is brought up to date, the vertex is carried through it and
    /// joins the polygon in work, which is taken up once it is complete.
    pub open spec fn submitted(self) -> GxCore {
        if !self.state.run_open {
            self
        } else {
            let fresh = GxState { mtx: self.state.mtx.refreshed(), ..self.state };
            let joined = GxState {
                vertex_list: spec_array_update(
                    fresh.vertex_list,
                    fresh.vertex_list_count as int,
                    fresh.current(),
                ),
                vertex_list_count: (fresh.vertex_list_count + 1) as u8,
                ..fresh
            };
            if joined.vertex_list_count >= vertices_needed(joined.polygon_type) {
                (GxCore { state: joined, ..self }).assembled()
            } else {
                GxCore { state: joined, ..self }
            }
        }
    }

    /// The core after a command is executed. A command that names no
    /// operation of the engine, or that does not have the parameters its
    /// operation takes, changes nothing.
    #[verifier::opaque]
    pub open spec fn executed(self, cmd: GxCommand) -> GxCore {
        let op = cmd.command;
        if !cmd.complete() {
            self
        } else if 0x10 <= op <= 0x1C {
            GxCore { state: self.state.matrix_command(cmd), ..self }
        } else if is_vertex_command(op) {
            (GxCore { state: self.state.vertex_command(cmd), ..self }).submitted()
        } else if op == 0x40 {
            GxCore { state: self.state.begun(cmd.params@[0]), ..self }
        } else if op == 0x41 {
            GxCore { state: self.state.ended(), ..self }
        } else if op == 0x50 {
            GxCore { state: self.state.swap_requested(cmd.params@[0]), ..self }
        } else {
            GxCore { state: self.state.other_command(cmd), ..self }
        }
    }

    /// The core after the two buffers change places: what the geometry
    /// engine produced is now drawn from, the geometry buffer starts empty,
    /// and no swap is pending any more.
    pub open spec fn exchanged(self) -> GxCore {
        GxCore {
            state: GxState { swap_buffers: false, ..self.state },
            geo_vert: Seq::empty(),
            geo_poly: Seq::empty(),
            rend_vert: self.geo_vert,
            rend_poly: self.geo_poly,
        }
    }

    /// A swap is pending and no run is open, so that the swap can take
    /// place.
    pub open spec fn swap_due(self) -> bool {
        self.state.swap_buffers && !self.state.run_open
    }

    /// The core at a safe boundary: a swap that is due takes place.
    pub open spec fn settled(self) -> GxCore {
        if self.swap_due() {
            self.exchanged()
        } else {
            self
        }
    }
}

/// `spent` and `cost` added, stopping at the largest value.
pub open spec fn add_cost(spent: u64, cost: u64) -> u64 {
    if spent + cost > u64::MAX {
        u64::MAX
    } else {
        (spent + cost) as u64
    }
}

/// The core after a drain of `queue` with `budget` cycles of which `spent`
/// are used, the commands that are left, and what is used at the end.
/// Before each command a swap that is due takes place. A command is
/// started while no more than the budget is used, and always finished: the
/// drain ends with the first command that takes the cost past the budget.
pub open spec fn drain(core: GxCore, queue: Seq<GxCommand>, budget: u64, spent: u64) -> (
    GxCore,
    Seq<GxCommand>,
    u64,
)
    decreases queue.len(),
{
    let ready = core.settled();
    if queue.len() == 0 || spent > budget {
        (ready, queue, spent)
    } else {
        drain(
            ready.executed(queue[0]),
            queue.subrange(1, queue.len() as int),
            budget,
            add_cost(spent, command_cost(queue[0].command)),
        )
    }
}

/// How many of `n` waiting commands stand in the pipe.
pub open spec fn pipe_share(n: nat) -> int {
    if n <= PIPE_CAPACITY {
        n as int
    } else {
        PIPE_CAPACITY as int
    }
}

impl GxModel {
    pub open spec fn wf(self) -> bool {
        &&& self.core.wf()
        &&& self.fifo.len() <= FIFO_CAPACITY
        &&& self.pipe.len() <= PIPE_CAPACITY
    }

    /// The commands that wait, in the order in which they were enqueued:
    /// those in the pipe first.
    pub open spec fn queue(self) -> Seq<GxCommand> {
        self.pipe + self.fifo
    }

    /// The engine after a drain with a budget of `budget` cycles. The
    /// commands that are left stand in the pipe as far as it holds them,
    /// the others in the FIFO, and the engine records what it spent.
    pub open spec fn drained(self, budget: u64) -> GxModel {
        let (core, rest, spent) = drain(self.core, self.queue(), budget, 0);
        GxModel {
            core: GxCore {
                state: GxState {
                    cycles: spent,
                    gxstat: crate::gpu3d::GxStat { geo_busy: rest.len() > 0, ..core.state.gxstat },
                    ..core.state
                },
                ..core
            },
            pipe: rest.subrange(0, pipe_share(rest.len())),
            fifo: rest.subrange(pipe_share(rest.len()), rest.len() as int),
        }
    }
}

/// The budget rule of a drain: while no more than the budget is spent the
/// next command is executed; once more is spent, every command that is
/// left stays queued, in its order.
pub proof fn lemma_drain_budget_rule(
    core: GxCore,
    queue: Seq<GxCommand>,
    budget: u64,
    spent: u64,
)
    ensures
        queue.len() > 0 && spent <= budget ==> drain(core, queue, budget, spent) == drain(
            core.settled().executed(queue[0]),
            queue.subrange(1, queue.len() as int),
            budget,
            add_cost(spent, command_cost(queue[0].command)),
        ),
        spent > budget ==> drain(core, queue, budget, spent) == (core.settled(), queue, spent),
        queue.len() == 0 ==> drain(core, queue, budget, spent) == (core.settled(), queue, spent),
{
}

/// A buffer swap never takes place while a run is open: at a safe
/// boundary the buffers change places only where a swap is pending and no
/// run is open, and else nothing changes at all.
pub proof fn lemma_swap_waits_for_run(core: GxCore)
    ensures
        core.state.run_open ==> core.settled() == core,
        !core.state.swap_buffers ==> core.settled() == core,
        core.settled() != core ==> core.state.swap_buffers && !core.state.run_open
            && core.settled() == core.exchanged(),
        !core.settled().swap_due(),
        core.settled().settled() == core.settled(),
{
}

/// Commands never touch the render buffer: it changes only when the
/// buffers change places.
pub proof fn lemma_commands_keep_render_buffer(core: GxCore, cmd: GxCommand)
    ensures
        core.executed(cmd).rend_vert == core.rend_vert,
        core.executed(cmd).rend_poly == core.rend_poly,
{
    reveal(GxCore::executed);
}

/// A pending swap takes effect before any new command is drained: a drain
/// from a core in which a swap is due is the drain from the core with the
/// buffers already exchanged.
pub proof fn lemma_pending_swap_precedes_commands(
    core: GxCore,
    queue: Seq<GxCommand>,
    budget: u64,
    spent: u64,
)
    ensures
        drain(core, queue, budget, spent) == drain(core.settled(), queue, budget, spent),
        core.swap_due() ==> drain(core, queue, budget, spent) == drain(
            core.exchanged(),
            queue,
            budget,
            spent,
        ),
{
    lemma_swap_waits_for_run(core);
}

/// After a drain no swap is due: a swap that is still pending waits for an
/// open run to end.
pub proof fn lemma_drain_leaves_no_swap_due(
    core: GxCore,
    queue: Seq<GxCommand>,
    budget: u64,
    spent: u64,
)
    ensures
        !drain(core, queue, budget, spent).0.swap_due(),
        drain(core, queue, budget, spent).0.state.swap_buffers ==> drain(
            core,
            queue,
            budget,
            spent,
        ).0.state.run_open,
    decreases queue.len(),
{
    lemma_swap_waits_for_run(core);
    let ready = core.settled();
    if !(queue.len() == 0 || spent > budget) {
        lemma_drain_leaves_no_swap_due(
            ready.executed(queue[0]),
            queue.subrange(1, queue.len() as int),
            budget,
            add_cost(spent, command_cost(queue[0].command)),
        );
    }
}

/// A polygon that lies wholly beyond one plane of the view volume is
/// dropped: neither it nor any of its vertices reaches the geometry
/// buffer, and so never the render buffer.
pub proof fn lemma_outside_polygon_is_dropped(core: GxCore)
    requires
        crate::clip::beyond_one_plane(core.state.ring()),
    ensures
        core.assembled().geo_vert == core.geo_vert,
        core.assembled().geo_poly == core.geo_poly,
        core.assembled().rend_vert == core.rend_vert,
        core.assembled().rend_poly == core.rend_poly,
{
    reveal(clipped);
}

/// A polygon that lies inside the view volume reaches the geometry buffer
/// with all its vertices, in their order, where the buffer has room.
pub proof fn lemma_inside_polygon_is_kept(core: GxCore)
    requires
        crate::clip::within_volume(core.state.ring()),
        core.geo_vert.len() + core.state.ring().len() <= MAX_VERTICES,
        core.geo_poly.len() < MAX_POLYGONS,
    ensures
        core.assembled().geo_vert == core.geo_vert + on_screen(
            core.state.ring(),
            core.state.viewport,
        ),
        core.assembled().geo_poly.len() == core.geo_poly.len() + 1,
        core.assembled().geo_poly.last().vertices == core.state.ring().len(),
{
    crate::clip::lemma_clip_inside_is_identity(core.state.ring(), 0, true);
}

/// The ten-bit part of a parameter word from bit `shift` on, as a signed
/// fraction of nine bits, brought to the twelve fraction bits of the
/// matrices.
pub open spec fn ninth(word: u32, shift: u32) -> i16 {
    (((field(word, shift, 0x3FF) << 6) as i16) / 8) as i16
}

pub fn ninth_exec(word: u32, shift: u32) -> (r: i16)
    requires
        shift < 32,
    ensures
        r == ninth(word, shift),
{
    let wide = (get_field(word, shift, 0x3FF) << 6) as i16;
    floor_div(wide as i128, 8) as i16
}

impl GxState {
    /// Lane `j` of the vector of a vector test carried through the
    /// direction matrix, cut to sixteen bits.
    pub open spec fn vec_lane(self, word: u32, j: int) -> i16 {
        let m = self.mtx.vector_mtx;
        to_lane(
            ninth(word, 0) * m.m[0][j] + ninth(word, 10) * m.m[1][j] + ninth(word, 20) * m.m[2][j],
        ) as i16
    }

    /// The state after a vector test: the vector in the parameter word,
    /// three fractions of ten bits, is carried through the direction
    /// matrix, and the result kept for reading.
    pub open spec fn vec_tested(self, word: u32) -> GxState {
        GxState {
            vec_test_result: [self.vec_lane(word, 0), self.vec_lane(word, 1), self.vec_lane(word, 2)],
            ..self
        }
    }

    /// The state after a box test: the clip matrix is brought up to date
    /// and the status register tells whether the box reaches into the
    /// view volume.
    pub open spec fn box_tested(self, p: Seq<u32>) -> GxState {
        GxState {
            mtx: self.mtx.refreshed(),
            gxstat: crate::gpu3d::GxStat {
                boxtest_result: box_visible(self.mtx.clip(), p),
                ..self.gxstat
            },
            ..self
        }
    }

    /// The state after a command that is neither a matrix nor a vertex
    /// command and does not begin or end a run: a test or an attribute.
    pub open spec fn other_command(self, cmd: GxCommand) -> GxState {
        if cmd.command == 0x70 {
            self.box_tested(cmd.params@)
        } else if cmd.command == 0x72 {
            self.vec_tested(cmd.params@[0])
        } else {
            self.attribute_command(cmd)
        }
    }
}

/// Corner `k` of the box of a box test, carried through the clip matrix.
/// The parameters give a corner and the three sizes of the box, halfword
/// by halfword: x, y, z, width, height, depth. Bit 0 of `k` adds the
/// width, bit 1 the height, bit 2 the depth.
pub open spec fn box_corner(clip: Mtx, p: Seq<u32>, k: int) -> Vertex {
    let x = (half(p[0], 0) + if k % 2 == 1 {
        half(p[1], 16) as int
    } else {
        0
    }) as i16;
    let y = (half(p[0], 16) + if (k / 2) % 2 == 1 {
        half(p[2], 0) as int
    } else {
        0
    }) as i16;
    let z = (half(p[1], 0) + if (k / 4) % 2 == 1 {
        half(p[2], 16) as int
    } else {
        0
    }) as i16;
    Vertex { coords: clip.transform(x, y, z), ..Vertex::zero() }
}

/// A face of the box with the four corners given.
pub open spec fn box_face(clip: Mtx, p: Seq<u32>, a: int, b: int, c: int, d: int) -> Seq<Vertex> {
    seq![box_corner(clip, p, a), box_corner(clip, p, b), box_corner(clip, p, c), box_corner(clip, p, d)]
}

/// Something of the face is left when it is clipped to the view volume.
pub open spec fn face_visible(clip: Mtx, p: Seq<u32>, a: int, b: int, c: int, d: int) -> bool {
    clipped(box_face(clip, p, a, b, c, d), 0, false).len() > 0
}

/// The box of a box test reaches into the view volume: one of its six
/// faces does.
#[verifier::opaque]
pub open spec fn box_visible(clip: Mtx, p: Seq<u32>) -> bool {
    ||| face_visible(clip, p, 0, 1, 3, 2)
    ||| face_visible(clip, p, 4, 5, 7, 6)
    ||| face_visible(clip, p, 0, 1, 5, 4)
    ||| face_visible(clip, p, 2, 3, 7, 6)
    ||| face_visible(clip, p, 0, 2, 6, 4)
    ||| face_visible(clip, p, 1, 3, 7, 5)
}

} // verus!
