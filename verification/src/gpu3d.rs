//! The 3D engine: the geometry command queue, the matrix and vertex state
//! that the commands drive, the two geometry buffers, and the rasterizer.

use vstd::prelude::*;
use std::collections::VecDeque;
use crate::bits::{flag, field, flag_bits, field_bits, test_bit, get_field, put_flag, put_field};
use crate::buffers::filled;
use crate::matrix::{Mtx, wide_mul, to_lane_exec};
use crate::clip::clipped;
use crate::geometry::{
    GxCore, GxModel, drain, pipe_share, on_screen, to_screen_exec, top_of, bottom_of, half,
    half_exec, tenth_exec, ninth, ninth_exec, is_vertex_command, box_corner, box_face,
    face_visible, box_visible,
};
use crate::gxstate::{GxState, vertices_needed_exec};
use crate::memconsts::{
    FIFO_CAPACITY, PIPE_CAPACITY, MAX_VERTICES, MAX_POLYGONS, MAX_POLYGON_VERTICES,
};

verus! {

/// Display 3D control register
#[derive(Debug, Clone, Copy)]
pub struct Disp3dCnt {
    pub texture_mapping: bool,
    pub highlight_shading: bool,
    pub alpha_test: bool,
    pub alpha_blending: bool,
    pub anti_aliasing: bool,
    pub edge_marking: bool,
    pub fog_color_mode: bool,
    pub fog_enable: bool,
    pub fog_depth_shift: i32,
    pub color_buffer_underflow: bool,
    pub ram_overflow: bool,
    pub rear_plane_mode: bool,
}

impl Disp3dCnt {
    /// The register with every field clear.
    pub open spec fn cleared() -> Disp3dCnt {
        Disp3dCnt {
            texture_mapping: false,
            highlight_shading: false,
            alpha_test: false,
            alpha_blending: false,
            anti_aliasing: false,
            edge_marking: false,
            fog_color_mode: false,
            fog_enable: false,
            fog_depth_shift: 0,
            color_buffer_underflow: false,
            ram_overflow: false,
            rear_plane_mode: false,
        }
    }

    /// The register after `halfword` is written to it. The two error flags,
    /// bits 12 and 13, are not set by a write: a one written there
    /// acknowledges the error and clears the flag.
    pub open spec fn written(self, halfword: u16) -> Disp3dCnt {
        let w = halfword as u32;
        Disp3dCnt {
            texture_mapping: flag(w, 0),
            highlight_shading: flag(w, 1),
            alpha_test: flag(w, 2),
            alpha_blending: flag(w, 3),
            anti_aliasing: flag(w, 4),
            edge_marking: flag(w, 5),
            fog_color_mode: flag(w, 6),
            fog_enable: flag(w, 7),
            fog_depth_shift: field(w, 8, 0xF) as i32,
            color_buffer_underflow: self.color_buffer_underflow && !flag(w, 12),
            ram_overflow: self.ram_overflow && !flag(w, 13),
            rear_plane_mode: flag(w, 14),
        }
    }

    /// Bits 0 to 7 of the halfword that a read returns.
    pub open spec fn switch_bits(self) -> u32 {
        flag_bits(self.texture_mapping, 0) | flag_bits(self.highlight_shading, 1) | flag_bits(
            self.alpha_test,
            2,
        ) | flag_bits(self.alpha_blending, 3) | flag_bits(self.anti_aliasing, 4) | flag_bits(
            self.edge_marking,
            5,
        ) | flag_bits(self.fog_color_mode, 6) | flag_bits(self.fog_enable, 7)
    }

    /// Bits 8 to 14 of the halfword that a read returns.
    pub open spec fn status_bits(self) -> u32 {
        field_bits(self.fog_depth_shift as u32, 8, 0xF) | flag_bits(self.color_buffer_underflow, 12)
            | flag_bits(self.ram_overflow, 13) | flag_bits(self.rear_plane_mode, 14)
    }

    /// The halfword that a read of the register returns.
    pub open spec fn encode(self) -> u16 {
        (self.switch_bits() | self.status_bits()) as u16
    }

    fn pack_switches(&self) -> (r: u32)
        ensures
            r == self.switch_bits(),
    {
        put_flag(self.texture_mapping, 0) | put_flag(self.highlight_shading, 1) | put_flag(
            self.alpha_test,
            2,
        ) | put_flag(self.alpha_blending, 3) | put_flag(self.anti_aliasing, 4) | put_flag(
            self.edge_marking,
            5,
        ) | put_flag(self.fog_color_mode, 6) | put_flag(self.fog_enable, 7)
    }

    fn pack_status(&self) -> (r: u32)
        ensures
            r == self.status_bits(),
    {
        put_field(self.fog_depth_shift as u32, 8, 0xF) | put_flag(self.color_buffer_underflow, 12)
            | put_flag(self.ram_overflow, 13) | put_flag(self.rear_plane_mode, 14)
    }
}

impl Default for Disp3dCnt {
    fn default() -> (r: Disp3dCnt)
        ensures
            r == Disp3dCnt::cleared(),
    {
        Disp3dCnt {
            texture_mapping: false,
            highlight_shading: false,
            alpha_test: false,
            alpha_blending: false,
            anti_aliasing: false,
            edge_marking: false,
            fog_color_mode: false,
            fog_enable: false,
            fog_depth_shift: 0,
            color_buffer_underflow: false,
            ram_overflow: false,
            rear_plane_mode: false,
        }
    }
}

/// Texture image parameters
#[derive(Debug, Clone, Copy)]
pub struct TexImageParam {
    pub vram_offset: i32,
    pub repeat_s: bool,
    pub repeat_t: bool,
    pub flip_s: bool,
    pub flip_t: bool,
    pub s_size: i32,
    pub t_size: i32,
    pub format: i32,
    pub color0_transparent: bool,
    pub transformation_mode: i32,
}

impl TexImageParam {
    /// The parameters that a command word holds.
    pub open spec fn decode(word: u32) -> TexImageParam {
        TexImageParam {
            vram_offset: field(word, 0, 0xFFFF) as i32,
            repeat_s: flag(word, 16),
            repeat_t: flag(word, 17),
            flip_s: flag(word, 18),
            flip_t: flag(word, 19),
            s_size: field(word, 20, 7) as i32,
            t_size: field(word, 23, 7) as i32,
            format: field(word, 26, 7) as i32,
            color0_transparent: flag(word, 29),
            transformation_mode: field(word, 30, 3) as i32,
        }
    }

    fn from_word(word: u32) -> (r: TexImageParam)
        ensures
            r == TexImageParam::decode(word),
    {
        TexImageParam {
            vram_offset: get_field(word, 0, 0xFFFF) as i32,
            repeat_s: test_bit(word, 16),
            repeat_t: test_bit(word, 17),
            flip_s: test_bit(word, 18),
            flip_t: test_bit(word, 19),
            s_size: get_field(word, 20, 7) as i32,
            t_size: get_field(word, 23, 7) as i32,
            format: get_field(word, 26, 7) as i32,
            color0_transparent: test_bit(word, 29),
            transformation_mode: get_field(word, 30, 3) as i32,
        }
    }
}

impl Default for TexImageParam {
    fn default() -> (r: TexImageParam)
        ensures
            r == TexImageParam::decode(0),
    {
        TexImageParam::from_word(0)
    }
}

/// Polygon attributes register
#[derive(Debug, Clone, Copy)]
pub struct PolygonAttr {
    pub light_enable: i32,
    pub polygon_mode: i32,
    pub render_back: bool,
    pub render_front: bool,
    pub set_new_trans_depth: bool,
    pub render_1dot: bool,
    pub render_far_intersect: bool,
    pub depth_test_equal: bool,
    pub fog_enable: bool,
    pub alpha: i32,
    pub id: i32,
}

impl PolygonAttr {
    /// The attributes that a command word holds.
    pub open spec fn decode(word: u32) -> PolygonAttr {
        PolygonAttr {
            light_enable: field(word, 0, 0xF) as i32,
            polygon_mode: field(word, 4, 3) as i32,
            render_back: flag(word, 6),
            render_front: flag(word, 7),
            set_new_trans_depth: flag(word, 11),
            render_far_intersect: flag(word, 12),
            render_1dot: flag(word, 13),
            depth_test_equal: flag(word, 14),
            fog_enable: flag(word, 15),
            alpha: field(word, 16, 0x1F) as i32,
            id: field(word, 24, 0x3F) as i32,
        }
    }

    /// A polygon with these attributes lets what is behind it shine
    /// through: its alpha is neither zero (wire frame) nor full.
    pub open spec fn translucent(self) -> bool {
        0 < self.alpha < 31
    }

    fn from_word(word: u32) -> (r: PolygonAttr)
        ensures
            r == PolygonAttr::decode(word),
    {
        PolygonAttr {
            light_enable: get_field(word, 0, 0xF) as i32,
            polygon_mode: get_field(word, 4, 3) as i32,
            render_back: test_bit(word, 6),
            render_front: test_bit(word, 7),
            set_new_trans_depth: test_bit(word, 11),
            render_far_intersect: test_bit(word, 12),
            render_1dot: test_bit(word, 13),
            depth_test_equal: test_bit(word, 14),
            fog_enable: test_bit(word, 15),
            alpha: get_field(word, 16, 0x1F) as i32,
            id: get_field(word, 24, 0x3F) as i32,
        }
    }
}

impl Default for PolygonAttr {
    fn default() -> (r: PolygonAttr)
        ensures
            r == PolygonAttr::decode(0),
    {
        PolygonAttr::from_word(0)
    }
}

/// Viewport rectangle
#[derive(Debug, Clone, Copy)]
pub struct Viewport {
    pub x1: u8,
    pub y1: u8,
    pub x2: u8,
    pub y2: u8,
}

impl Viewport {
    /// The rectangle that a command word holds, a byte for each bound.
    pub open spec fn decode(word: u32) -> Viewport {
        Viewport {
            x1: field(word, 0, 0xFF) as u8,
            y1: field(word, 8, 0xFF) as u8,
            x2: field(word, 16, 0xFF) as u8,
            y2: field(word, 24, 0xFF) as u8,
        }
    }

    fn from_word(word: u32) -> (r: Viewport)
        ensures
            r == Viewport::decode(word),
    {
        Viewport {
            x1: get_field(word, 0, 0xFF) as u8,
            y1: get_field(word, 8, 0xFF) as u8,
            x2: get_field(word, 16, 0xFF) as u8,
            y2: get_field(word, 24, 0xFF) as u8,
        }
    }
}

impl Default for Viewport {
    fn default() -> (r: Viewport)
        ensures
            r == Viewport::decode(0),
    {
        Viewport::from_word(0)
    }
}

/// GX status register
#[derive(Debug, Clone, Copy)]
pub struct GxStat {
    pub box_pos_vec_busy: bool,
    pub boxtest_result: bool,
    pub mtx_stack_busy: bool,
    pub mtx_overflow: bool,
    pub geo_busy: bool,
    pub gx_fifo_irq_stat: i32,
}

impl GxStat {
    /// The register with every field clear.
    pub open spec fn cleared() -> GxStat {
        GxStat {
            box_pos_vec_busy: false,
            boxtest_result: false,
            mtx_stack_busy: false,
            mtx_overflow: false,
            geo_busy: false,
            gx_fifo_irq_stat: 0,
        }
    }

    /// The register after `word` is written to it: a one in bit 15
    /// acknowledges a matrix stack error, and bits 30 and 31 choose when the
    /// FIFO asks for an interrupt. The other bits are read-only.
    pub open spec fn written(self, word: u32) -> GxStat {
        GxStat {
            mtx_overflow: self.mtx_overflow && !flag(word, 15),
            gx_fifo_irq_stat: field(word, 30, 3) as i32,
            ..self
        }
    }
}

impl Default for GxStat {
    fn default() -> (r: GxStat)
        ensures
            r == GxStat::cleared(),
    {
        GxStat {
            box_pos_vec_busy: false,
            boxtest_result: false,
            mtx_stack_busy: false,
            mtx_overflow: false,
            geo_busy: false,
            gx_fifo_irq_stat: 0,
        }
    }
}

/// Vertex structure used in geometry pipeline
#[derive(Debug, Clone, Copy)]
pub struct Vertex {
    pub coords: [i32; 4],
    pub colors: [i32; 3],
    pub final_colors: [i32; 3],
    pub clipped: bool,
    pub texcoords: [i32; 2],
}

impl Vertex {
    /// The vertex with every lane zero.
    pub open spec fn zero() -> Vertex {
        Vertex {
            coords: [0i32, 0i32, 0i32, 0i32],
            colors: [0i32, 0i32, 0i32],
            final_colors: [0i32, 0i32, 0i32],
            clipped: false,
            texcoords: [0i32, 0i32],
        }
    }
}

impl Default for Vertex {
    fn default() -> (r: Vertex)
        ensures
            r == Vertex::zero(),
    {
        let r = Vertex {
            coords: [0, 0, 0, 0],
            colors: [0, 0, 0],
            final_colors: [0, 0, 0],
            clipped: false,
            texcoords: [0, 0],
        };
        assert(r.coords =~= Vertex::zero().coords);
        assert(r.colors =~= Vertex::zero().colors);
        assert(r.final_colors =~= Vertex::zero().final_colors);
        assert(r.texcoords =~= Vertex::zero().texcoords);
        r
    }
}

/// Polygon representation
#[derive(Debug, Clone, Copy)]
pub struct Polygon {
    pub vert_index: u16,
    pub vertices: u8,
    pub top_y: u16,
    pub bottom_y: u16,
    pub attributes: PolygonAttr,
    pub texparams: TexImageParam,
    pub palette_base: u32,
    pub translucent: bool,
}

impl Default for Polygon {
    fn default() -> (r: Polygon)
        ensures
            r == (Polygon {
                vert_index: 0,
                vertices: 0,
                top_y: 0,
                bottom_y: 0,
                attributes: PolygonAttr::decode(0),
                texparams: TexImageParam::decode(0),
                palette_base: 0,
                translucent: false,
            }),
    {
        Polygon {
            vert_index: 0,
            vertices: 0,
            top_y: 0,
            bottom_y: 0,
            attributes: PolygonAttr::default(),
            texparams: TexImageParam::default(),
            palette_base: 0,
            translucent: false,
        }
    }
}

/// A geometry command: the command byte and its parameter words, of which
/// the first `param_count` count.
#[derive(Debug, Clone, Copy)]
pub struct GxCommand {
    pub command: u8,
    pub param_count: u8,
    pub params: [u32; 32],
}

impl GxCommand {
    /// The parameter words of the command, in order.
    pub open spec fn words(self) -> Seq<u32> {
        self.params@.subrange(0, self.param_count as int)
    }

    /// The command has as many parameters as its command byte asks for.
    pub open spec fn complete(self) -> bool {
        self.param_count == param_amount(self.command)
    }

    /// A command without parameters.
    pub fn plain(command: u8) -> (r: GxCommand)
        ensures
            r.command == command,
            r.param_count == 0,
            r.params@ == Seq::new(32, |i: int| 0u32),
    {
        let r = GxCommand { command, param_count: 0, params: [0u32; 32] };
        assert(r.params@ =~= Seq::new(32, |i: int| 0u32));
        r
    }

    /// A command with the parameters given, as far as 32 of them.
    pub fn with_params(command: u8, words: &[u32]) -> (r: GxCommand)
        ensures
            r.command == command,
            r.param_count == if words@.len() <= 32 { words@.len() } else { 32 },
            forall|i: int| 0 <= i < r.param_count ==> r.params@[i] == words@[i],
            forall|i: int| r.param_count <= i < 32 ==> r.params@[i] == 0,
    {
        let mut params = [0u32; 32];
        let n: usize = if words.len() <= 32 {
            words.len()
        } else {
            32
        };
        let mut i: usize = 0;
        while i < n
            invariant
                i <= n <= 32,
                n <= words@.len(),
                forall|k: int| 0 <= k < i ==> params@[k] == words@[k],
                forall|k: int| i <= k < 32 ==> params@[k] == 0,
            decreases n - i,
        {
            params[i] = words[i];
            i = i + 1;
        }
        GxCommand { command, param_count: n as u8, params }
    }
}

impl Default for GxCommand {
    fn default() -> (r: GxCommand)
        ensures
            r.command == 0,
            r.param_count == 0,
            r.params@ == Seq::new(32, |i: int| 0u32),
    {
        GxCommand::plain(0)
    }
}

/// How many parameter words a command takes. A command byte that names no
/// command takes none.
pub open spec fn param_amount(command: u8) -> u8 {
    if command == 0x10 || command == 0x12 || command == 0x13 || command == 0x14 {
        1
    } else if command == 0x16 || command == 0x18 {
        16
    } else if command == 0x17 || command == 0x19 {
        12
    } else if command == 0x1A {
        9
    } else if command == 0x1B || command == 0x1C || command == 0x70 {
        3
    } else if command == 0x23 || command == 0x71 {
        2
    } else if command == 0x34 {
        32
    } else if (0x20 <= command <= 0x2B && command != 0x23) || (0x30 <= command <= 0x33) || command
        == 0x40 || command == 0x50 || command == 0x60 || command == 0x72 {
        1
    } else {
        0
    }
}

pub fn param_amount_exec(command: u8) -> (r: u8)
    ensures
        r == param_amount(command),
        r <= 32,
{
    if command == 0x10 || command == 0x12 || command == 0x13 || command == 0x14 {
        1
    } else if command == 0x16 || command == 0x18 {
        16
    } else if command == 0x17 || command == 0x19 {
        12
    } else if command == 0x1A {
        9
    } else if command == 0x1B || command == 0x1C || command == 0x70 {
        3
    } else if command == 0x23 || command == 0x71 {
        2
    } else if command == 0x34 {
        32
    } else if (0x20 <= command && command <= 0x2B && command != 0x23) || (0x30 <= command
        && command <= 0x33) || command == 0x40 || command == 0x50 || command == 0x60 || command
        == 0x72 {
        1
    } else {
        0
    }
}

/// What a command is estimated to cost, in cycles.
pub open spec fn command_cost(command: u8) -> u64 {
    if command == 0x11 {
        17
    } else if command == 0x12 {
        36
    } else if command == 0x15 {
        19
    } else if command == 0x16 {
        34
    } else if command == 0x17 {
        30
    } else if command == 0x18 {
        35
    } else if command == 0x19 {
        31
    } else if command == 0x1A {
        28
    } else if command == 0x1B || command == 0x1C {
        22
    } else if command == 0x21 || command == 0x23 || command == 0x71 {
        9
    } else if 0x24 <= command <= 0x28 {
        8
    } else if command == 0x50 {
        392
    } else if command == 0x70 {
        103
    } else if command == 0x72 {
        5
    } else {
        1
    }
}

pub fn command_cost_exec(command: u8) -> (r: u64)
    ensures
        r == command_cost(command),
        1 <= r <= 392,
{
    if command == 0x11 {
        17
    } else if command == 0x12 {
        36
    } else if command == 0x15 {
        19
    } else if command == 0x16 {
        34
    } else if command == 0x17 {
        30
    } else if command == 0x18 {
        35
    } else if command == 0x19 {
        31
    } else if command == 0x1A {
        28
    } else if command == 0x1B || command == 0x1C {
        22
    } else if command == 0x21 || command == 0x23 || command == 0x71 {
        9
    } else if 0x24 <= command && command <= 0x28 {
        8
    } else if command == 0x50 {
        392
    } else if command == 0x70 {
        103
    } else if command == 0x72 {
        5
    } else {
        1
    }
}

} // verus!

verus! {

/// Why a command could not be taken.
#[derive(Debug, Clone, Copy, PartialEq, Eq, Structural)]
pub enum GxError {
    /// The FIFO holds as many commands as it can.
    QueueFull,
}

/// 3D GPU core
pub struct Gpu3D {
    pub state: GxState,
    pub gx_fifo: VecDeque<GxCommand>,
    pub gx_pipe: VecDeque<GxCommand>,
    pub geo_vert: Vec<Vertex>,
    pub rend_vert: Vec<Vertex>,
    pub geo_poly: Vec<Polygon>,
    pub rend_poly: Vec<Polygon>,
}

impl View for Gpu3D {
    type V = GxModel;

    open spec fn view(&self) -> GxModel {
        GxModel {
            core: GxCore {
                state: self.state,
                geo_vert: self.geo_vert@,
                geo_poly: self.geo_poly@,
                rend_vert: self.rend_vert@,
                rend_poly: self.rend_poly@,
            },
            fifo: self.gx_fifo@,
            pipe: self.gx_pipe@,
        }
    }
}

impl GxModel {
    /// The model with other registers.
    pub open spec fn with_state(self, state: GxState) -> GxModel {
        GxModel { core: GxCore { state, ..self.core }, ..self }
    }

    /// The model with another core.
    pub open spec fn with_core(self, core: GxCore) -> GxModel {
        GxModel { core, ..self }
    }

    /// The model after `cmd` is offered to the FIFO: taken at the end, or
    /// refused where the FIFO is full.
    pub open spec fn offered(self, cmd: GxCommand) -> GxModel {
        if self.fifo.len() < FIFO_CAPACITY {
            GxModel { fifo: self.fifo.push(cmd), ..self }
        } else {
            self
        }
    }

    /// The model after a word is written to the FIFO port. The commands
    /// that the word completes go to the FIFO together; where it has no
    /// room for all of them, the word is dropped and the stall flag set.
    pub open spec fn fed(self, word: u32) -> GxModel {
        let (unpack, cmds) = self.core.state.unpack.fed(word);
        if self.fifo.len() + cmds.len() <= FIFO_CAPACITY {
            GxModel {
                fifo: self.fifo + cmds,
                ..self.with_state(GxState { unpack, fifo_stalled: false, ..self.core.state })
            }
        } else {
            self.with_state(GxState { fifo_stalled: true, ..self.core.state })
        }
    }

    /// The model after a word is written to the port of `command`. With
    /// the last parameter the command goes to the FIFO; where the FIFO is
    /// full, the word is dropped and the stall flag set.
    pub open spec fn port_written(self, command: u8, word: u32) -> GxModel {
        let st = self.core.state;
        if !st.port.completes(command, word) {
            self.with_state(GxState { port: st.port.written(command, word), ..st })
        } else if self.fifo.len() < FIFO_CAPACITY {
            GxModel {
                fifo: self.fifo.push(st.port.completed(command, word)),
                ..self.with_state(
                    GxState { port: st.port.written(command, word), fifo_stalled: false, ..st },
                )
            }
        } else {
            self.with_state(GxState { fifo_stalled: true, ..st })
        }
    }

    /// Bits 0 to 15 of the status word: the test results and the matrix
    /// stacks.
    pub open spec fn status_low(self) -> u32 {
        let st = self.core.state;
        flag_bits(st.gxstat.box_pos_vec_busy, 0) | flag_bits(st.gxstat.boxtest_result, 1)
            | field_bits(st.mtx.modelview_sp as u32, 8, 0x1F) | field_bits(
            st.mtx.projection_sp as u32,
            13,
            1,
        ) | flag_bits(st.gxstat.mtx_stack_busy, 14) | flag_bits(st.gxstat.mtx_overflow, 15)
    }

    /// Bits 16 to 31 of the status word: how many commands the FIFO
    /// holds, whether it is less than half full, whether it is empty,
    /// whether commands stand in the pipe, and when the FIFO asks for an
    /// interrupt.
    pub open spec fn status_high(self) -> u32 {
        field_bits(self.fifo.len() as u32, 16, 0x1FF) | flag_bits(self.fifo_low(), 25) | flag_bits(
            self.fifo.len() == 0,
            26,
        ) | flag_bits(self.pipe.len() > 0, 27) | field_bits(
            self.core.state.gxstat.gx_fifo_irq_stat as u32,
            30,
            3,
        )
    }

    /// The FIFO is less than half full.
    pub open spec fn fifo_low(self) -> bool {
        self.fifo.len() < FIFO_CAPACITY / 2
    }

    /// The FIFO asks for an interrupt: in mode 1 while it is less than
    /// half full, in mode 2 while it is empty.
    pub open spec fn irq_wanted(self) -> bool {
        let mode = self.core.state.gxstat.gx_fifo_irq_stat;
        (mode == 1 && self.fifo_low()) || (mode == 2 && self.fifo.len() == 0)
    }
}

impl Gpu3D {
    /// The queues and buffers are within their capacities and the
    /// registers well formed.
    pub open spec fn wf(&self) -> bool {
        self@.wf()
    }

    /// Create a new 3D GPU instance: the matrices are unit matrices, the
    /// stacks, queues and buffers empty, every register zero.
    pub fn new() -> (r: Self)
        ensures
            r.wf(),
            r.state.is_reset(),
            r@.fifo.len() == 0,
            r@.pipe.len() == 0,
            r@.core.geo_vert.len() == 0,
            r@.core.geo_poly.len() == 0,
            r@.core.rend_vert.len() == 0,
            r@.core.rend_poly.len() == 0,
    {
        Gpu3D {
            state: GxState::new(),
            gx_fifo: VecDeque::new(),
            gx_pipe: VecDeque::new(),
            geo_vert: Vec::new(),
            rend_vert: Vec::new(),
            geo_poly: Vec::new(),
            rend_poly: Vec::new(),
        }
    }

    /// Power on GPU 3D unit: both stages of the queue are emptied and the
    /// cycle count starts at zero.
    pub fn power_on(&mut self)
        requires
            old(self).wf(),
        ensures
            final(self).wf(),
            final(self)@ == (GxModel {
                fifo: Seq::empty(),
                pipe: Seq::empty(),
                ..old(self)@.with_state(GxState { cycles: 0, ..old(self).state })
            }),
    {
        self.state.cycles = 0;
        self.gx_fifo.clear();
        self.gx_pipe.clear();
    }

    /// Appends a command to the FIFO, which holds 256.
    pub fn enqueue(&mut self, cmd: GxCommand) -> (r: Result<(), GxError>)
        requires
            old(self).wf(),
        ensures
            final(self).wf(),
            r.is_ok() <==> old(self)@.fifo.len() < FIFO_CAPACITY,
            r.is_err() ==> r == Err::<(), GxError>(GxError::QueueFull),
            final(self)@ == old(self)@.offered(cmd),
    {
        if self.gx_fifo.len() < FIFO_CAPACITY {
            self.gx_fifo.push_back(cmd);
            Ok(())
        } else {
            Err(GxError::QueueFull)
        }
    }

    /// Write a 32-bit word into GXFIFO (incoming command). The word is a
    /// packed command word or a parameter of the command in work.
    pub fn write_gxfifo(&mut self, word: u32)
        requires
            old(self).wf(),
        ensures
            final(self).wf(),
            final(self)@ == old(self)@.fed(word),
    {
        let mut unpack = self.state.unpack;
        let cmds = unpack.feed(word);
        if self.gx_fifo.len() + cmds.len() <= FIFO_CAPACITY {
            let ghost before = self.gx_fifo@;
            let mut i: usize = 0;
            while i < cmds.len()
                invariant
                    i <= cmds.len(),
                    before.len() + cmds.len() <= FIFO_CAPACITY,
                    self.gx_fifo@ == before + cmds@.subrange(0, i as int),
                    self.state == old(self).state,
                    self.gx_pipe == old(self).gx_pipe,
                    self.geo_vert == old(self).geo_vert,
                    self.geo_poly == old(self).geo_poly,
                    self.rend_vert == old(self).rend_vert,
                    self.rend_poly == old(self).rend_poly,
                decreases cmds.len() - i,
            {
                self.gx_fifo.push_back(cmds[i]);
                i = i + 1;
                assert(self.gx_fifo@ =~= before + cmds@.subrange(0, i as int));
            }
            assert(cmds@.subrange(0, cmds.len() as int) =~= cmds@);
            self.state.unpack = unpack;
            self.state.fifo_stalled = false;
        } else {
            self.state.fifo_stalled = true;
        }
    }

    /// Direct FIFO write (addressed): the address names the command, the
    /// word is one of its parameters.
    pub fn write_fifo_direct(&mut self, address: u32, word: u32)
        requires
            old(self).wf(),
        ensures
            final(self).wf(),
            final(self)@ == old(self)@.port_written(field(address, 2, 0x7F) as u8, word),
    {
        let command = get_field(address, 2, 0x7F) as u8;
        let mut port = self.state.port;
        match port.write(command, word) {
            None => {
                self.state.port = port;
            },
            Some(cmd) => {
                if self.gx_fifo.len() < FIFO_CAPACITY {
                    self.gx_fifo.push_back(cmd);
                    self.state.port = port;
                    self.state.fifo_stalled = false;
                } else {
                    self.state.fifo_stalled = true;
                }
            },
        }
    }

    /// Whether the FIFO has room enough for a DMA transfer to be asked
    /// for: it is less than half full.
    pub fn check_fifo_dma(&self) -> (wanted: bool)
        ensures
            wanted == self@.fifo_low(),
    {
        self.gx_fifo.len() < FIFO_CAPACITY / 2
    }

    /// Whether the FIFO asks for an interrupt.
    pub fn check_fifo_irq(&self) -> (wanted: bool)
        ensures
            wanted == self@.irq_wanted(),
    {
        let mode = self.state.gxstat.gx_fifo_irq_stat;
        (mode == 1 && self.gx_fifo.len() < FIFO_CAPACITY / 2) || (mode == 2 && self.gx_fifo.len()
            == 0)
    }

    /// Whether the last write to the FIFO was dropped because the FIFO was
    /// full.
    pub fn fifo_stalled(&self) -> (r: bool)
        ensures
            r == self.state.fifo_stalled,
    {
        self.state.fifo_stalled
    }

    /// Get raw DISP3DCNT register as 16-bit value
    pub fn get_disp3dcnt(&self) -> (r: u16)
        ensures
            r == self.state.disp3dcnt.encode(),
    {
        (self.state.disp3dcnt.pack_switches() | self.state.disp3dcnt.pack_status()) as u16
    }

    fn status_low_exec(&self) -> (r: u32)
        ensures
            r == self@.status_low(),
    {
        let st = &self.state;
        put_flag(st.gxstat.box_pos_vec_busy, 0) | put_flag(st.gxstat.boxtest_result, 1) | put_field(
            st.mtx.modelview_sp as u32,
            8,
            0x1F,
        ) | put_field(st.mtx.projection_sp as u32, 13, 1) | put_flag(st.gxstat.mtx_stack_busy, 14)
            | put_flag(st.gxstat.mtx_overflow, 15)
    }

    fn status_high_exec(&self) -> (r: u32)
        requires
            self.wf(),
        ensures
            r == self@.status_high(),
    {
        let n = self.gx_fifo.len();
        put_field(n as u32, 16, 0x1FF) | put_flag(n < FIFO_CAPACITY / 2, 25) | put_flag(n == 0, 26)
            | put_flag(self.gx_pipe.len() > 0, 27) | put_field(
            self.state.gxstat.gx_fifo_irq_stat as u32,
            30,
            3,
        )
    }

    /// Get GXSTAT register value
    pub fn get_gxstat(&self) -> (r: u32)
        requires
            self.wf(),
        ensures
            r == self@.status_low() | self@.status_high(),
    {
        self.status_low_exec() | self.status_high_exec()
    }

    /// Get vertex count: how many vertices the rasterizer draws from.
    pub fn get_vert_count(&self) -> (r: u16)
        requires
            self.wf(),
        ensures
            r == self@.core.rend_vert.len(),
    {
        self.rend_vert.len() as u16
    }

    /// Get polygon count: how many polygons the rasterizer draws.
    pub fn get_poly_count(&self) -> (r: u16)
        requires
            self.wf(),
        ensures
            r == self@.core.rend_poly.len(),
    {
        self.rend_poly.len() as u16
    }

    /// Brings the clip matrix up to date.
    pub fn update_clip_mtx(&mut self)
        requires
            old(self).wf(),
        ensures
            final(self).wf(),
            final(self)@ == old(self)@.with_state(
                GxState { mtx: old(self).state.mtx.refreshed(), ..old(self).state },
            ),
            final(self).state.mtx.clip_mtx == old(self).state.mtx.clip(),
    {
        self.state.mtx.update_clip();
    }

    /// Read clip matrix value at address: bits 2 and 3 of the address
    /// choose the lane, bits 4 and 5 the row. The read brings the clip
    /// matrix up to date.
    pub fn read_clip_mtx(&mut self, address: u32) -> (r: u32)
        requires
            old(self).wf(),
        ensures
            final(self).wf(),
            final(self)@ == old(self)@.with_state(
                GxState { mtx: old(self).state.mtx.refreshed(), ..old(self).state },
            ),
            r == old(self).state.mtx.clip().m[field(address, 4, 3) as int][field(
                address,
                2,
                3,
            ) as int] as u32,
    {
        self.update_clip_mtx();
        let row = get_field(address, 4, 3) as usize;
        let lane = get_field(address, 2, 3) as usize;
        self.state.mtx.clip_mtx.m[row][lane] as u32
    }

    /// Read a lane of the upper left 3 by 3 part of the direction matrix:
    /// bits 2 to 5 of the address count the lanes row by row. Beyond the
    /// ninth lane the read gives zero.
    pub fn read_vec_mtx(&self, address: u32) -> (r: u32)
        ensures
            r == if field(address, 2, 0xF) < 9 {
                self.state.mtx.vector_mtx.m[field(address, 2, 0xF) as int / 3][field(
                    address,
                    2,
                    0xF,
                ) as int % 3] as u32
            } else {
                0
            },
    {
        let index = get_field(address, 2, 0xF) as usize;
        if index < 9 {
            self.state.mtx.vector_mtx.m[index / 3][index % 3] as u32
        } else {
            0
        }
    }

    /// Read a lane of the result of the last vector test: bits 1 and 2 of
    /// the address choose it. Beyond the third lane the read gives zero.
    pub fn read_vec_test(&self, address: u32) -> (r: u16)
        ensures
            r == if field(address, 1, 3) < 3 {
                self.state.vec_test_result[field(address, 1, 3) as int] as u16
            } else {
                0
            },
    {
        let index = get_field(address, 1, 3) as usize;
        if index < 3 {
            self.state.vec_test_result[index] as u16
        } else {
            0
        }
    }

    /// Set DISP3DCNT register from halfword
    pub fn set_disp3dcnt(&mut self, halfword: u16)
        ensures
            *final(self) == (Gpu3D {
                state: GxState {
                    disp3dcnt: old(self).state.disp3dcnt.written(halfword),
                    ..old(self).state
                },
                ..*old(self)
            }),
    {
        let w = halfword as u32;
        let before = self.state.disp3dcnt;
        self.state.disp3dcnt = Disp3dCnt {
            texture_mapping: test_bit(w, 0),
            highlight_shading: test_bit(w, 1),
            alpha_test: test_bit(w, 2),
            alpha_blending: test_bit(w, 3),
            anti_aliasing: test_bit(w, 4),
            edge_marking: test_bit(w, 5),
            fog_color_mode: test_bit(w, 6),
            fog_enable: test_bit(w, 7),
            fog_depth_shift: get_field(w, 8, 0xF) as i32,
            color_buffer_underflow: before.color_buffer_underflow && !test_bit(w, 12),
            ram_overflow: before.ram_overflow && !test_bit(w, 13),
            rear_plane_mode: test_bit(w, 14),
        };
    }

    /// Set clear color/depth
    pub fn set_clear_color(&mut self, word: u32)
        ensures
            *final(self) == (Gpu3D {
                state: GxState { clear_color: word, ..old(self).state },
                ..*old(self)
            }),
    {
        self.state.clear_color = word;
    }

    pub fn set_clear_depth(&mut self, word: u32)
        ensures
            *final(self) == (Gpu3D {
                state: GxState { clear_depth: word, ..old(self).state },
                ..*old(self)
            }),
    {
        self.state.clear_depth = word;
    }

    /// Writes the status register.
    pub fn set_gxstat(&mut self, word: u32)
        ensures
            *final(self) == (Gpu3D {
                state: GxState { gxstat: old(self).state.gxstat.written(word), ..old(self).state },
                ..*old(self)
            }),
    {
        let before = self.state.gxstat;
        self.state.gxstat = GxStat {
            mtx_overflow: before.mtx_overflow && !test_bit(word, 15),
            gx_fifo_irq_stat: get_field(word, 30, 3) as i32,
            ..before
        };
    }

    /// Sets an entry of the toon table: bits 1 to 5 of the address choose
    /// it.
    pub fn set_toon_table(&mut self, address: u32, color: u16)
        ensures
            *final(self) == (Gpu3D {
                state: GxState {
                    toon_table: vstd::array::spec_array_update(
                        old(self).state.toon_table,
                        field(address, 1, 0x1F) as int,
                        color,
                    ),
                    ..old(self).state
                },
                ..*old(self)
            }),
    {
        let index = get_field(address, 1, 0x1F) as usize;
        self.state.toon_table[index] = color;
    }
}


impl Gpu3D {
    /// Sets the matrix mode from the low two bits of the word.
    pub fn set_mtx_mode(&mut self, word: u32)
        requires
            old(self).wf(),
        ensures
            final(self).wf(),
            *final(self) == (Gpu3D {
                state: GxState { mtx: old(self).state.mtx.with_mode(word), ..old(self).state },
                ..*old(self)
            }),
    {
        self.state.mtx.set_mode(word);
    }

    /// Pushes the current matrix on its stack. A push on a full stack
    /// changes nothing but the matrix stack error flag, which it sets.
    pub fn mtx_push(&mut self)
        requires
            old(self).wf(),
        ensures
            final(self).wf(),
            *final(self) == (Gpu3D {
                state: (GxState { mtx: old(self).state.mtx.pushed(), ..old(self).state }).stack_checked(
                    old(self).state.mtx.push_overflows(),
                ),
                ..*old(self)
            }),
    {
        if self.state.mtx.push() {
            self.state.gxstat.mtx_overflow = true;
        }
    }

    /// Pops from the stack of the current matrix as many entries as the
    /// word says. A pop of more than the stack holds empties the stack and
    /// sets the matrix stack error flag.
    pub fn mtx_pop(&mut self, word: u32)
        requires
            old(self).wf(),
        ensures
            final(self).wf(),
            *final(self) == (Gpu3D {
                state: (GxState { mtx: old(self).state.mtx.popped(word), ..old(self).state }).stack_checked(
                    old(self).state.mtx.pop_underflows(word),
                ),
                ..*old(self)
            }),
    {
        if self.state.mtx.pop(word) {
            self.state.gxstat.mtx_overflow = true;
        }
    }

    /// Loads the unit matrix into the current matrix.
    pub fn mtx_identity(&mut self)
        requires
            old(self).wf(),
        ensures
            final(self).wf(),
            *final(self) == (Gpu3D {
                state: GxState {
                    mtx: old(self).state.mtx.loaded(Mtx::identity()),
                    ..old(self).state
                },
                ..*old(self)
            }),
    {
        let unit = Mtx::new_identity();
        self.state.mtx.load(&unit);
    }

    /// Takes in one word of a 4 by 4 matrix; with the sixteenth the
    /// current matrix is multiplied by the matrix.
    pub fn mtx_mult_4x4(&mut self, word: u32)
        requires
            old(self).wf(),
        ensures
            final(self).wf(),
            *final(self) == (Gpu3D {
                state: GxState {
                    mtx: old(self).state.mtx.gathered(old(self).state.mtx.gathered_4x4(word)),
                    ..old(self).state
                },
                ..*old(self)
            }),
    {
        self.state.mtx.mult_word_4x4(word);
    }

    /// Takes in one word of a 4 by 3 matrix; with the twelfth the current
    /// matrix is multiplied by the matrix.
    pub fn mtx_mult_4x3(&mut self, word: u32)
        requires
            old(self).wf(),
        ensures
            final(self).wf(),
            *final(self) == (Gpu3D {
                state: GxState {
                    mtx: old(self).state.mtx.gathered(old(self).state.mtx.gathered_4x3(word)),
                    ..old(self).state
                },
                ..*old(self)
            }),
    {
        self.state.mtx.mult_word_4x3(word);
    }

    /// Takes in one word of a 3 by 3 matrix; with the ninth the current
    /// matrix is multiplied by the matrix.
    pub fn mtx_mult_3x3(&mut self, word: u32)
        requires
            old(self).wf(),
        ensures
            final(self).wf(),
            *final(self) == (Gpu3D {
                state: GxState {
                    mtx: old(self).state.mtx.gathered(old(self).state.mtx.gathered_3x3(word)),
                    ..old(self).state
                },
                ..*old(self)
            }),
    {
        self.state.mtx.mult_word_3x3(word);
    }

    /// Takes in one word of a translation; with the third the current
    /// matrix is multiplied by the translation.
    pub fn mtx_trans(&mut self, word: u32)
        requires
            old(self).wf(),
        ensures
            final(self).wf(),
            *final(self) == (Gpu3D {
                state: GxState { mtx: old(self).state.mtx.translated(word), ..old(self).state },
                ..*old(self)
            }),
    {
        self.state.mtx.trans_word(word);
    }

    /// Multiplies the current matrix by the matrix that the word-by-word
    /// commands have filled.
    pub fn mtx_mult(&mut self, update_vector: bool)
        requires
            old(self).wf(),
        ensures
            final(self).wf(),
            *final(self) == (Gpu3D {
                state: GxState {
                    mtx: old(self).state.mtx.multiplied(
                        old(self).state.mtx.mult_params,
                        update_vector,
                    ),
                    ..old(self).state
                },
                ..*old(self)
            }),
    {
        let m = self.state.mtx.mult_params;
        self.state.mtx.multiply(&m, update_vector);
    }

    /// Sets the colour of the vertices to come from the low fifteen bits
    /// of the word.
    pub fn color(&mut self, word: u32)
        ensures
            *final(self) == (Gpu3D {
                state: GxState { current_color: field(word, 0, 0x7FFF), ..old(self).state },
                ..*old(self)
            }),
    {
        self.state.current_color = get_field(word, 0, 0x7FFF);
    }

    /// Normal vector of the vertices to come. The engine has no lights:
    /// the colour of a vertex is the colour last set, and the command
    /// changes nothing.
    pub fn normal(&mut self)
        ensures
            *final(self) == *old(self),
    {
    }

    /// Writes the polygon attributes; they apply from the next
    /// `begin_vtxs` on.
    pub fn set_polygon_attr(&mut self, word: u32)
        ensures
            *final(self) == (Gpu3D {
                state: GxState { polygon_attr: PolygonAttr::decode(word), ..old(self).state },
                ..*old(self)
            }),
    {
        self.state.polygon_attr = PolygonAttr::from_word(word);
    }

    /// Writes the texture parameters.
    pub fn set_teximage_param(&mut self, word: u32)
        ensures
            *final(self) == (Gpu3D {
                state: GxState { teximage_param: TexImageParam::decode(word), ..old(self).state },
                ..*old(self)
            }),
    {
        self.state.teximage_param = TexImageParam::from_word(word);
    }

    /// Sets the viewport.
    pub fn viewport_cmd(&mut self, word: u32)
        ensures
            *final(self) == (Gpu3D {
                state: GxState { viewport: Viewport::decode(word), ..old(self).state },
                ..*old(self)
            }),
    {
        self.state.viewport = Viewport::from_word(word);
    }

    /// Begin vertices: a run that was open ends and a new one opens.
    pub fn begin_vtxs(&mut self, word: u32)
        requires
            old(self).wf(),
        ensures
            final(self).wf(),
            *final(self) == (Gpu3D { state: old(self).state.begun(word), ..*old(self) }),
    {
        self.state.polygon_type = get_field(word, 0, 3);
        self.state.current_poly_attr = self.state.polygon_attr;
        self.state.vertex_list_count = 0;
        self.state.run_open = true;
    }

    /// Ends the run.
    pub fn end_vtxs(&mut self)
        requires
            old(self).wf(),
        ensures
            final(self).wf(),
            *final(self) == (Gpu3D { state: old(self).state.ended(), ..*old(self) }),
    {
        self.state.vertex_list_count = 0;
        self.state.run_open = false;
    }

    /// Asks for a buffer swap. The request ends the run; the swap itself
    /// takes place at the next safe boundary.
    pub fn swap_buffers(&mut self, word: u32)
        requires
            old(self).wf(),
        ensures
            final(self).wf(),
            *final(self) == (Gpu3D { state: old(self).state.swap_requested(word), ..*old(self) }),
    {
        self.state.vertex_list_count = 0;
        self.state.run_open = false;
        self.state.swap_buffers = true;
        self.state.flush_mode = get_field(word, 0, 3) as i32;
    }

    /// Brings the vertices of a ring to the screen and appends them to
    /// the geometry buffer; tells the topmost and the bottommost scanline
    /// among them.
    fn store_vertices(&mut self, ring: &Vec<Vertex>, vp: &Viewport) -> (span: (u16, u16))
        requires
            ring.len() <= MAX_POLYGON_VERTICES,
        ensures
            final(self).geo_vert@ == old(self).geo_vert@ + on_screen(ring@, *vp),
            span.0 == top_of(on_screen(ring@, *vp), ring.len() as int) as u16,
            span.1 == bottom_of(on_screen(ring@, *vp), ring.len() as int) as u16,
            *final(self) == (Gpu3D { geo_vert: final(self).geo_vert, ..*old(self) }),
    {
        let n = ring.len();
        let ghost screen = on_screen(ring@, *vp);
        let ghost old_vert = self.geo_vert@;
        let mut top: i32 = 191;
        let mut bottom: i32 = 0;
        let mut i: usize = 0;
        while i < n
            invariant
                i <= n,
                n == ring.len(),
                screen == on_screen(ring@, *vp),
                self.geo_vert@ == old_vert + screen.subrange(0, i as int),
                *self == (Gpu3D { geo_vert: self.geo_vert, ..*old(self) }),
                top == top_of(screen, i as int),
                bottom == bottom_of(screen, i as int),
                0 <= top <= 191,
                0 <= bottom <= 191,
            decreases n - i,
        {
            let v = to_screen_exec(&ring[i], vp);
            assert(v == screen[i as int]);
            if v.coords[1] < top {
                top = v.coords[1];
            }
            if v.coords[1] > bottom {
                bottom = v.coords[1];
            }
            self.geo_vert.push(v);
            i = i + 1;
            assert(self.geo_vert@ =~= old_vert + screen.subrange(0, i as int));
        }
        assert(screen.subrange(0, n as int) =~= screen);
        (top as u16, bottom as u16)
    }

    /// Appends a polygon of the run in work to the geometry buffer.
    fn store_polygon(&mut self, ring: &Vec<Vertex>, before: &GxState)
        requires
            ring.len() <= MAX_POLYGON_VERTICES,
            old(self).geo_vert.len() <= MAX_VERTICES,
        ensures
            final(self).geo_vert@ == old(self).geo_vert@ + on_screen(ring@, before.viewport),
            final(self).geo_poly@ == old(self).geo_poly@.push(
                before.polygon_of(
                    on_screen(ring@, before.viewport),
                    old(self).geo_vert@.len() as int,
                ),
            ),
            *final(self) == (Gpu3D {
                geo_vert: final(self).geo_vert,
                geo_poly: final(self).geo_poly,
                ..*old(self)
            }),
    {
        let start = self.geo_vert.len();
        let span = self.store_vertices(ring, &before.viewport);
        let attr = before.current_poly_attr;
        self.geo_poly.push(
            Polygon {
                vert_index: start as u16,
                vertices: ring.len() as u8,
                top_y: span.0,
                bottom_y: span.1,
                attributes: attr,
                texparams: before.teximage_param,
                palette_base: before.pltt_base,
                translucent: 0 < attr.alpha && attr.alpha < 31,
            },
        );
    }

    /// Sets the RAM overflow flag.
    fn flag_ram_overflow(&mut self)
        ensures
            *final(self) == (Gpu3D { state: old(self).state.overflowed(), ..*old(self) }),
    {
        self.state.disp3dcnt.ram_overflow = true;
    }

    /// Hands a clipped polygon of the run described by `before` to the
    /// geometry buffer.
    fn store(&mut self, ring: &Vec<Vertex>, before: &GxState)
        requires
            ring.len() <= MAX_POLYGON_VERTICES,
            old(self).geo_vert.len() <= MAX_VERTICES,
            old(self).geo_poly.len() <= MAX_POLYGONS,
        ensures
            final(self)@ == old(self)@.with_core(old(self)@.core.stored(ring@, *before)),
            final(self).geo_vert.len() <= MAX_VERTICES,
            final(self).geo_poly.len() <= MAX_POLYGONS,
            final(self).state == old(self).state || final(self).state
                == old(self).state.overflowed(),
    {
        let n = ring.len();
        let ghost target = old(self)@.core.stored(ring@, *before);
        if n < 3 {
            assert(target == old(self)@.core);
        } else if self.geo_vert.len() + n > MAX_VERTICES || self.geo_poly.len() >= MAX_POLYGONS {
            self.flag_ram_overflow();
            assert(target == (GxCore { state: old(self).state.overflowed(), ..old(self)@.core }));
        } else {
            self.store_polygon(ring, before);
            assert(target.geo_vert == self.geo_vert@);
            assert(target.geo_poly == self.geo_poly@);
            assert(target.state == self.state);
            assert(target.rend_vert == self.rend_vert@);
            assert(target.rend_poly == self.rend_poly@);
        }
        assert(self@.core == target);
    }

    /// Takes up the polygon whose vertices are complete.
    pub fn add_polygon(&mut self)
        requires
            old(self).state.wf_but_list(),
            old(self)@.core.geo_vert.len() <= MAX_VERTICES,
            old(self)@.core.geo_poly.len() <= MAX_POLYGONS,
        ensures
            final(self).state.wf(),
            final(self)@ == old(self)@.with_core(old(self)@.core.assembled()),
            final(self)@.core.geo_vert.len() <= MAX_VERTICES,
            final(self)@.core.geo_poly.len() <= MAX_POLYGONS,
    {
        let ring = self.state.ring_exec();
        let clipped_ring = Gpu3D::clip(&ring, 0, true);
        let before = self.state;
        self.state.take_polygon();
        self.store(&clipped_ring, &before);
    }

    /// Submits the vertex that the registers describe.
    pub fn add_vertex(&mut self)
        requires
            old(self).wf(),
        ensures
            final(self).wf(),
            final(self)@ == old(self)@.with_core(old(self)@.core.submitted()),
    {
        if !self.state.run_open {
            return ;
        }
        self.state.mtx.update_clip();
        let v = self.state.current_exec();
        self.state.vertex_list[self.state.vertex_list_count as usize] = v;
        self.state.vertex_list_count = self.state.vertex_list_count + 1;
        if self.state.vertex_list_count >= vertices_needed_exec(self.state.polygon_type) {
            self.add_polygon();
        }
    }
}


impl Gpu3D {
    /// Executes a matrix command.
    fn exec_matrix(&mut self, cmd: &GxCommand)
        requires
            old(self).wf(),
            0x10 <= cmd.command <= 0x1C,
        ensures
            final(self).wf(),
            *final(self) == (Gpu3D { state: old(self).state.matrix_command(*cmd), ..*old(self) }),
    {
        let op = cmd.command;
        if op == 0x10 {
            self.set_mtx_mode(cmd.params[0]);
        } else if op == 0x11 {
            self.mtx_push();
        } else if op == 0x12 {
            self.mtx_pop(cmd.params[0]);
        } else if op == 0x15 {
            self.mtx_identity();
        } else if op == 0x16 {
            let m = Mtx::from_4x4(&cmd.params);
            self.state.mtx.load(&m);
        } else if op == 0x17 {
            let m = Mtx::from_4x3(&cmd.params);
            self.state.mtx.load(&m);
        } else if op == 0x18 {
            let m = Mtx::from_4x4(&cmd.params);
            self.state.mtx.multiply(&m, true);
        } else if op == 0x19 {
            let m = Mtx::from_4x3(&cmd.params);
            self.state.mtx.multiply(&m, true);
        } else if op == 0x1A {
            let m = Mtx::from_3x3(&cmd.params);
            self.state.mtx.multiply(&m, true);
        } else if op == 0x1B {
            let m = Mtx::new_scaling(&cmd.params);
            self.state.mtx.multiply(&m, false);
        } else if op == 0x1C {
            let m = Mtx::new_translation(&cmd.params);
            self.state.mtx.multiply(&m, true);
        }
    }

    /// Sets the coordinates of the next vertex as a vertex command says.
    fn exec_vertex(&mut self, cmd: &GxCommand)
        requires
            is_vertex_command(cmd.command),
        ensures
            *final(self) == (Gpu3D { state: old(self).state.vertex_command(*cmd), ..*old(self) }),
    {
        let op = cmd.command;
        let first = cmd.params[0];
        let before = self.state.current_vertex;
        let next: [i16; 3] = if op == 0x23 {
            [half_exec(first, 0), half_exec(first, 16), half_exec(cmd.params[1], 0)]
        } else if op == 0x24 {
            [tenth_exec(first, 0), tenth_exec(first, 10), tenth_exec(first, 20)]
        } else if op == 0x25 {
            [half_exec(first, 0), half_exec(first, 16), before[2]]
        } else if op == 0x26 {
            [half_exec(first, 0), before[1], half_exec(first, 16)]
        } else {
            [before[0], half_exec(first, 0), half_exec(first, 16)]
        };
        assert(next =~= old(self).state.vertex_command(*cmd).current_vertex);
        self.state.current_vertex = next;
    }

    /// Executes a command that sets an attribute.
    fn exec_attribute(&mut self, cmd: &GxCommand)
        ensures
            *final(self) == (Gpu3D {
                state: old(self).state.attribute_command(*cmd),
                ..*old(self)
            }),
    {
        let op = cmd.command;
        let first = cmd.params[0];
        if op == 0x20 {
            self.color(first);
        } else if op == 0x22 {
            let t = [half_exec(first, 0), half_exec(first, 16)];
            assert(t =~= old(self).state.attribute_command(*cmd).current_texcoords);
            self.state.current_texcoords = t;
        } else if op == 0x29 {
            self.set_polygon_attr(first);
        } else if op == 0x2A {
            self.set_teximage_param(first);
        } else if op == 0x2B {
            self.state.pltt_base = get_field(first, 0, 0x1FFF);
        } else if op == 0x60 {
            self.viewport_cmd(first);
        }
    }

    /// Executes one command.
    pub fn exec_command(&mut self, cmd: GxCommand)
        requires
            old(self).wf(),
        ensures
            final(self).wf(),
            final(self)@ == old(self)@.with_core(old(self)@.core.executed(cmd)),
    {
        proof {
            reveal(GxCore::executed);
        }
        let op = cmd.command;
        if cmd.param_count != param_amount_exec(op) {
        } else if 0x10 <= op && op <= 0x1C {
            self.exec_matrix(&cmd);
        } else if 0x23 <= op && op <= 0x27 {
            self.exec_vertex(&cmd);
            self.add_vertex();
        } else if op == 0x40 {
            self.begin_vtxs(cmd.params[0]);
        } else if op == 0x41 {
            self.end_vtxs();
        } else if op == 0x50 {
            self.swap_buffers(cmd.params[0]);
        } else {
            self.exec_other(&cmd);
        }
    }

    /// Lets a swap that is due take place: the two buffers change places
    /// and the geometry buffer starts empty.
    pub fn settle(&mut self)
        requires
            old(self).wf(),
        ensures
            final(self).wf(),
            final(self)@ == old(self)@.with_core(old(self)@.core.settled()),
    {
        if self.state.swap_buffers && !self.state.run_open {
            core::mem::swap(&mut self.geo_vert, &mut self.rend_vert);
            core::mem::swap(&mut self.geo_poly, &mut self.rend_poly);
            self.geo_vert.clear();
            self.geo_poly.clear();
            self.state.swap_buffers = false;
            assert(self@.core.geo_vert =~= Seq::<Vertex>::empty());
            assert(self@.core.geo_poly =~= Seq::<Polygon>::empty());
        }
    }

    /// Moves commands from the FIFO to the pipe until the pipe is full or
    /// the FIFO empty.
    pub fn refill(&mut self)
        requires
            old(self).wf(),
        ensures
            final(self).wf(),
            final(self)@.core == old(self)@.core,
            final(self)@.queue() == old(self)@.queue(),
            final(self)@.pipe.len() == pipe_share(old(self)@.queue().len()),
    {
        while self.gx_pipe.len() < PIPE_CAPACITY && self.gx_fifo.len() > 0
            invariant
                self.wf(),
                self@.core == old(self)@.core,
                self@.queue() == old(self)@.queue(),
            decreases self.gx_fifo.len(),
        {
            let ghost before = self@;
            match self.gx_fifo.pop_front() {
                Some(cmd) => {
                    self.gx_pipe.push_back(cmd);
                    assert(self@.queue() =~= before.queue());
                },
                None => {},
            }
        }
    }

    /// Takes the next command from the queue.
    pub fn read_command(&mut self) -> (r: Option<GxCommand>)
        requires
            old(self).wf(),
        ensures
            final(self).wf(),
            final(self)@.core == old(self)@.core,
            old(self)@.queue().len() == 0 ==> r.is_none() && final(self)@.queue()
                == old(self)@.queue(),
            old(self)@.queue().len() > 0 ==> r == Some(old(self)@.queue()[0])
                && final(self)@.queue() == old(self)@.queue().subrange(
                1,
                old(self)@.queue().len() as int,
            ),
    {
        self.refill();
        let ghost before = self@;
        let r = self.gx_pipe.pop_front();
        proof {
            if before.queue().len() > 0 {
                assert(self@.queue() =~= before.queue().subrange(1, before.queue().len() as int));
            } else {
                assert(self@.queue() =~= before.queue());
            }
        }
        r
    }

    /// Executes commands while no more than the budget is spent; tells
    /// what was spent.
    fn drain_queue(&mut self, cycles_to_run: u64) -> (spent: u64)
        requires
            old(self).wf(),
        ensures
            final(self).wf(),
            drain(old(self)@.core, old(self)@.queue(), cycles_to_run, 0) == (
                final(self)@.core,
                final(self)@.queue(),
                spent,
            ),
            final(self)@.pipe.len() == pipe_share(final(self)@.queue().len()),
    {
        let ghost target = drain(old(self)@.core, old(self)@.queue(), cycles_to_run, 0);
        let mut spent: u64 = 0;
        loop
            invariant_except_break
                self.wf(),
                drain(self@.core, self@.queue(), cycles_to_run, spent) == target,
            ensures
                self.wf(),
                target == (self@.core, self@.queue(), spent),
                self@.pipe.len() == pipe_share(self@.queue().len()),
            decreases self@.queue().len(),
        {
            self.settle();
            self.refill();
            if self.gx_pipe.len() == 0 || spent > cycles_to_run {
                break ;
            }
            let ghost ready = self@;
            match self.gx_pipe.pop_front() {
                Some(cmd) => {
                    assert(cmd == ready.queue()[0]);
                    assert(self@.queue() =~= ready.queue().subrange(
                        1,
                        ready.queue().len() as int,
                    ));
                    self.exec_command(cmd);
                    let cost = command_cost_exec(cmd.command);
                    spent = if spent > u64::MAX - cost {
                        u64::MAX
                    } else {
                        spent + cost
                    };
                },
                None => {},
            }
        }
        spent
    }

    /// Records what a drain spent and whether commands are left.
    fn record_drain(&mut self, spent: u64)
        requires
            old(self).wf(),
        ensures
            final(self).wf(),
            *final(self) == (Gpu3D {
                state: GxState {
                    cycles: spent,
                    gxstat: GxStat {
                        geo_busy: old(self)@.queue().len() > 0,
                        ..old(self).state.gxstat
                    },
                    ..old(self).state
                },
                ..*old(self)
            }),
    {
        self.state.cycles = spent;
        self.state.gxstat.geo_busy = self.gx_pipe.len() > 0 || self.gx_fifo.len() > 0;
    }

    /// Run the 3D engine for given cycles: commands are executed in the
    /// order in which they were enqueued, as long as no more than the
    /// budget is spent. The command that takes the cost past the budget is
    /// the last one executed.
    pub fn run(&mut self, cycles_to_run: u64)
        requires
            old(self).wf(),
        ensures
            final(self).wf(),
            final(self)@ == old(self)@.drained(cycles_to_run),
    {
        let spent = self.drain_queue(cycles_to_run);
        let ghost rest = self@.queue();
        let ghost mid = self@;
        self.record_drain(spent);
        assert(self@.pipe == mid.pipe && self@.fifo == mid.fifo);
        assert(self@.pipe =~= rest.subrange(0, pipe_share(rest.len())));
        assert(self@.fifo =~= rest.subrange(pipe_share(rest.len()), rest.len() as int));
    }

    /// Called at end of frame: a swap that is due takes place.
    pub fn end_of_frame(&mut self)
        requires
            old(self).wf(),
        ensures
            final(self).wf(),
            final(self)@ == old(self)@.with_core(old(self)@.core.settled()),
    {
        self.settle();
    }
}

impl Default for Gpu3D {
    fn default() -> (r: Gpu3D)
        ensures
            r.wf(),
            r.state.is_reset(),
            r@.fifo.len() == 0,
            r@.pipe.len() == 0,
            r@.core.geo_vert.len() == 0,
            r@.core.geo_poly.len() == 0,
            r@.core.rend_vert.len() == 0,
            r@.core.rend_poly.len() == 0,
    {
        Gpu3D::new()
    }
}


impl Gpu3D {
    fn vec_lane_exec(&self, word: u32, j: usize) -> (r: i16)
        requires
            j < 4,
        ensures
            r == self.state.vec_lane(word, j as int),
    {
        let m = &self.state.mtx.vector_mtx;
        let sum = wide_mul(ninth_exec(word, 0) as i32, m.m[0][j]) + wide_mul(
            ninth_exec(word, 10) as i32,
            m.m[1][j],
        ) + wide_mul(ninth_exec(word, 20) as i32, m.m[2][j]);
        to_lane_exec(sum) as i16
    }

    /// Vector test: carries the vector in the word through the direction
    /// matrix and keeps the result for reading.
    pub fn vec_test(&mut self, word: u32)
        ensures
            *final(self) == (Gpu3D { state: old(self).state.vec_tested(word), ..*old(self) }),
    {
        let r = [self.vec_lane_exec(word, 0), self.vec_lane_exec(word, 1), self.vec_lane_exec(word, 2)];
        assert(r =~= old(self).state.vec_tested(word).vec_test_result);
        self.state.vec_test_result = r;
    }

    /// Brings the clip matrix up to date and hands it out.
    fn fresh_clip(&mut self) -> (clip: Mtx)
        requires
            old(self).wf(),
        ensures
            final(self).wf(),
            clip == old(self).state.mtx.clip(),
            *final(self) == (Gpu3D {
                state: GxState { mtx: old(self).state.mtx.refreshed(), ..old(self).state },
                ..*old(self)
            }),
    {
        self.state.mtx.update_clip();
        self.state.mtx.clip_mtx
    }

    /// Records the result of a box test.
    fn record_box_test(&mut self, visible: bool)
        requires
            old(self).wf(),
        ensures
            final(self).wf(),
            *final(self) == (Gpu3D {
                state: GxState {
                    gxstat: GxStat { boxtest_result: visible, ..old(self).state.gxstat },
                    ..old(self).state
                },
                ..*old(self)
            }),
    {
        self.state.gxstat.boxtest_result = visible;
    }

    /// Box test: tells in the status register whether the box that the
    /// parameters describe reaches into the view volume.
    pub fn box_test(&mut self, p: &[u32; 32])
        requires
            old(self).wf(),
        ensures
            final(self).wf(),
            *final(self) == (Gpu3D { state: old(self).state.box_tested(p@), ..*old(self) }),
    {
        let clip = self.fresh_clip();
        let visible = box_visible_exec(&clip, p);
        self.record_box_test(visible);
    }

    /// Executes a test or a command that sets an attribute.
    fn exec_other(&mut self, cmd: &GxCommand)
        requires
            old(self).wf(),
        ensures
            final(self).wf(),
            *final(self) == (Gpu3D { state: old(self).state.other_command(*cmd), ..*old(self) }),
    {
        if cmd.command == 0x70 {
            self.box_test(&cmd.params);
        } else if cmd.command == 0x72 {
            self.vec_test(cmd.params[0]);
        } else {
            self.exec_attribute(cmd);
        }
    }
}

fn box_corner_exec(clip: &Mtx, p: &[u32; 32], k: usize) -> (r: Vertex)
    requires
        k < 8,
    ensures
        r == box_corner(*clip, p@, k as int),
{
    let x0 = half_exec(p[0], 0) as i32;
    let y0 = half_exec(p[0], 16) as i32;
    let z0 = half_exec(p[1], 0) as i32;
    let x = (x0 + if k % 2 == 1 {
        half_exec(p[1], 16) as i32
    } else {
        0
    }) as i16;
    let y = (y0 + if (k / 2) % 2 == 1 {
        half_exec(p[2], 0) as i32
    } else {
        0
    }) as i16;
    let z = (z0 + if (k / 4) % 2 == 1 {
        half_exec(p[2], 16) as i32
    } else {
        0
    }) as i16;
    let zero = Vertex::default();
    Vertex { coords: clip.transform_point(x, y, z), ..zero }
}

fn face_visible_exec(clip: &Mtx, p: &[u32; 32], a: usize, b: usize, c: usize, d: usize) -> (r: bool)
    requires
        a < 8 && b < 8 && c < 8 && d < 8,
    ensures
        r == face_visible(*clip, p@, a as int, b as int, c as int, d as int),
{
    let mut face: Vec<Vertex> = Vec::new();
    face.push(box_corner_exec(clip, p, a));
    face.push(box_corner_exec(clip, p, b));
    face.push(box_corner_exec(clip, p, c));
    face.push(box_corner_exec(clip, p, d));
    assert(face@ =~= box_face(*clip, p@, a as int, b as int, c as int, d as int));
    Gpu3D::clip(&face, 0, false).len() > 0
}

fn box_visible_exec(clip: &Mtx, p: &[u32; 32]) -> (r: bool)
    ensures
        r == box_visible(*clip, p@),
{
    reveal(box_visible);
    face_visible_exec(clip, p, 0, 1, 3, 2) || face_visible_exec(clip, p, 4, 5, 7, 6)
        || face_visible_exec(clip, p, 0, 1, 5, 4) || face_visible_exec(clip, p, 2, 3, 7, 6)
        || face_visible_exec(clip, p, 0, 2, 6, 4) || face_visible_exec(clip, p, 1, 3, 7, 5)
}

} // verus!
