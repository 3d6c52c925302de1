//! The registers of the geometry engine, and what each command does to
//! them.

use vstd::prelude::*;
use vstd::array::spec_array_update;
use crate::bits::{field, get_field};
use crate::gpu3d::{
    Disp3dCnt, GxCommand, GxStat, PolygonAttr, TexImageParam, Vertex, Viewport, param_amount,
    param_amount_exec,
};
use crate::mtxstate::MatrixState;

verus! {

/// What is left of a packed command word, and the parameters received so
/// far for the command in its lowest byte.
#[derive(Debug, Clone, Copy)]
pub struct Unpacker {
    /// The command bytes not yet completed, the current one lowest.
    pub current_cmd: u32,
    /// How many command bytes of the packed word are not yet completed.
    pub cmd_count: u8,
    /// How many parameters of the current command have arrived.
    pub param_count: u8,
    pub cmd_params: [u32; 32],
}

impl Unpacker {
    /// The command byte that parameters are awaited for.
    pub open spec fn opcode(self) -> u8 {
        (self.current_cmd & 0xFF) as u8
    }

    /// Either no packed word is in work, or its current command still waits
    /// for a parameter.
    pub open spec fn wf(self) -> bool {
        &&& self.cmd_count <= 4
        &&& self.cmd_count > 0 ==> self.param_count < param_amount(self.opcode())
        &&& self.cmd_count == 0 ==> self.param_count == 0
    }

    /// The unpacker with the next word taken in: a packed command word
    /// where none is in work, else a parameter of the current command.
    pub open spec fn taken(self, word: u32) -> Unpacker {
        if self.cmd_count == 0 {
            Unpacker { current_cmd: word, cmd_count: 4, param_count: 0, ..self }
        } else {
            Unpacker {
                cmd_params: spec_array_update(self.cmd_params, self.param_count as int, word),
                param_count: (self.param_count + 1) as u8,
                ..self
            }
        }
    }

    /// The current command has all its parameters.
    pub open spec fn ready(self) -> bool {
        self.cmd_count > 0 && self.param_count >= param_amount(self.opcode())
    }

    /// The unpacker moved on to the next command byte of the packed word.
    pub open spec fn advanced(self) -> Unpacker {
        Unpacker {
            current_cmd: self.current_cmd >> 8,
            cmd_count: (self.cmd_count - 1) as u8,
            param_count: 0,
            ..self
        }
    }

    /// The command that is ready.
    pub open spec fn current(self) -> GxCommand {
        GxCommand {
            command: self.opcode(),
            param_count: param_amount(self.opcode()),
            params: self.cmd_params,
        }
    }

    /// The commands that are complete, in order, added to `emitted`, and
    /// the unpacker after them. A command byte of zero pads a packed word
    /// and gives no command.
    pub open spec fn flushed(self, emitted: Seq<GxCommand>) -> (Unpacker, Seq<GxCommand>)
        decreases self.cmd_count,
    {
        if self.ready() {
            self.advanced().flushed(
                if self.opcode() == 0 {
                    emitted
                } else {
                    emitted.push(self.current())
                },
            )
        } else {
            (self, emitted)
        }
    }

    /// What a word written to the FIFO port does: the unpacker afterwards
    /// and the commands that the word completes.
    pub open spec fn fed(self, word: u32) -> (Unpacker, Seq<GxCommand>) {
        self.taken(word).flushed(Seq::empty())
    }

    pub fn new() -> (r: Unpacker)
        ensures
            r.wf(),
            r.cmd_count == 0,
            r.param_count == 0,
            r.current_cmd == 0,
            forall|i: int| 0 <= i < 32 ==> r.cmd_params[i] == 0,
    {
        Unpacker { current_cmd: 0, cmd_count: 0, param_count: 0, cmd_params: [0u32; 32] }
    }

    /// Takes a word in and hands out the commands that it completes.
    pub fn feed(&mut self, word: u32) -> (emitted: Vec<GxCommand>)
        requires
            old(self).wf(),
        ensures
            final(self).wf(),
            (*final(self), emitted@) == old(self).fed(word),
            emitted@.len() <= 4,
    {
        if self.cmd_count == 0 {
            self.current_cmd = word;
            self.cmd_count = 4;
            self.param_count = 0;
        } else {
            self.cmd_params[self.param_count as usize] = word;
            self.param_count = self.param_count + 1;
        }
        let ghost start = *self;
        assert(start == old(self).taken(word));
        let mut emitted: Vec<GxCommand> = Vec::new();
        while self.cmd_count > 0 && self.param_count >= param_amount_exec(
            (self.current_cmd & 0xFF) as u8,
        )
            invariant
                self.cmd_count <= 4,
                emitted@.len() + self.cmd_count <= 4,
                self.cmd_count == 0 ==> self.param_count == 0,
                self.flushed(emitted@) == start.flushed(Seq::empty()),
            decreases self.cmd_count,
        {
            let op = (self.current_cmd & 0xFF) as u8;
            if op != 0 {
                emitted.push(
                    GxCommand { command: op, param_count: param_amount_exec(op), params: self.cmd_params },
                );
            }
            self.current_cmd = self.current_cmd >> 8;
            self.cmd_count = self.cmd_count - 1;
            self.param_count = 0;
        }
        emitted
    }
}

/// The parameters received so far at a command port.
#[derive(Debug, Clone, Copy)]
pub struct PortBuffer {
    /// The command whose port was written last.
    pub command: u8,
    /// How many of its parameters have arrived.
    pub count: u8,
    pub params: [u32; 32],
}

impl PortBuffer {
    /// Fewer parameters are held than the command takes.
    pub open spec fn wf(self) -> bool {
        self.count == 0 || self.count < param_amount(self.command)
    }

    /// How many parameters of `command` are already held: those of another
    /// command are dropped.
    pub open spec fn held(self, command: u8) -> u8 {
        if self.command == command {
            self.count
        } else {
            0
        }
    }

    /// The parameters with `word` added for `command`.
    pub open spec fn gathered(self, command: u8, word: u32) -> [u32; 32] {
        spec_array_update(self.params, self.held(command) as int, word)
    }

    /// `word` is the last parameter that `command` waits for.
    pub open spec fn completes(self, command: u8, word: u32) -> bool {
        self.held(command) + 1 >= param_amount(command)
    }

    /// The buffer after `word` is written to the port of `command`.
    pub open spec fn written(self, command: u8, word: u32) -> PortBuffer {
        PortBuffer {
            command,
            count: if self.completes(command, word) {
                0
            } else {
                (self.held(command) + 1) as u8
            },
            params: self.gathered(command, word),
        }
    }

    /// The command that the write completes.
    pub open spec fn completed(self, command: u8, word: u32) -> GxCommand {
        GxCommand {
            command,
            param_count: param_amount(command),
            params: self.gathered(command, word),
        }
    }

    pub fn new() -> (r: PortBuffer)
        ensures
            r.wf(),
            r.count == 0,
            r.command == 0,
            forall|i: int| 0 <= i < 32 ==> r.params[i] == 0,
    {
        PortBuffer { command: 0, count: 0, params: [0u32; 32] }
    }

    /// Takes in a word written to the port of `command` and hands out the
    /// command if the word completes it.
    pub fn write(&mut self, command: u8, word: u32) -> (r: Option<GxCommand>)
        requires
            old(self).wf(),
        ensures
            final(self).wf(),
            *final(self) == old(self).written(command, word),
            r == if old(self).completes(command, word) {
                Some(old(self).completed(command, word))
            } else {
                None
            },
    {
        let held: u8 = if self.command == command {
            self.count
        } else {
            0
        };
        let need = param_amount_exec(command);
        self.command = command;
        self.params[held as usize] = word;
        if held + 1 >= need {
            self.count = 0;
            Some(GxCommand { command, param_count: need, params: self.params })
        } else {
            self.count = held + 1;
            None
        }
    }
}


/// Primitive type: separate triangles.
pub const TRIANGLES: u32 = 0;

/// Primitive type: separate quadrilaterals.
pub const QUADS: u32 = 1;

/// Primitive type: a strip of triangles.
pub const TRIANGLE_STRIP: u32 = 2;

/// Primitive type: a strip of quadrilaterals.
pub const QUAD_STRIP: u32 = 3;

/// How many vertices make a polygon of the primitive type.
pub open spec fn vertices_needed(polygon_type: u32) -> u8 {
    if polygon_type == QUADS || polygon_type == QUAD_STRIP {
        4
    } else {
        3
    }
}

pub fn vertices_needed_exec(polygon_type: u32) -> (r: u8)
    ensures
        r == vertices_needed(polygon_type),
{
    if polygon_type == QUADS || polygon_type == QUAD_STRIP {
        4
    } else {
        3
    }
}

/// The registers of the geometry engine: everything but the queues and the
/// geometry buffers.
#[derive(Debug, Clone, Copy)]
pub struct GxState {
    pub mtx: MatrixState,
    pub unpack: Unpacker,
    pub port: PortBuffer,
    pub disp3dcnt: Disp3dCnt,
    /// The polygon attributes as last written; they apply from the next
    /// `begin_vtxs` on.
    pub polygon_attr: PolygonAttr,
    /// The polygon attributes of the run in work.
    pub current_poly_attr: PolygonAttr,
    pub teximage_param: TexImageParam,
    pub toon_table: [u16; 32],
    pub pltt_base: u32,
    pub viewport: Viewport,
    pub gxstat: GxStat,
    pub polygon_type: u32,
    pub clear_depth: u32,
    pub clear_color: u32,
    pub flush_mode: i32,
    /// The last write to the FIFO found it full and was dropped.
    pub fifo_stalled: bool,
    pub current_color: u32,
    pub current_vertex: [i16; 3],
    pub current_texcoords: [i16; 2],
    /// A buffer swap was asked for and has not taken place yet.
    pub swap_buffers: bool,
    /// A polygon-assembly run is open: `begin_vtxs` was issued and nothing
    /// has ended the run since.
    pub run_open: bool,
    /// The vertices of the polygon in work.
    pub vertex_list: [Vertex; 10],
    pub vertex_list_count: u8,
    pub vec_test_result: [i16; 3],
    /// What the last drain spent.
    pub cycles: u64,
}

impl GxState {
    /// Well formed but for the vertex list, which may hold a complete
    /// polygon.
    pub open spec fn wf_but_list(self) -> bool {
        &&& self.mtx.wf()
        &&& self.unpack.wf()
        &&& self.port.wf()
        &&& self.polygon_type < 4
    }

    /// The parts are well formed, and the vertex list holds fewer vertices
    /// than make a polygon.
    pub open spec fn wf(self) -> bool {
        &&& self.wf_but_list()
        &&& self.vertex_list_count < vertices_needed(self.polygon_type)
    }

    /// The three five-bit channels of the current colour: red, green, blue.
    pub open spec fn color_lanes(self) -> [i32; 3] {
        [
            field(self.current_color, 0, 0x1F) as i32,
            field(self.current_color, 5, 0x1F) as i32,
            field(self.current_color, 10, 0x1F) as i32,
        ]
    }

    /// The vertex that the current registers describe, in clip
    /// coordinates.
    pub open spec fn current(self) -> Vertex {
        Vertex {
            coords: self.mtx.clip().transform(
                self.current_vertex[0],
                self.current_vertex[1],
                self.current_vertex[2],
            ),
            colors: self.color_lanes(),
            final_colors: self.color_lanes(),
            clipped: false,
            texcoords: [self.current_texcoords[0] as i32, self.current_texcoords[1] as i32],
        }
    }

    /// The vertices of the polygon that is complete, in the order of its
    /// outline. A strip of quadrilaterals receives the last two vertices of
    /// each quadrilateral crosswise.
    pub open spec fn ring(self) -> Seq<Vertex> {
        let l = self.vertex_list;
        if self.polygon_type == QUADS {
            seq![l[0], l[1], l[2], l[3]]
        } else if self.polygon_type == QUAD_STRIP {
            seq![l[0], l[1], l[3], l[2]]
        } else {
            seq![l[0], l[1], l[2]]
        }
    }

    /// The state once a complete polygon is taken from the vertex list: a
    /// strip keeps its last two vertices as the first two of the next
    /// polygon, any other primitive starts anew.
    pub open spec fn after_polygon(self) -> GxState {
        let l = self.vertex_list;
        if self.polygon_type == TRIANGLE_STRIP {
            GxState {
                vertex_list: spec_array_update(spec_array_update(l, 0, l[1]), 1, l[2]),
                vertex_list_count: 2,
                ..self
            }
        } else if self.polygon_type == QUAD_STRIP {
            GxState {
                vertex_list: spec_array_update(spec_array_update(l, 0, l[2]), 1, l[3]),
                vertex_list_count: 2,
                ..self
            }
        } else {
            GxState { vertex_list_count: 0, ..self }
        }
    }

    /// The state after `begin_vtxs`: a run that was open ends, and a new
    /// one opens with the primitive type in the low two bits of the word
    /// and the polygon attributes written last.
    pub open spec fn begun(self, word: u32) -> GxState {
        GxState {
            polygon_type: field(word, 0, 3),
            current_poly_attr: self.polygon_attr,
            vertex_list_count: 0,
            run_open: true,
            ..self
        }
    }

    /// The state after the run is ended: the vertices of an unfinished
    /// polygon are dropped.
    pub open spec fn ended(self) -> GxState {
        GxState { vertex_list_count: 0, run_open: false, ..self }
    }

    /// The state after a buffer swap is asked for: the request ends the run
    /// and stays pending; the low two bits of the word are kept as the
    /// flush mode.
    pub open spec fn swap_requested(self, word: u32) -> GxState {
        GxState {
            vertex_list_count: 0,
            run_open: false,
            swap_buffers: true,
            flush_mode: field(word, 0, 3) as i32,
            ..self
        }
    }

    /// The state of an engine that was just made: the matrices are unit
    /// matrices, no command is half received, no run is open, and every
    /// register and table holds zero.
    pub open spec fn is_reset(self) -> bool {
        &&& self.mtx.is_reset()
        &&& self.unpack.cmd_count == 0 && self.unpack.param_count == 0 && self.unpack.current_cmd
            == 0
        &&& forall|i: int| 0 <= i < 32 ==> self.unpack.cmd_params[i] == 0
        &&& self.port.count == 0 && self.port.command == 0
        &&& forall|i: int| 0 <= i < 32 ==> self.port.params[i] == 0
        &&& self.disp3dcnt == Disp3dCnt::cleared()
        &&& self.polygon_attr == PolygonAttr::decode(0)
        &&& self.current_poly_attr == PolygonAttr::decode(0)
        &&& self.teximage_param == TexImageParam::decode(0)
        &&& self.viewport == Viewport::decode(0)
        &&& self.gxstat == GxStat::cleared()
        &&& forall|i: int| 0 <= i < 32 ==> self.toon_table[i] == 0
        &&& self.pltt_base == 0 && self.polygon_type == 0 && self.clear_depth == 0
            && self.clear_color == 0 && self.flush_mode == 0 && self.current_color == 0
            && self.cycles == 0
        &&& !self.fifo_stalled && !self.swap_buffers && !self.run_open
        &&& self.vertex_list_count == 0
        &&& forall|i: int| 0 <= i < 10 ==> self.vertex_list[i] == Vertex::zero()
        &&& self.current_vertex@ == seq![0i16, 0i16, 0i16]
        &&& self.current_texcoords@ == seq![0i16, 0i16]
        &&& self.vec_test_result@ == seq![0i16, 0i16, 0i16]
    }

    pub fn new() -> (r: GxState)
        ensures
            r.wf(),
            r.is_reset(),
    {
        let v = Vertex::default();
        let r = GxState {
            mtx: MatrixState::new(),
            unpack: Unpacker::new(),
            port: PortBuffer::new(),
            disp3dcnt: Disp3dCnt::default(),
            polygon_attr: PolygonAttr::default(),
            current_poly_attr: PolygonAttr::default(),
            teximage_param: TexImageParam::default(),
            toon_table: [0u16; 32],
            pltt_base: 0,
            viewport: Viewport::default(),
            gxstat: GxStat::default(),
            polygon_type: 0,
            clear_depth: 0,
            clear_color: 0,
            flush_mode: 0,
            fifo_stalled: false,
            current_color: 0,
            current_vertex: [0i16; 3],
            current_texcoords: [0i16; 2],
            swap_buffers: false,
            run_open: false,
            vertex_list: [v; 10],
            vertex_list_count: 0,
            vec_test_result: [0i16; 3],
            cycles: 0,
        };
        assert(r.current_vertex@ =~= seq![0i16, 0i16, 0i16]);
        assert(r.current_texcoords@ =~= seq![0i16, 0i16]);
        assert(r.vec_test_result@ =~= seq![0i16, 0i16, 0i16]);
        r
    }

    pub fn color_lanes_exec(&self) -> (r: [i32; 3])
        ensures
            r == self.color_lanes(),
    {
        let r = [
            get_field(self.current_color, 0, 0x1F) as i32,
            get_field(self.current_color, 5, 0x1F) as i32,
            get_field(self.current_color, 10, 0x1F) as i32,
        ];
        assert(r =~= self.color_lanes());
        r
    }

    /// The vertex that the current registers describe. The clip matrix
    /// must be up to date.
    pub fn current_exec(&self) -> (r: Vertex)
        requires
            self.mtx.wf(),
            !self.mtx.clip_dirty,
        ensures
            r == self.current(),
    {
        let lanes = self.color_lanes_exec();
        let r = Vertex {
            coords: self.mtx.clip_mtx.transform_point(
                self.current_vertex[0],
                self.current_vertex[1],
                self.current_vertex[2],
            ),
            colors: lanes,
            final_colors: lanes,
            clipped: false,
            texcoords: [self.current_texcoords[0] as i32, self.current_texcoords[1] as i32],
        };
        assert(r.texcoords =~= self.current().texcoords);
        r
    }

    /// The vertices of the complete polygon, in the order of its outline.
    pub fn ring_exec(&self) -> (r: Vec<Vertex>)
        ensures
            r@ == self.ring(),
    {
        let l = &self.vertex_list;
        let mut r: Vec<Vertex> = Vec::new();
        r.push(l[0]);
        r.push(l[1]);
        if self.polygon_type == QUADS {
            r.push(l[2]);
            r.push(l[3]);
        } else if self.polygon_type == QUAD_STRIP {
            r.push(l[3]);
            r.push(l[2]);
        } else {
            r.push(l[2]);
        }
        assert(r@ =~= self.ring());
        r
    }

    /// Takes a complete polygon from the vertex list.
    pub fn take_polygon(&mut self)
        ensures
            *final(self) == old(self).after_polygon(),
    {
        if self.polygon_type == TRIANGLE_STRIP {
            self.vertex_list[0] = self.vertex_list[1];
            self.vertex_list[1] = self.vertex_list[2];
            self.vertex_list_count = 2;
        } else if self.polygon_type == QUAD_STRIP {
            self.vertex_list[0] = self.vertex_list[2];
            self.vertex_list[1] = self.vertex_list[3];
            self.vertex_list_count = 2;
        } else {
            self.vertex_list_count = 0;
        }
    }
}

} // verus!
