//! The four matrices of the geometry engine, their stacks, and the clip
//! matrix that follows from them.

use vstd::prelude::*;
use vstd::array::spec_array_update;
use crate::bits::{field, get_field};
use crate::matrix::{Mtx, ONE, row4};

verus! {

/// Matrix mode: commands act on the projection matrix.
pub const MODE_PROJECTION: u8 = 0;

/// Matrix mode: commands act on the position matrix.
pub const MODE_POSITION: u8 = 1;

/// Matrix mode: commands act on the position and the direction matrix.
pub const MODE_POSITION_DIRECTION: u8 = 2;

/// Matrix mode: commands act on the texture matrix.
pub const MODE_TEXTURE: u8 = 3;

/// The matrices, their stacks and the clip matrix.
#[derive(Debug, Clone, Copy)]
pub struct MatrixState {
    pub mtx_mode: u8,
    pub projection_mtx: Mtx,
    pub vector_mtx: Mtx,
    pub modelview_mtx: Mtx,
    pub texture_mtx: Mtx,
    pub projection_stack: Mtx,
    pub texture_stack: Mtx,
    pub modelview_stack: [Mtx; 32],
    pub vector_stack: [Mtx; 32],
    pub clip_mtx: Mtx,
    pub clip_dirty: bool,
    /// Depth of the position and direction stacks, which move together.
    pub modelview_sp: u8,
    pub projection_sp: u8,
    pub texture_sp: u8,
    /// The matrix that the word-by-word commands are filling.
    pub mult_params: Mtx,
    /// The lane of `mult_params` that the next word goes to.
    pub mult_params_index: u8,
}

impl MatrixState {
    /// The stack depths are within their capacities, and the clip matrix is
    /// either marked dirty or the product of the position and the
    /// projection matrix.
    pub open spec fn wf(self) -> bool {
        &&& self.mtx_mode < 4
        &&& self.modelview_sp <= 32
        &&& self.projection_sp <= 1
        &&& self.texture_sp <= 1
        &&& self.mult_params_index < 16
        &&& !self.clip_dirty ==> self.clip_mtx == self.modelview_mtx.times(self.projection_mtx)
    }

    /// The clip matrix as a read gives it: the position matrix followed by
    /// the projection matrix.
    pub open spec fn clip(self) -> Mtx {
        self.modelview_mtx.times(self.projection_mtx)
    }

    /// The depth of the stack that the current mode selects.
    pub open spec fn depth(self) -> int {
        if self.mtx_mode == MODE_PROJECTION {
            self.projection_sp as int
        } else if self.mtx_mode == MODE_TEXTURE {
            self.texture_sp as int
        } else {
            self.modelview_sp as int
        }
    }

    /// The capacity of the stack that the current mode selects.
    pub open spec fn capacity(self) -> int {
        if self.mtx_mode == MODE_PROJECTION || self.mtx_mode == MODE_TEXTURE {
            1
        } else {
            32
        }
    }

    /// The state after the matrix mode is set from a command word.
    pub open spec fn with_mode(self, word: u32) -> MatrixState {
        MatrixState { mtx_mode: field(word, 0, 3) as u8, ..self }
    }

    /// The state after `m` is loaded into the matrix that the mode
    /// selects; in position and direction mode into both.
    pub open spec fn loaded(self, m: Mtx) -> MatrixState {
        if self.mtx_mode == MODE_PROJECTION {
            MatrixState { projection_mtx: m, clip_dirty: true, ..self }
        } else if self.mtx_mode == MODE_POSITION {
            MatrixState { modelview_mtx: m, clip_dirty: true, ..self }
        } else if self.mtx_mode == MODE_POSITION_DIRECTION {
            MatrixState { modelview_mtx: m, vector_mtx: m, clip_dirty: true, ..self }
        } else {
            MatrixState { texture_mtx: m, ..self }
        }
    }

    /// The state after the matrix that the mode selects is multiplied by
    /// `m` from the left. In position and direction mode the direction
    /// matrix takes part only where `update_vector` holds.
    pub open spec fn multiplied(self, m: Mtx, update_vector: bool) -> MatrixState {
        if self.mtx_mode == MODE_PROJECTION {
            MatrixState { projection_mtx: m.times(self.projection_mtx), clip_dirty: true, ..self }
        } else if self.mtx_mode == MODE_POSITION {
            MatrixState { modelview_mtx: m.times(self.modelview_mtx), clip_dirty: true, ..self }
        } else if self.mtx_mode == MODE_POSITION_DIRECTION {
            MatrixState {
                modelview_mtx: m.times(self.modelview_mtx),
                vector_mtx: if update_vector {
                    m.times(self.vector_mtx)
                } else {
                    self.vector_mtx
                },
                clip_dirty: true,
                ..self
            }
        } else {
            MatrixState { texture_mtx: m.times(self.texture_mtx), ..self }
        }
    }

    /// A push would go past the capacity of the stack.
    pub open spec fn push_overflows(self) -> bool {
        self.depth() >= self.capacity()
    }

    /// The state after a push: the current matrix is stored at the top of
    /// its stack and the depth grows by one. On a full stack nothing
    /// changes.
    pub open spec fn pushed(self) -> MatrixState {
        if self.push_overflows() {
            self
        } else if self.mtx_mode == MODE_PROJECTION {
            MatrixState { projection_stack: self.projection_mtx, projection_sp: 1, ..self }
        } else if self.mtx_mode == MODE_TEXTURE {
            MatrixState { texture_stack: self.texture_mtx, texture_sp: 1, ..self }
        } else {
            MatrixState {
                modelview_stack: spec_array_update(
                    self.modelview_stack,
                    self.modelview_sp as int,
                    self.modelview_mtx,
                ),
                vector_stack: spec_array_update(
                    self.vector_stack,
                    self.modelview_sp as int,
                    self.vector_mtx,
                ),
                modelview_sp: (self.modelview_sp + 1) as u8,
                ..self
            }
        }
    }

    /// How many entries a pop with parameter `word` asks to remove: the low
    /// six bits of the word for the position and direction stacks, one for
    /// the two stacks of a single entry.
    pub open spec fn pop_count(self, word: u32) -> int {
        if self.mtx_mode == MODE_PROJECTION || self.mtx_mode == MODE_TEXTURE {
            1
        } else {
            field(word, 0, 0x3F) as int
        }
    }

    /// A pop asks for more entries than the stack holds.
    pub open spec fn pop_underflows(self, word: u32) -> bool {
        self.pop_count(word) > self.depth()
    }

    /// The depth after a pop: never below zero.
    pub open spec fn depth_after_pop(self, word: u32) -> int {
        if self.pop_underflows(word) {
            0
        } else {
            self.depth() - self.pop_count(word)
        }
    }

    /// The state after a pop: the depth shrinks, clamped at zero, the
    /// current matrix is read back from the new top of the stack, and the
    /// clip matrix is marked dirty. A pop of nothing from a full stack has
    /// no entry to read and keeps the current matrix.
    pub open spec fn popped(self, word: u32) -> MatrixState {
        let sp = self.depth_after_pop(word);
        if self.mtx_mode == MODE_PROJECTION {
            MatrixState {
                projection_mtx: self.projection_stack,
                projection_sp: 0,
                clip_dirty: true,
                ..self
            }
        } else if self.mtx_mode == MODE_TEXTURE {
            MatrixState { texture_mtx: self.texture_stack, texture_sp: 0, clip_dirty: true, ..self }
        } else if sp < 32 {
            MatrixState {
                modelview_mtx: self.modelview_stack[sp],
                vector_mtx: self.vector_stack[sp],
                modelview_sp: sp as u8,
                clip_dirty: true,
                ..self
            }
        } else {
            MatrixState { clip_dirty: true, ..self }
        }
    }

    /// The state after the clip matrix is brought up to date.
    pub open spec fn refreshed(self) -> MatrixState {
        MatrixState { clip_mtx: self.clip(), clip_dirty: false, ..self }
    }

    /// The state of an engine that was just made: every matrix and every
    /// stack entry is the unit matrix, the stacks are empty, and the clip
    /// matrix waits to be computed.
    pub open spec fn is_reset(self) -> bool {
        &&& self.mtx_mode == 0
        &&& self.modelview_sp == 0 && self.projection_sp == 0 && self.texture_sp == 0
        &&& self.projection_mtx == Mtx::identity()
        &&& self.modelview_mtx == Mtx::identity()
        &&& self.vector_mtx == Mtx::identity()
        &&& self.texture_mtx == Mtx::identity()
        &&& self.projection_stack == Mtx::identity()
        &&& self.texture_stack == Mtx::identity()
        &&& forall|k: int| 0 <= k < 32 ==> self.modelview_stack[k] == Mtx::identity()
        &&& forall|k: int| 0 <= k < 32 ==> self.vector_stack[k] == Mtx::identity()
        &&& self.clip_mtx == Mtx::identity()
        &&& self.clip_dirty
        &&& self.mult_params == Mtx::identity()
        &&& self.mult_params_index == 0
    }

    pub fn new() -> (r: MatrixState)
        ensures
            r.wf(),
            r.is_reset(),
    {
        let unit = Mtx::new_identity();
        MatrixState {
            mtx_mode: 0,
            projection_mtx: unit,
            vector_mtx: unit,
            modelview_mtx: unit,
            texture_mtx: unit,
            projection_stack: unit,
            texture_stack: unit,
            modelview_stack: [unit; 32],
            vector_stack: [unit; 32],
            clip_mtx: unit,
            clip_dirty: true,
            modelview_sp: 0,
            projection_sp: 0,
            texture_sp: 0,
            mult_params: unit,
            mult_params_index: 0,
        }
    }

    pub fn set_mode(&mut self, word: u32)
        requires
            old(self).wf(),
        ensures
            final(self).wf(),
            *final(self) == old(self).with_mode(word),
    {
        self.mtx_mode = get_field(word, 0, 3) as u8;
    }

    pub fn load(&mut self, m: &Mtx)
        requires
            old(self).wf(),
        ensures
            final(self).wf(),
            *final(self) == old(self).loaded(*m),
    {
        if self.mtx_mode == MODE_PROJECTION {
            self.projection_mtx = *m;
            self.clip_dirty = true;
        } else if self.mtx_mode == MODE_POSITION {
            self.modelview_mtx = *m;
            self.clip_dirty = true;
        } else if self.mtx_mode == MODE_POSITION_DIRECTION {
            self.modelview_mtx = *m;
            self.vector_mtx = *m;
            self.clip_dirty = true;
        } else {
            self.texture_mtx = *m;
        }
    }

    pub fn multiply(&mut self, m: &Mtx, update_vector: bool)
        requires
            old(self).wf(),
        ensures
            final(self).wf(),
            *final(self) == old(self).multiplied(*m, update_vector),
    {
        if self.mtx_mode == MODE_PROJECTION {
            self.projection_mtx = m.multiply(&self.projection_mtx);
            self.clip_dirty = true;
        } else if self.mtx_mode == MODE_POSITION {
            self.modelview_mtx = m.multiply(&self.modelview_mtx);
            self.clip_dirty = true;
        } else if self.mtx_mode == MODE_POSITION_DIRECTION {
            self.modelview_mtx = m.multiply(&self.modelview_mtx);
            if update_vector {
                self.vector_mtx = m.multiply(&self.vector_mtx);
            }
            self.clip_dirty = true;
        } else {
            self.texture_mtx = m.multiply(&self.texture_mtx);
        }
    }

    /// Pushes the current matrix; tells whether the stack was full.
    pub fn push(&mut self) -> (overflow: bool)
        requires
            old(self).wf(),
        ensures
            final(self).wf(),
            *final(self) == old(self).pushed(),
            overflow == old(self).push_overflows(),
    {
        if self.mtx_mode == MODE_PROJECTION {
            if self.projection_sp >= 1 {
                return true;
            }
            self.projection_stack = self.projection_mtx;
            self.projection_sp = 1;
        } else if self.mtx_mode == MODE_TEXTURE {
            if self.texture_sp >= 1 {
                return true;
            }
            self.texture_stack = self.texture_mtx;
            self.texture_sp = 1;
        } else {
            if self.modelview_sp >= 32 {
                return true;
            }
            self.modelview_stack[self.modelview_sp as usize] = self.modelview_mtx;
            self.vector_stack[self.modelview_sp as usize] = self.vector_mtx;
            self.modelview_sp = self.modelview_sp + 1;
        }
        false
    }

    /// Pops as the parameter word says; tells whether the stack held too
    /// few entries.
    pub fn pop(&mut self, word: u32) -> (underflow: bool)
        requires
            old(self).wf(),
        ensures
            final(self).wf(),
            *final(self) == old(self).popped(word),
            underflow == old(self).pop_underflows(word),
    {
        if self.mtx_mode == MODE_PROJECTION {
            let underflow = self.projection_sp < 1;
            self.projection_mtx = self.projection_stack;
            self.projection_sp = 0;
            self.clip_dirty = true;
            underflow
        } else if self.mtx_mode == MODE_TEXTURE {
            let underflow = self.texture_sp < 1;
            self.texture_mtx = self.texture_stack;
            self.texture_sp = 0;
            self.clip_dirty = true;
            underflow
        } else {
            let count = get_field(word, 0, 0x3F) as u8;
            let underflow = count > self.modelview_sp;
            let sp: u8 = if underflow {
                0
            } else {
                self.modelview_sp - count
            };
            if sp < 32 {
                self.modelview_mtx = self.modelview_stack[sp as usize];
                self.vector_mtx = self.vector_stack[sp as usize];
                self.modelview_sp = sp;
            }
            self.clip_dirty = true;
            underflow
        }
    }

    /// Brings the clip matrix up to date if it is marked dirty.
    pub fn update_clip(&mut self)
        requires
            old(self).wf(),
        ensures
            final(self).wf(),
            *final(self) == old(self).refreshed(),
    {
        if self.clip_dirty {
            self.clip_mtx = self.modelview_mtx.multiply(&self.projection_mtx);
            self.clip_dirty = false;
        }
    }
}

/// A push followed by a pop of one entry, on a stack that is not full,
/// brings back the matrices and the depth that were there before the push.
pub proof fn lemma_push_pop_restores(s: MatrixState)
    requires
        s.wf(),
        !s.push_overflows(),
    ensures
        s.pushed().depth() == s.depth() + 1,
        s.pushed().popped(1).depth() == s.depth(),
        s.pushed().popped(1).projection_mtx == s.projection_mtx,
        s.pushed().popped(1).modelview_mtx == s.modelview_mtx,
        s.pushed().popped(1).vector_mtx == s.vector_mtx,
        s.pushed().popped(1).texture_mtx == s.texture_mtx,
{
    assert(field(1, 0, 0x3F) == 1) by (bit_vector);
}

/// One step of a run of stack commands.
pub enum StackOp {
    /// Push the current matrix.
    Push,
    /// Pop as many entries as the low six bits of the word say.
    Pop(u32),
    /// Load a matrix into the current one.
    Load(Mtx),
}

impl MatrixState {
    /// The state after one stack command.
    pub open spec fn step(self, op: StackOp) -> MatrixState {
        match op {
            StackOp::Push => self.pushed(),
            StackOp::Pop(word) => self.popped(word),
            StackOp::Load(m) => self.loaded(m),
        }
    }

    /// The state after a run of stack commands.
    pub open spec fn run(self, ops: Seq<StackOp>) -> MatrixState
        decreases ops.len(),
    {
        if ops.len() == 0 {
            self
        } else {
            self.step(ops[0]).run(ops.subrange(1, ops.len() as int))
        }
    }

    /// During the run the depth of the stack never leaves the range from
    /// `floor` to the capacity: no push meets a full stack and no pop takes
    /// the depth below `floor`.
    pub open spec fn stays_within(self, ops: Seq<StackOp>, floor: int) -> bool
        decreases ops.len(),
    {
        if ops.len() == 0 {
            true
        } else {
            &&& match ops[0] {
                StackOp::Push => !self.push_overflows(),
                StackOp::Pop(word) => self.depth() - self.pop_count(word) >= floor,
                StackOp::Load(m) => true,
            }
            &&& self.step(ops[0]).stays_within(ops.subrange(1, ops.len() as int), floor)
        }
    }
}

/// How much a run of stack commands adds to the depth: one for each push,
/// less what each pop asks to remove.
pub open spec fn net_depth(mode: u8, ops: Seq<StackOp>) -> int
    decreases ops.len(),
{
    if ops.len() == 0 {
        0
    } else {
        (match ops[0] {
            StackOp::Push => 1int,
            StackOp::Pop(word) => if mode == MODE_PROJECTION || mode == MODE_TEXTURE {
                -1int
            } else {
                -(field(word, 0, 0x3F) as int)
            },
            StackOp::Load(m) => 0int,
        }) + net_depth(mode, ops.subrange(1, ops.len() as int))
    }
}

/// Stack discipline, the depth: after a run of pushes and pops that stays
/// within the stack, the depth has grown by the number of pushes less the
/// number of entries popped.
pub proof fn lemma_stack_depth(s: MatrixState, ops: Seq<StackOp>)
    requires
        s.wf(),
        s.stays_within(ops, 0),
    ensures
        s.run(ops).wf(),
        s.run(ops).mtx_mode == s.mtx_mode,
        s.run(ops).depth() == s.depth() + net_depth(s.mtx_mode, ops),
    decreases ops.len(),
{
    if ops.len() > 0 {
        let next = s.step(ops[0]);
        lemma_step_keeps_wf(s, ops[0]);
        lemma_stack_depth(next, ops.subrange(1, ops.len() as int));
    }
}

/// One stack command keeps the state well formed and the mode as it is.
pub proof fn lemma_step_keeps_wf(s: MatrixState, op: StackOp)
    requires
        s.wf(),
    ensures
        s.step(op).wf(),
        s.step(op).mtx_mode == s.mtx_mode,
{
    match op {
        StackOp::Pop(word) => {
            assert(field(word, 0, 0x3F) <= 0x3F) by (bit_vector);
        },
        _ => {},
    }
}

/// The entries of the selected stack below `floor` are the same in both
/// states.
pub open spec fn same_below(a: MatrixState, b: MatrixState, floor: int) -> bool {
    &&& floor >= 1 ==> a.projection_stack == b.projection_stack && a.texture_stack
        == b.texture_stack
    &&& forall|k: int|
        0 <= k < floor && k < 32 ==> a.modelview_stack[k] == b.modelview_stack[k]
            && a.vector_stack[k] == b.vector_stack[k]
}

/// A run that never takes the depth below `floor` leaves the stack entries
/// below `floor` as they were.
pub proof fn lemma_run_keeps_lower_entries(s: MatrixState, ops: Seq<StackOp>, floor: int)
    requires
        s.wf(),
        floor >= 0,
        s.depth() >= floor,
        s.stays_within(ops, floor),
    ensures
        same_below(s.run(ops), s, floor),
        s.run(ops).depth() >= floor,
        s.run(ops).wf(),
        s.run(ops).mtx_mode == s.mtx_mode,
    decreases ops.len(),
{
    if ops.len() > 0 {
        let next = s.step(ops[0]);
        lemma_step_keeps_wf(s, ops[0]);
        match ops[0] {
            StackOp::Pop(word) => {
                assert(field(word, 0, 0x3F) <= 0x3F) by (bit_vector);
            },
            _ => {},
        }
        assert(same_below(next, s, floor));
        lemma_run_keeps_lower_entries(next, ops.subrange(1, ops.len() as int), floor);
    }
}

/// Stack discipline, the contents: push, then any run of stack commands
/// that stays above the pushed entry and ends at the depth right after the
/// push, then a pop of one entry: the current matrix is again what it was
/// when it was pushed.
pub proof fn lemma_pop_returns_last_pushed(s: MatrixState, ops: Seq<StackOp>)
    requires
        s.wf(),
        !s.push_overflows(),
        s.pushed().stays_within(ops, s.depth() + 1),
        s.pushed().run(ops).depth() == s.depth() + 1,
    ensures
        s.pushed().run(ops).popped(1).depth() == s.depth(),
        s.mtx_mode == MODE_PROJECTION ==> s.pushed().run(ops).popped(1).projection_mtx
            == s.projection_mtx,
        s.mtx_mode == MODE_TEXTURE ==> s.pushed().run(ops).popped(1).texture_mtx == s.texture_mtx,
        s.mtx_mode == MODE_POSITION || s.mtx_mode == MODE_POSITION_DIRECTION ==> s.pushed().run(
            ops,
        ).popped(1).modelview_mtx == s.modelview_mtx && s.pushed().run(ops).popped(1).vector_mtx
            == s.vector_mtx,
{
    let p = s.pushed();
    lemma_step_keeps_wf(s, StackOp::Push);
    lemma_run_keeps_lower_entries(p, ops, s.depth() + 1);
    assert(field(1, 0, 0x3F) == 1) by (bit_vector);
    let e = p.run(ops);
    assert(same_below(e, p, s.depth() + 1));
    if s.mtx_mode == MODE_POSITION || s.mtx_mode == MODE_POSITION_DIRECTION {
        let k = s.depth();
        assert(e.modelview_stack[k] == p.modelview_stack[k]);
        assert(e.vector_stack[k] == p.vector_stack[k]);
    }
}


/// The matrix with lane `index`, counted row by row, set from a parameter
/// word.
pub open spec fn with_lane(m: Mtx, index: int, word: u32) -> Mtx {
    Mtx { m: spec_array_update(m.m, index / 4, spec_array_update(m.m[index / 4], index % 4, word as i32)) }
}

fn set_lane(m: &mut Mtx, index: u8, word: u32)
    requires
        index < 16,
    ensures
        *final(m) == with_lane(*old(m), index as int, word),
{
    let r = (index / 4) as usize;
    let c = (index % 4) as usize;
    let mut row = m.m[r];
    row[c] = word as i32;
    m.m[r] = row;
}

impl MatrixState {
    /// The matrix being filled and the next lane, after a word of a 4 by 4
    /// matrix is taken in.
    pub open spec fn gathered_4x4(self, word: u32) -> (Mtx, int) {
        (with_lane(self.mult_params, self.mult_params_index as int, word), self.mult_params_index + 1)
    }

    /// The matrix being filled and the next lane, after a word of a 4 by 3
    /// matrix is taken in: the fourth lane of each row is filled from the
    /// unit matrix.
    pub open spec fn gathered_4x3(self, word: u32) -> (Mtx, int) {
        let (m, next) = self.gathered_4x4(word);
        if next % 4 == 3 {
            (
                with_lane(
                    m,
                    next,
                    if next == 15 {
                        ONE as u32
                    } else {
                        0u32
                    },
                ),
                next + 1,
            )
        } else {
            (m, next)
        }
    }

    /// The matrix being filled and the next lane, after a word of a 3 by 3
    /// matrix is taken in: the fourth lane of each row and the whole fourth
    /// row are filled from the unit matrix.
    pub open spec fn gathered_3x3(self, word: u32) -> (Mtx, int) {
        let (m, next) = self.gathered_4x3(word);
        if next == 12 {
            (Mtx { m: spec_array_update(m.m, 3, row4(0, 0, 0, ONE)) }, 16)
        } else {
            (m, next)
        }
    }

    /// The state after a word-by-word multiplication has taken a word in:
    /// once the matrix is full, the current matrix is multiplied by it.
    pub open spec fn gathered(self, filled: (Mtx, int)) -> MatrixState {
        if filled.1 >= 16 {
            (MatrixState { mult_params: filled.0, mult_params_index: 0, ..self }).multiplied(
                filled.0,
                true,
            )
        } else {
            MatrixState { mult_params: filled.0, mult_params_index: filled.1 as u8, ..self }
        }
    }

    /// The translation being filled and the number of its words that have
    /// arrived, after one more is taken in. A translation starts from the
    /// unit matrix; a matrix half filled by another command is dropped.
    pub open spec fn gathered_trans(self, word: u32) -> (Mtx, int) {
        if self.mult_params_index == 0 || self.mult_params_index >= 3 {
            (with_lane(Mtx::identity(), 12, word), 1)
        } else {
            (
                with_lane(self.mult_params, 12 + self.mult_params_index, word),
                self.mult_params_index + 1,
            )
        }
    }

    /// The state after a word of a translation is taken in: with the third
    /// word the current matrix is multiplied by the translation.
    pub open spec fn translated(self, word: u32) -> MatrixState {
        let (m, next) = self.gathered_trans(word);
        if next >= 3 {
            (MatrixState { mult_params: m, mult_params_index: 0, ..self }).multiplied(m, true)
        } else {
            MatrixState { mult_params: m, mult_params_index: next as u8, ..self }
        }
    }

    fn fire(&mut self, m: Mtx, next: u8)
        requires
            old(self).wf(),
            next <= 16,
        ensures
            final(self).wf(),
            *final(self) == old(self).gathered((m, next as int)),
    {
        self.mult_params = m;
        if next >= 16 {
            self.mult_params_index = 0;
            self.multiply(&m, true);
        } else {
            self.mult_params_index = next;
        }
    }

    /// Takes in one word of a 4 by 4 matrix to multiply by.
    pub fn mult_word_4x4(&mut self, word: u32)
        requires
            old(self).wf(),
        ensures
            final(self).wf(),
            *final(self) == old(self).gathered(old(self).gathered_4x4(word)),
    {
        let mut m = self.mult_params;
        set_lane(&mut m, self.mult_params_index, word);
        let next = self.mult_params_index + 1;
        self.fire(m, next);
    }

    /// Takes in one word of a 4 by 3 matrix to multiply by.
    pub fn mult_word_4x3(&mut self, word: u32)
        requires
            old(self).wf(),
        ensures
            final(self).wf(),
            *final(self) == old(self).gathered(old(self).gathered_4x3(word)),
    {
        let mut m = self.mult_params;
        set_lane(&mut m, self.mult_params_index, word);
        let mut next = self.mult_params_index + 1;
        if next % 4 == 3 {
            set_lane(
                &mut m,
                next,
                if next == 15 {
                    ONE as u32
                } else {
                    0u32
                },
            );
            next = next + 1;
        }
        self.fire(m, next);
    }

    /// Takes in one word of a 3 by 3 matrix to multiply by.
    pub fn mult_word_3x3(&mut self, word: u32)
        requires
            old(self).wf(),
        ensures
            final(self).wf(),
            *final(self) == old(self).gathered(old(self).gathered_3x3(word)),
    {
        let mut m = self.mult_params;
        set_lane(&mut m, self.mult_params_index, word);
        let mut next = self.mult_params_index + 1;
        if next % 4 == 3 {
            set_lane(
                &mut m,
                next,
                if next == 15 {
                    ONE as u32
                } else {
                    0u32
                },
            );
            next = next + 1;
        }
        if next == 12 {
            m.m[3] = [0, 0, 0, ONE];
            assert(m.m[3] =~= row4(0, 0, 0, ONE));
            next = 16;
        }
        self.fire(m, next);
    }

    /// Takes in one word of a translation.
    pub fn trans_word(&mut self, word: u32)
        requires
            old(self).wf(),
        ensures
            final(self).wf(),
            *final(self) == old(self).translated(word),
    {
        let mut m: Mtx;
        let next: u8;
        if self.mult_params_index == 0 || self.mult_params_index >= 3 {
            m = Mtx::new_identity();
            set_lane(&mut m, 12, word);
            next = 1;
        } else {
            m = self.mult_params;
            set_lane(&mut m, 12 + self.mult_params_index, word);
            next = self.mult_params_index + 1;
        }
        self.mult_params = m;
        if next >= 3 {
            self.mult_params_index = 0;
            self.multiply(&m, true);
        } else {
            self.mult_params_index = next;
        }
    }
}

} // verus!
