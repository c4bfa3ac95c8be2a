use vstd::prelude::*;
use crate::batch::{BatchView, InstanceBatcher};
use crate::color::GlColor;
use crate::command::{emit, lemma_trace_empty, trace, Command, GlCommand};
use crate::layout::{
    quad_attribute, quad_corners, quad_vertex_attribute, record_attribute, record_attributes,
    unit_quad, RECORD_ATTRIBUTES,
};
use crate::mode::GlRenderMode;
use crate::scalar::{
    scalar_from_i32, scalar_from_u32, scalar_of_int, scalar_of_nat, SCALAR_MINUS_ONE, SCALAR_ONE,
    SCALAR_ZERO,
};
use crate::shader::{ShaderSet, UNIFORM_BINDING};
use crate::texture::TextureAtlasBinder;
use crate::transform::{GlTransform, StackView, TransformStack};
use crate::uniform::{UniformBlock, UNIFORM_SCALARS};

verus! {

/// How many scalars a new renderer has room for.
pub const INITIAL_CAPACITY: usize = 1024;

/// The transform at the bottom of every stack. It turns canvas rows, which
/// count downwards from the top, into heights above the bottom edge:
/// `(x, y)` goes to `(x, height - y)`.
pub open spec fn base_transform(height: int) -> GlTransform {
    GlTransform {
        m00: SCALAR_ONE,
        m10: SCALAR_ZERO,
        m20: SCALAR_ZERO,
        m01: SCALAR_ZERO,
        m11: SCALAR_MINUS_ONE,
        m21: scalar_of_int(height) as u32,
    }
}

/// A canvas measure as the renderer keeps it: a negative one is kept as
/// the unsigned number with the same 32 bits.
pub open spec fn canvas_measure(v: int) -> u32 {
    if v < 0 {
        (v + 0x1_0000_0000) as u32
    } else {
        v as u32
    }
}

/// The state of a [`GlPix`].
pub struct PixView {
    pub canvas_width: u32,
    pub canvas_height: u32,
    /// The transforms in force, and whether the uniform block is stale.
    pub stack: StackView,
    /// The uniform block as it was last uploaded, but for the colour filter,
    /// which may have been set since.
    pub uniforms: UniformBlock,
    /// The mode whose program is active.
    pub render_mode: GlRenderMode,
    /// The texture atlas that is bound.
    pub texture: Option<u32>,
    pub clear_color: GlColor,
    /// The instances that wait for the next flush.
    pub batch: BatchView,
}

impl PixView {
    /// What holds of every state: the transform stack holds its base, the
    /// batch is well-formed, and while the stack is clean the uniform
    /// block shows its top and the canvas.
    pub open spec fn wf(self) -> bool {
        &&& self.stack.transforms.len() >= 1
        &&& self.batch.wf()
        &&& !self.stack.dirty ==> self.uniforms == self.fresh_uniforms()
    }

    /// A renderer for a canvas of the given size, before its first call.
    pub open spec fn initial(width: int, height: int) -> PixView {
        PixView {
            canvas_width: canvas_measure(width),
            canvas_height: canvas_measure(height),
            stack: StackView { transforms: seq![base_transform(height)], dirty: true },
            uniforms: UniformBlock {
                transform: GlTransform {
                    m00: SCALAR_ZERO,
                    m10: SCALAR_ZERO,
                    m20: SCALAR_ZERO,
                    m01: SCALAR_ZERO,
                    m11: SCALAR_ZERO,
                    m21: SCALAR_ZERO,
                },
                canvas_width: SCALAR_ZERO,
                canvas_height: SCALAR_ZERO,
                color_filter: GlColor {
                    r: SCALAR_ONE,
                    g: SCALAR_ONE,
                    b: SCALAR_ONE,
                    a: SCALAR_ONE,
                },
            },
            render_mode: GlRenderMode::NoMode,
            texture: None,
            clear_color: GlColor { r: SCALAR_ONE, g: SCALAR_ONE, b: SCALAR_ONE, a: SCALAR_ZERO },
            batch: BatchView {
                capacity: INITIAL_CAPACITY as nat,
                written: Seq::empty(),
                instance_count: 0,
                pending: 0,
            },
        }
    }

    /// What the GPU must do before the first draw: make room for the
    /// instances and the uniforms, load the quad, learn where the parts of
    /// a vertex and of a record lie, and blend.
    pub open spec fn setup_commands(self) -> Seq<Command> {
        seq![
            Command::ResizeInstanceStorage { capacity: self.batch.capacity },
            Command::LoadQuad { corners: unit_quad() },
            Command::AllocateUniforms { room: UNIFORM_SCALARS as nat, binding: UNIFORM_BINDING },
            Command::DescribeQuad { attribute: quad_attribute() },
        ] + Seq::new(
            RECORD_ATTRIBUTES as nat,
            |i: int| Command::DescribeInstances { attribute: record_attribute(i) },
        ).push(Command::EnableBlending)
    }

    /// The state after a flush: the batch is empty, all else is as it was.
    pub open spec fn flushed(self) -> PixView {
        PixView { batch: self.batch.flushed(), ..self }
    }

    /// What a flush asks of the GPU.
    pub open spec fn flush_commands(self) -> Seq<Command> {
        self.batch.flush_commands()
    }

    /// The uniform block that shows the top of the stack and the canvas.
    pub open spec fn fresh_uniforms(self) -> UniformBlock {
        self.uniforms.refreshed(
            self.stack.top(),
            scalar_of_nat(self.canvas_width as nat) as u32,
            scalar_of_nat(self.canvas_height as nat) as u32,
        )
    }

    /// The state once the uniform block is up to date: where the stack was
    /// dirty, the batch has been flushed and the block shows the top.
    pub open spec fn synced(self) -> PixView {
        if self.stack.dirty {
            PixView {
                batch: self.batch.flushed(),
                uniforms: self.fresh_uniforms(),
                stack: self.stack.cleaned(),
                ..self
            }
        } else {
            self
        }
    }

    /// What bringing the uniform block up to date asks of the GPU: nothing
    /// while the stack is clean, else a flush and then the new block.
    pub open spec fn sync_commands(self) -> Seq<Command> {
        if self.stack.dirty {
            self.flush_commands().push(Command::UploadUniforms { block: self.fresh_uniforms() })
        } else {
            Seq::empty()
        }
    }

    /// The state once `mode` is the active one: where it was not, the batch
    /// has been flushed.
    pub open spec fn switched(self, mode: GlRenderMode) -> PixView {
        if self.render_mode != mode {
            PixView { batch: self.batch.flushed(), render_mode: mode, ..self }
        } else {
            self
        }
    }

    /// What making `mode` the active one asks of the GPU: nothing if it is
    /// active, else a flush and then the change of program.
    pub open spec fn switch_commands(self, mode: GlRenderMode) -> Seq<Command> {
        if self.render_mode != mode {
            self.flush_commands().push(Command::UseShader { mode })
        } else {
            Seq::empty()
        }
    }

    /// The state once a record of `size` scalars has been opened.
    pub open spec fn reserved(self, size: nat) -> PixView {
        PixView { batch: self.batch.reserved(size), ..self }
    }

    /// What opening a record of `size` scalars asks of the GPU: more room,
    /// if the record does not fit, and never a flush.
    pub open spec fn reserve_commands(self, size: nat) -> Seq<Command> {
        if self.batch.capacity_for(size) != self.batch.capacity {
            seq![Command::ResizeInstanceStorage { capacity: self.batch.capacity_for(size) }]
        } else {
            Seq::empty()
        }
    }

    /// The state after `prepare_draw`.
    pub open spec fn prepared(self, mode: GlRenderMode, size: nat) -> PixView {
        self.synced().switched(mode).reserved(size)
    }

    /// What `prepare_draw` asks of the GPU.
    pub open spec fn prepare_commands(self, mode: GlRenderMode, size: nat) -> Seq<Command> {
        self.sync_commands() + self.synced().switch_commands(mode)
            + self.synced().switched(mode).reserve_commands(size)
    }

    /// Whether the counters of `prepare_draw` stay within the machine's
    /// numbers: the count of instances and the capacity after growth.
    pub open spec fn can_prepare(self, mode: GlRenderMode, size: nat) -> bool {
        let batch = self.synced().switched(mode).batch;
        &&& batch.instance_count < usize::MAX
        &&& batch.capacity_for(size) <= usize::MAX
    }

    /// The state once `value` has been written to the open record.
    pub open spec fn wrote(self, value: u32) -> PixView {
        PixView { batch: self.batch.wrote(value), ..self }
    }

    /// The state after `bind_texture_atlas`.
    pub open spec fn rebound(self, texture: u32) -> PixView {
        if self.texture == Some(texture) {
            self
        } else {
            PixView { batch: self.batch.flushed(), texture: Some(texture), ..self }
        }
    }

    /// What `bind_texture_atlas` asks of the GPU: nothing for the texture
    /// that is bound, else a flush and then the binding.
    pub open spec fn rebind_commands(self, texture: u32) -> Seq<Command> {
        if self.texture == Some(texture) {
            Seq::empty()
        } else {
            self.flush_commands().push(Command::BindTexture { texture })
        }
    }

    /// What `clear` asks of the GPU: a flush, then a clear with the clear
    /// colour under the colour filter.
    pub open spec fn clear_commands(self) -> Seq<Command> {
        self.flush_commands().push(
            Command::Clear { color: self.clear_color, filter: self.uniforms.color_filter },
        )
    }

    /// What `bind` asks of the GPU.
    pub open spec fn bind_commands(self) -> Seq<Command> {
        seq![Command::BindTarget { width: self.canvas_width, height: self.canvas_height }]
    }

    /// The state after `push_transform`.
    pub open spec fn pushed(self, composed: GlTransform) -> PixView {
        PixView { stack: self.stack.pushed(composed), ..self }
    }

    /// The state after `pop_transform`.
    pub open spec fn popped(self) -> PixView {
        PixView { stack: self.stack.popped(), ..self }
    }
}

/// The renderer: it owns the transform stack, the uniform block, the batch of
/// instances and the record of what is bound, and decides when the batch
/// must be flushed.
pub struct GlPix {
    transform_stack: TransformStack,
    batch: InstanceBatcher,
    shaders: ShaderSet,
    ubo_contents: UniformBlock,
    current_texture_atlas: TextureAtlasBinder,
    canvas_width: u32,
    canvas_height: u32,
    clear_color: GlColor,
}

impl View for GlPix {
    type V = PixView;

    closed spec fn view(&self) -> PixView {
        PixView {
            canvas_width: self.canvas_width,
            canvas_height: self.canvas_height,
            stack: self.transform_stack@,
            uniforms: self.ubo_contents,
            render_mode: self.shaders.active(),
            texture: self.current_texture_atlas.bound(),
            clear_color: self.clear_color,
            batch: self.batch@,
        }
    }
}

impl GlPix {
    /// What every call keeps: see [`PixView::wf`].
    pub closed spec fn wf(&self) -> bool {
        &&& self.transform_stack.wf()
        &&& self.batch.wf()
        &&& !self@.stack.dirty ==> self@.uniforms == self@.fresh_uniforms()
    }

    /// A well-formed renderer is in a well-formed state, with counters that
    /// the machine can hold.
    pub proof fn lemma_view_wf(&self)
        requires
            self.wf(),
        ensures
            self@.wf(),
            self@.batch.capacity <= usize::MAX,
            self@.batch.instance_count <= usize::MAX,
    {
        self.transform_stack.lemma_never_empty();
        self.batch.lemma_view_wf();
    }

    /// A renderer for a canvas of the given size: the base transform alone
    /// on a dirty stack, room for [`INITIAL_CAPACITY`] scalars, no mode, no
    /// texture.
    pub fn new(canvas_width: i32, canvas_height: i32) -> (pix: GlPix)
        ensures
            pix.wf(),
            pix@ == PixView::initial(canvas_width as int, canvas_height as int),
    {
        let base = GlTransform::new_with_values(
            SCALAR_ONE,
            SCALAR_ZERO,
            SCALAR_ZERO,
            SCALAR_ZERO,
            SCALAR_MINUS_ONE,
            scalar_from_i32(canvas_height),
        );
        let nothing = GlTransform::new_with_values(
            SCALAR_ZERO,
            SCALAR_ZERO,
            SCALAR_ZERO,
            SCALAR_ZERO,
            SCALAR_ZERO,
            SCALAR_ZERO,
        );
        GlPix {
            transform_stack: TransformStack::new(base),
            batch: InstanceBatcher::new(INITIAL_CAPACITY),
            shaders: ShaderSet::new(),
            ubo_contents: UniformBlock::new(
                nothing,
                SCALAR_ZERO,
                SCALAR_ZERO,
                GlColor::new(SCALAR_ONE, SCALAR_ONE, SCALAR_ONE, SCALAR_ONE),
            ),
            current_texture_atlas: TextureAtlasBinder::new(),
            canvas_width: measure(canvas_width),
            canvas_height: measure(canvas_height),
            clear_color: GlColor::new(SCALAR_ONE, SCALAR_ONE, SCALAR_ONE, SCALAR_ZERO),
        }
    }

    /// What the GPU must do once, before the first draw. The renderer stays
    /// as it is.
    pub fn setup(&self) -> (commands: Vec<GlCommand>)
        ensures
            trace(commands@) == self@.setup_commands(),
    {
        let mut commands: Vec<GlCommand> = Vec::new();
        proof {
            lemma_trace_empty();
        }
        emit(&mut commands, GlCommand::ResizeInstanceStorage { capacity: self.batch.capacity() });
        emit(&mut commands, GlCommand::LoadQuad { corners: quad_corners() });
        emit(
            &mut commands,
            GlCommand::AllocateUniforms { room: UNIFORM_SCALARS, binding: UNIFORM_BINDING },
        );
        emit(&mut commands, GlCommand::DescribeQuad { attribute: quad_vertex_attribute() });
        let ghost head = trace(commands@);
        let attributes = record_attributes();
        let mut i: usize = 0;
        while i < attributes.len()
            invariant
                i <= attributes@.len(),
                attributes@.len() == RECORD_ATTRIBUTES,
                attributes@ == Seq::new(RECORD_ATTRIBUTES as nat, |k: int| record_attribute(k)),
                trace(commands@) == head + Seq::new(
                    i as nat,
                    |k: int| Command::DescribeInstances { attribute: record_attribute(k) },
                ),
            decreases attributes@.len() - i,
        {
            emit(&mut commands, GlCommand::DescribeInstances { attribute: attributes[i] });
            i = i + 1;
            assert(trace(commands@) =~= head + Seq::new(
                i as nat,
                |k: int| Command::DescribeInstances { attribute: record_attribute(k) },
            ));
        }
        emit(&mut commands, GlCommand::EnableBlending);
        assert(trace(commands@) =~= self@.setup_commands());
        commands
    }

    /// Opens a record of `size` scalars in mode `mode`, to be filled by
    /// `size` calls of [`GlPix::write`].
    ///
    /// First the uniform block is brought up to date, then `mode` is made
    /// the active mode; either flushes the batch if it changes anything.
    /// Then the capacity is doubled until the record fits, which flushes
    /// nothing and keeps what was written. The commands say what the GPU
    /// must do, in order, before the record is drawn.
    pub fn prepare_draw(&mut self, mode: GlRenderMode, size: usize) -> (commands: Vec<GlCommand>)
        requires
            old(self).wf(),
            mode.drawable(),
            old(self)@.batch.pending == 0,
            old(self)@.can_prepare(mode, size as nat),
        ensures
            final(self).wf(),
            final(self)@ == old(self)@.prepared(mode, size as nat),
            trace(commands@) == old(self)@.prepare_commands(mode, size as nat),
            final(self)@.render_mode == mode,
            !final(self)@.stack.dirty,
            final(self)@.batch.pending == size,
            final(self)@.batch.written.len() + size <= final(self)@.batch.capacity,
    {
        let mut commands: Vec<GlCommand> = Vec::new();
        proof {
            lemma_trace_empty();
        }
        self.sync_into(&mut commands);
        assert(trace(commands@) =~= old(self)@.sync_commands());
        let ghost synced = self@;
        let ghost sync_trace = trace(commands@);
        if !self.shaders.is_active(mode) {
            self.batch.flush_into(&mut commands);
            self.shaders.bind(mode, &mut commands);
        }
        assert(self@ == synced.switched(mode));
        assert(trace(commands@) =~= sync_trace + synced.switch_commands(mode));
        let ghost switched = self@;
        let ghost switch_trace = trace(commands@);
        let grew = self.batch.reserve(size);
        if grew {
            emit(&mut commands, GlCommand::ResizeInstanceStorage { capacity: self.batch.capacity() });
        }
        assert(trace(commands@) =~= switch_trace + switched.reserve_commands(size as nat));
        proof {
            self.batch.lemma_view_wf();
        }
        commands
    }

    /// Whether `prepare_draw` can be called with `mode` and `size`: the mode
    /// is drawable, no record is open, and the counters stay within the
    /// machine's numbers.
    pub fn can_prepare_draw(&self, mode: GlRenderMode, size: usize) -> (ok: bool)
        requires
            self.wf(),
        ensures
            ok == (mode.drawable() && self@.batch.pending == 0 && self@.can_prepare(
                mode,
                size as nat,
            )),
    {
        if !mode.is_drawable() || self.batch.pending() != 0 {
            return false;
        }
        let flushes = self.transform_stack.is_dirty() || !self.shaders.is_active(mode);
        proof {
            self.batch.lemma_view_wf();
            assert(self@.synced().switched(mode).batch == if flushes {
                self@.batch.flushed()
            } else {
                self@.batch
            });
            assert(self@.batch.flushed().written.len() == 0);
        }
        if flushes {
            self.batch.has_room_after_flush(size)
        } else {
            self.batch.instance_count() < usize::MAX && self.batch.has_room(size)
        }
    }

    /// Brings the uniform block up to date if the transform stack is dirty:
    /// the batch is flushed, so that nothing queued under the old transform
    /// is drawn under the new one; the block takes the top of the stack and
    /// the canvas size and is uploaded; the stack is marked clean. On a
    /// clean stack nothing happens.
    pub fn sync_if_dirty(&mut self) -> (commands: Vec<GlCommand>)
        requires
            old(self).wf(),
            old(self)@.stack.dirty ==> old(self)@.batch.pending == 0,
        ensures
            final(self).wf(),
            final(self)@ == old(self)@.synced(),
            trace(commands@) == old(self)@.sync_commands(),
            !final(self)@.stack.dirty,
    {
        let mut commands: Vec<GlCommand> = Vec::new();
        proof {
            lemma_trace_empty();
        }
        self.sync_into(&mut commands);
        assert(trace(commands@) =~= old(self)@.sync_commands());
        commands
    }

    fn sync_into(&mut self, out: &mut Vec<GlCommand>)
        requires
            old(self).wf(),
            old(self)@.stack.dirty ==> old(self)@.batch.pending == 0,
        ensures
            final(self).wf(),
            final(self)@ == old(self)@.synced(),
            trace(final(out)@) == trace(old(out)@) + old(self)@.sync_commands(),
    {
        if self.transform_stack.is_dirty() {
            self.batch.flush_into(out);
            self.send_uniform_buffer(out);
            assert(trace(out@) =~= trace(old(out)@) + old(self)@.sync_commands());
        } else {
            assert(trace(out@) =~= trace(old(out)@) + old(self)@.sync_commands());
        }
    }

    /// Brings the uniform block up to date with the top of the stack and
    /// the canvas, has it uploaded, and marks the stack clean.
    fn send_uniform_buffer(&mut self, out: &mut Vec<GlCommand>)
        requires
            old(self).wf(),
        ensures
            final(self).wf(),
            final(self)@ == (PixView {
                uniforms: old(self)@.fresh_uniforms(),
                stack: old(self)@.stack.cleaned(),
                ..old(self)@
            }),
            trace(final(out)@) == trace(old(out)@).push(
                Command::UploadUniforms { block: old(self)@.fresh_uniforms() },
            ),
    {
        let transform = self.transform_stack.top();
        self.ubo_contents = UniformBlock::new(
            transform,
            scalar_from_u32(self.canvas_width),
            scalar_from_u32(self.canvas_height),
            self.ubo_contents.color_filter,
        );
        emit(out, GlCommand::UploadUniforms { block: self.ubo_contents });
        self.transform_stack.mark_clean();
    }

    /// Writes the next scalar of the open record.
    pub fn write(&mut self, value: u32)
        requires
            old(self).wf(),
            old(self)@.batch.pending > 0,
        ensures
            final(self).wf(),
            final(self)@ == old(self)@.wrote(value),
    {
        self.batch.write(value);
    }

    /// Asks for the default render target, with the viewport set to the
    /// canvas. The renderer stays as it is.
    pub fn bind(&mut self) -> (commands: Vec<GlCommand>)
        ensures
            *final(self) == *old(self),
            trace(commands@) == old(self)@.bind_commands(),
    {
        let mut commands: Vec<GlCommand> = Vec::new();
        proof {
            lemma_trace_empty();
        }
        emit(
            &mut commands,
            GlCommand::BindTarget { width: self.canvas_width, height: self.canvas_height },
        );
        assert(trace(commands@) =~= self@.bind_commands());
        commands
    }

    /// Flushes the batch, then asks for a clear with the clear colour under
    /// the colour filter.
    pub fn clear(&mut self) -> (commands: Vec<GlCommand>)
        requires
            old(self).wf(),
            old(self)@.batch.pending == 0,
        ensures
            final(self).wf(),
            final(self)@ == old(self)@.flushed(),
            trace(commands@) == old(self)@.clear_commands(),
    {
        let mut commands: Vec<GlCommand> = Vec::new();
        proof {
            lemma_trace_empty();
        }
        self.batch.flush_into(&mut commands);
        emit(
            &mut commands,
            GlCommand::Clear { color: self.clear_color, filter: self.ubo_contents.color_filter },
        );
        assert(trace(commands@) =~= old(self)@.clear_commands());
        commands
    }

    /// Hands the batch to the GPU and empties it. Of an empty batch nothing
    /// is asked. The capacity stays as it is.
    pub fn flush(&mut self) -> (commands: Vec<GlCommand>)
        requires
            old(self).wf(),
            old(self)@.batch.pending == 0,
        ensures
            final(self).wf(),
            final(self)@ == old(self)@.flushed(),
            final(self)@.batch.instance_count == 0,
            final(self)@.batch.cursor().is_none(),
            trace(commands@) == old(self)@.flush_commands(),
            old(self)@.batch.instance_count == 0 ==> commands@.len() == 0,
    {
        let mut commands: Vec<GlCommand> = Vec::new();
        proof {
            lemma_trace_empty();
        }
        self.batch.flush_into(&mut commands);
        assert(trace(commands@) =~= old(self)@.flush_commands());
        commands
    }

    /// Binds `texture` as the atlas. For the texture that is bound nothing
    /// happens; for another the batch is flushed first.
    pub fn bind_texture_atlas(&mut self, texture: u32) -> (commands: Vec<GlCommand>)
        requires
            old(self).wf(),
            old(self)@.texture != Some(texture) ==> old(self)@.batch.pending == 0,
        ensures
            final(self).wf(),
            final(self)@ == old(self)@.rebound(texture),
            trace(commands@) == old(self)@.rebind_commands(texture),
            old(self)@.texture == Some(texture) ==> commands@.len() == 0 && final(self)@ == old(
                self,
            )@,
    {
        let mut commands: Vec<GlCommand> = Vec::new();
        proof {
            lemma_trace_empty();
        }
        if self.current_texture_atlas.holds(texture) {
            return commands;
        }
        self.batch.flush_into(&mut commands);
        emit(&mut commands, GlCommand::BindTexture { texture });
        self.current_texture_atlas.rebind(texture);
        assert(trace(commands@) =~= old(self)@.rebind_commands(texture));
        commands
    }

    /// Keeps `color` as the colour of the next clears. Nothing else changes.
    pub fn set_clear_color(&mut self, color: GlColor)
        ensures
            final(self).wf() == old(self).wf(),
            final(self)@ == (PixView { clear_color: color, ..old(self)@ }),
    {
        self.clear_color = color;
    }

    /// Keeps `filter` as the colour filter. It tints the clears from now on
    /// and the draws from the next upload of the uniform block on.
    pub fn set_color_filter(&mut self, filter: GlColor)
        ensures
            final(self).wf() == old(self).wf(),
            final(self)@ == (PixView {
                uniforms: UniformBlock { color_filter: filter, ..old(self)@.uniforms },
                ..old(self)@
            }),
    {
        self.ubo_contents.color_filter = filter;
    }

    /// Puts `composed` on the transform stack: the new transform already
    /// applied on the one in force. The stack is dirty afterwards.
    pub fn push_transform(&mut self, composed: GlTransform)
        requires
            old(self).wf(),
        ensures
            final(self).wf(),
            final(self)@ == old(self)@.pushed(composed),
    {
        self.transform_stack.push(composed);
    }

    /// Takes the top of the transform stack away. The stack is dirty
    /// afterwards. The base cannot be taken away.
    pub fn pop_transform(&mut self)
        requires
            old(self).wf(),
            old(self)@.stack.transforms.len() > 1,
        ensures
            final(self).wf(),
            final(self)@ == old(self)@.popped(),
    {
        self.transform_stack.pop();
    }

    /// The transform in force.
    pub fn top_transform(&self) -> (transform: GlTransform)
        requires
            self.wf(),
        ensures
            transform == self@.stack.top(),
    {
        self.transform_stack.top()
    }

    /// How many transforms the stack holds, the base included.
    pub fn transform_depth(&self) -> (depth: usize)
        ensures
            depth == self@.stack.transforms.len(),
    {
        self.transform_stack.depth()
    }

    pub fn transform_dirty(&self) -> (dirty: bool)
        ensures
            dirty == self@.stack.dirty,
    {
        self.transform_stack.is_dirty()
    }

    pub fn instance_count(&self) -> (count: usize)
        ensures
            count == self@.batch.instance_count,
    {
        self.batch.instance_count()
    }

    pub fn instance_buffer_capacity(&self) -> (capacity: usize)
        ensures
            capacity == self@.batch.capacity,
    {
        self.batch.capacity()
    }

    /// The highest index written to since the last flush, if any.
    pub fn instance_buffer_at(&self) -> (cursor: Option<usize>)
        requires
            self.wf(),
        ensures
            cursor.is_some() == self@.batch.cursor().is_some(),
            cursor.is_some() ==> cursor.unwrap() == self@.batch.cursor().unwrap(),
    {
        self.batch.write_cursor()
    }

    /// The scalars written since the last flush.
    pub fn instance_buffer(&self) -> (scalars: Vec<u32>)
        requires
            self.wf(),
        ensures
            scalars@ == self@.batch.written,
    {
        self.batch.written()
    }

    /// How many scalars of the open record are still to be written.
    pub fn pending(&self) -> (pending: usize)
        ensures
            pending == self@.batch.pending,
    {
        self.batch.pending()
    }

    pub fn render_mode(&self) -> (mode: GlRenderMode)
        ensures
            mode == self@.render_mode,
    {
        self.shaders.current()
    }

    pub fn current_texture_atlas(&self) -> (texture: Option<u32>)
        ensures
            texture == self@.texture,
    {
        self.current_texture_atlas.current()
    }

    pub fn ubo_contents(&self) -> (block: UniformBlock)
        ensures
            block == self@.uniforms,
    {
        self.ubo_contents
    }

    pub fn clear_color(&self) -> (color: GlColor)
        ensures
            color == self@.clear_color,
    {
        self.clear_color
    }

    pub fn canvas_width(&self) -> (width: u32)
        ensures
            width == self@.canvas_width,
    {
        self.canvas_width
    }

    pub fn canvas_height(&self) -> (height: u32)
        ensures
            height == self@.canvas_height,
    {
        self.canvas_height
    }
}

/// A canvas measure as the renderer keeps it.
fn measure(v: i32) -> (kept: u32)
    ensures
        kept == canvas_measure(v as int),
{
    if v < 0 {
        let wide: i64 = v as i64 + 0x1_0000_0000;
        wide as u32
    } else {
        v as u32
    }
}

} // verus!
