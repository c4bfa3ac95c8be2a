use vstd::prelude::*;
use crate::color::GlColor;
use crate::layout::VertexAttribute;
use crate::mode::GlRenderMode;
use crate::uniform::UniformBlock;

verus! {

/// One thing the owner of the graphics context is asked to do. The renderer
/// hands commands out in the order in which they must be carried out.
#[derive(Clone, Debug, PartialEq, Eq)]
pub enum GlCommand {
    /// Write the whole uniform block to the uniform buffer.
    UploadUniforms { block: UniformBlock },
    /// Make the program of `mode` the active one.
    UseShader { mode: GlRenderMode },
    /// Give the instance buffer on the GPU room for `capacity` scalars.
    ResizeInstanceStorage { capacity: usize },
    /// Copy `scalars` to the start of the instance buffer on the GPU.
    UploadInstances { scalars: Vec<u32> },
    /// Draw the quad `count` times, once for each uploaded record.
    DrawInstances { count: usize },
    /// Bind `texture` to the first texture unit.
    BindTexture { texture: u32 },
    /// Draw to the default target, with the viewport set to the canvas.
    BindTarget { width: u32, height: u32 },
    /// Clear the target with `color`, each channel multiplied by the same
    /// channel of `filter`.
    Clear { color: GlColor, filter: GlColor },
    /// Give the uniform buffer room for `room` scalars and attach it to
    /// the binding point `binding`.
    AllocateUniforms { room: usize, binding: u32 },
    /// Fill the quad's vertex buffer with `corners`, two scalars a corner.
    LoadQuad { corners: Vec<u32> },
    /// Read `attribute` from the quad's vertex buffer.
    DescribeQuad { attribute: VertexAttribute },
    /// Read `attribute` from the instance buffer.
    DescribeInstances { attribute: VertexAttribute },
    /// Blend what is drawn over what is there by its alpha, and test no
    /// depth.
    EnableBlending,
}

/// A [`GlCommand`] as contracts speak of it.
pub enum Command {
    UploadUniforms { block: UniformBlock },
    UseShader { mode: GlRenderMode },
    ResizeInstanceStorage { capacity: nat },
    UploadInstances { scalars: Seq<u32> },
    DrawInstances { count: nat },
    BindTexture { texture: u32 },
    BindTarget { width: u32, height: u32 },
    Clear { color: GlColor, filter: GlColor },
    AllocateUniforms { room: nat, binding: u32 },
    LoadQuad { corners: Seq<u32> },
    DescribeQuad { attribute: VertexAttribute },
    DescribeInstances { attribute: VertexAttribute },
    EnableBlending,
}

impl Command {
    /// Whether the command is part of a flush: an upload of instances or the
    /// draw call that follows it.
    pub open spec fn is_flush(self) -> bool {
        self is UploadInstances || self is DrawInstances
    }

    pub open spec fn is_draw(self) -> bool {
        self is DrawInstances
    }

    /// Whether the command changes what a draw call draws with: the
    /// program, the texture atlas or the uniform block.
    pub open spec fn changes_state(self) -> bool {
        self is UseShader || self is BindTexture || self is UploadUniforms
    }
}

impl View for GlCommand {
    type V = Command;

    open spec fn view(&self) -> Command {
        match *self {
            GlCommand::UploadUniforms { block } => Command::UploadUniforms { block },
            GlCommand::UseShader { mode } => Command::UseShader { mode },
            GlCommand::ResizeInstanceStorage { capacity } => Command::ResizeInstanceStorage {
                capacity: capacity as nat,
            },
            GlCommand::UploadInstances { scalars } => Command::UploadInstances { scalars: scalars@ },
            GlCommand::DrawInstances { count } => Command::DrawInstances { count: count as nat },
            GlCommand::BindTexture { texture } => Command::BindTexture { texture },
            GlCommand::BindTarget { width, height } => Command::BindTarget { width, height },
            GlCommand::Clear { color, filter } => Command::Clear { color, filter },
            GlCommand::AllocateUniforms { room, binding } => Command::AllocateUniforms {
                room: room as nat,
                binding,
            },
            GlCommand::LoadQuad { corners } => Command::LoadQuad { corners: corners@ },
            GlCommand::DescribeQuad { attribute } => Command::DescribeQuad { attribute },
            GlCommand::DescribeInstances { attribute } => Command::DescribeInstances { attribute },
            GlCommand::EnableBlending => Command::EnableBlending,
        }
    }
}

/// A list of commands as contracts speak of it.
pub open spec fn trace(commands: Seq<GlCommand>) -> Seq<Command> {
    Seq::new(commands.len(), |i: int| commands[i]@)
}

/// How many draw calls a list of commands holds.
pub open spec fn draw_calls(commands: Seq<Command>) -> nat
    decreases commands.len(),
{
    if commands.len() == 0 {
        0
    } else {
        draw_calls(commands.drop_last()) + if commands.last().is_draw() {
            1nat
        } else {
            0nat
        }
    }
}

/// Whether a list of commands holds no part of a flush.
pub open spec fn no_flush(commands: Seq<Command>) -> bool {
    forall|i: int| 0 <= i < commands.len() ==> !(#[trigger] commands[i]).is_flush()
}

/// Whether a list of commands changes what a draw call draws with.
pub open spec fn changes_state(commands: Seq<Command>) -> bool {
    exists|i: int| 0 <= i < commands.len() && (#[trigger] commands[i]).changes_state()
}

pub proof fn lemma_trace_push(commands: Seq<GlCommand>, command: GlCommand)
    ensures
        trace(commands.push(command)) == trace(commands).push(command@),
{
    assert(trace(commands.push(command)) =~= trace(commands).push(command@));
}

pub proof fn lemma_trace_empty()
    ensures
        trace(Seq::<GlCommand>::empty()) == Seq::<Command>::empty(),
{
    assert(trace(Seq::<GlCommand>::empty()) =~= Seq::<Command>::empty());
}

/// Appends `command` to `out`.
pub fn emit(out: &mut Vec<GlCommand>, command: GlCommand)
    ensures
        trace(final(out)@) == trace(old(out)@).push(command@),
{
    proof {
        lemma_trace_push(out@, command);
    }
    out.push(command);
}

} // verus!
