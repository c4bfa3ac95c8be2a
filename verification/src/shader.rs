use vstd::prelude::*;
use crate::command::{emit, trace, Command, GlCommand};
use crate::mode::GlRenderMode;

verus! {

/// The texture unit that every program samples the atlas from.
pub const SAMPLER_UNIT: u32 = 0;

/// The binding point at which every program finds the uniform block.
pub const UNIFORM_BINDING: u32 = 0;

/// How many programs there are: one for each drawable mode.
pub const SHADER_COUNT: usize = 1;

/// Remembers which mode's program is active. The programs themselves live
/// on the GPU, one for each drawable mode, at the place that
/// [`GlRenderMode::shader_index`] gives.
pub struct ShaderSet {
    current: GlRenderMode,
}

impl ShaderSet {
    /// The mode whose program is active.
    pub closed spec fn active(&self) -> GlRenderMode {
        self.current
    }

    /// A set with no program active.
    pub fn new() -> (set: ShaderSet)
        ensures
            set.active() == GlRenderMode::NoMode,
    {
        ShaderSet { current: GlRenderMode::NoMode }
    }

    pub fn current(&self) -> (mode: GlRenderMode)
        ensures
            mode == self.active(),
    {
        self.current
    }

    /// Whether the program of `mode` is the active one.
    pub fn is_active(&self, mode: GlRenderMode) -> (yes: bool)
        ensures
            yes == (self.active() == mode),
    {
        self.current == mode
    }

    /// Makes the program of `mode` the active one. Only the renderer does
    /// this, and only where a batch ends.
    pub(crate) fn bind(&mut self, mode: GlRenderMode, out: &mut Vec<GlCommand>)
        requires
            mode.drawable(),
        ensures
            final(self).active() == mode,
            trace(final(out)@) == trace(old(out)@).push(Command::UseShader { mode }),
    {
        self.current = mode;
        emit(out, GlCommand::UseShader { mode });
    }
}

/// Every drawable mode has a program of its own among the programs.
pub proof fn lemma_every_mode_has_a_program(mode: GlRenderMode)
    ensures
        mode.drawable() <==> mode.shader_slot().is_some(),
        mode.drawable() ==> mode.shader_slot().unwrap() < SHADER_COUNT,
{
}

} // verus!
