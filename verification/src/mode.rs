use vstd::prelude::*;

verus! {

/// The shader program a batch is drawn with.
#[derive(Clone, Copy, PartialEq, Eq, Structural, Debug)]
pub enum GlRenderMode {
    /// No program has been selected yet. Nothing can be drawn in this mode.
    NoMode,
    /// Textured cells, drawn as instanced quads.
    PixCells,
}

impl GlRenderMode {
    /// Whether instances can be drawn in this mode.
    pub open spec fn drawable(self) -> bool {
        self != GlRenderMode::NoMode
    }

    /// The place of the mode's program in the list of shaders.
    pub open spec fn shader_slot(self) -> Option<nat> {
        match self {
            GlRenderMode::NoMode => None,
            GlRenderMode::PixCells => Some(0nat),
        }
    }

    pub fn is_drawable(self) -> (yes: bool)
        ensures
            yes == self.drawable(),
    {
        match self {
            GlRenderMode::NoMode => false,
            GlRenderMode::PixCells => true,
        }
    }

    /// The place of the mode's program in the list of shaders, if it has one.
    pub fn shader_index(self) -> (slot: Option<usize>)
        ensures
            slot.is_some() == self.drawable(),
            slot.is_some() == self.shader_slot().is_some(),
            slot.is_some() ==> slot.unwrap() == self.shader_slot().unwrap(),
    {
        match self {
            GlRenderMode::NoMode => None,
            GlRenderMode::PixCells => Some(0),
        }
    }
}

} // verus!
