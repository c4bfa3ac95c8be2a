use vstd::prelude::*;

verus! {

/// Remembers which texture atlas is bound, by the name the GPU gave it.
pub struct TextureAtlasBinder {
    current: Option<u32>,
}

impl TextureAtlasBinder {
    /// The texture that is bound, if any.
    pub closed spec fn bound(&self) -> Option<u32> {
        self.current
    }

    pub fn new() -> (binder: TextureAtlasBinder)
        ensures
            binder.bound().is_none(),
    {
        TextureAtlasBinder { current: None }
    }

    pub fn current(&self) -> (texture: Option<u32>)
        ensures
            texture == self.bound(),
    {
        self.current
    }

    /// Whether binding `texture` would change nothing.
    pub fn holds(&self, texture: u32) -> (same: bool)
        ensures
            same == (self.bound() == Some(texture)),
    {
        match self.current {
            Some(bound) => bound == texture,
            None => false,
        }
    }

    /// Takes `texture` as the bound one; says whether that is a change.
    pub fn rebind(&mut self, texture: u32) -> (changed: bool)
        ensures
            changed == (old(self).bound() != Some(texture)),
            final(self).bound() == Some(texture),
    {
        let changed = !self.holds(texture);
        self.current = Some(texture);
        changed
    }
}

} // verus!
