use vstd::prelude::*;

verus! {

/// A 2D affine transform: the two rows of a 2x3 matrix, each entry the bits of
/// a single-precision number.
///
/// A point `(x, y)` goes to `(m00*x + m10*y + m20, m01*x + m11*y + m21)`.
#[derive(Clone, Copy, PartialEq, Eq, Structural, Debug)]
pub struct GlTransform {
    pub m00: u32,
    pub m10: u32,
    pub m20: u32,
    pub m01: u32,
    pub m11: u32,
    pub m21: u32,
}

impl GlTransform {
    pub fn new_with_values(m00: u32, m10: u32, m20: u32, m01: u32, m11: u32, m21: u32) -> (t:
        GlTransform)
        ensures
            t == (GlTransform { m00, m10, m20, m01, m11, m21 }),
    {
        GlTransform { m00, m10, m20, m01, m11, m21 }
    }
}

/// What a [`TransformStack`] holds: its transforms from the base upwards, and
/// whether the top has changed since the uniform block was last written.
pub struct StackView {
    pub transforms: Seq<GlTransform>,
    pub dirty: bool,
}

impl StackView {
    /// The transform in force.
    pub open spec fn top(self) -> GlTransform
        recommends
            self.transforms.len() > 0,
    {
        self.transforms.last()
    }

    /// The stack with `transform` on top, dirty.
    pub open spec fn pushed(self, transform: GlTransform) -> StackView {
        StackView { transforms: self.transforms.push(transform), dirty: true }
    }

    /// The stack without its top, dirty.
    pub open spec fn popped(self) -> StackView
        recommends
            self.transforms.len() > 1,
    {
        StackView { transforms: self.transforms.drop_last(), dirty: true }
    }

    /// The stack, clean.
    pub open spec fn cleaned(self) -> StackView {
        StackView { transforms: self.transforms, dirty: false }
    }
}

/// A stack of composed transforms over a base that is never removed.
pub struct TransformStack {
    transforms: Vec<GlTransform>,
    dirty: bool,
}

impl View for TransformStack {
    type V = StackView;

    closed spec fn view(&self) -> StackView {
        StackView { transforms: self.transforms@, dirty: self.dirty }
    }
}

impl TransformStack {
    /// The stack always holds its base.
    pub closed spec fn wf(&self) -> bool {
        self.transforms@.len() >= 1
    }

    /// A well-formed stack holds at least its base.
    pub proof fn lemma_never_empty(&self)
        requires
            self.wf(),
        ensures
            self@.transforms.len() >= 1,
    {
    }

    /// A stack that holds `base` alone. It starts dirty: nothing has been
    /// written to the uniform block yet.
    pub fn new(base: GlTransform) -> (stack: TransformStack)
        ensures
            stack.wf(),
            stack@ == (StackView { transforms: seq![base], dirty: true }),
    {
        let mut transforms: Vec<GlTransform> = Vec::new();
        transforms.push(base);
        assert(transforms@ =~= seq![base]);
        TransformStack { transforms, dirty: true }
    }

    /// Puts `composed` on top and marks the stack dirty. `composed` is the new
    /// transform already applied on the current top.
    pub fn push(&mut self, composed: GlTransform)
        requires
            old(self).wf(),
        ensures
            final(self).wf(),
            final(self)@ == old(self)@.pushed(composed),
    {
        self.transforms.push(composed);
        self.dirty = true;
    }

    /// Takes the top away, so that the transform below is in force again, and
    /// marks the stack dirty. The base stays.
    pub fn pop(&mut self) -> (removed: GlTransform)
        requires
            old(self).wf(),
            old(self)@.transforms.len() > 1,
        ensures
            final(self).wf(),
            final(self)@ == old(self)@.popped(),
            removed == old(self)@.top(),
    {
        let removed = self.transforms.pop().unwrap();
        self.dirty = true;
        removed
    }

    /// The transform in force.
    pub fn top(&self) -> (transform: GlTransform)
        requires
            self.wf(),
        ensures
            transform == self@.top(),
    {
        self.transforms[self.transforms.len() - 1]
    }

    /// How many transforms the stack holds, the base included.
    pub fn depth(&self) -> (n: usize)
        ensures
            n == self@.transforms.len(),
    {
        self.transforms.len()
    }

    pub fn is_dirty(&self) -> (dirty: bool)
        ensures
            dirty == self@.dirty,
    {
        self.dirty
    }

    /// Records that the uniform block now shows the top.
    pub fn mark_clean(&mut self)
        requires
            old(self).wf(),
        ensures
            final(self).wf(),
            final(self)@ == old(self)@.cleaned(),
    {
        self.dirty = false;
    }
}

} // verus!
