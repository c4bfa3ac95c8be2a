use vstd::prelude::*;
use crate::color::GlColor;
use crate::transform::GlTransform;

verus! {

/// How many scalars the uniform block holds.
pub const UNIFORM_SCALARS: usize = 12;

/// The block of uniforms that every shader program reads: the transform in
/// force, the canvas size and the colour filter.
#[derive(Clone, Copy, PartialEq, Eq, Structural, Debug)]
pub struct UniformBlock {
    pub transform: GlTransform,
    pub canvas_width: u32,
    pub canvas_height: u32,
    pub color_filter: GlColor,
}

impl UniformBlock {
    /// The block as the GPU reads it: the first row of the transform and the
    /// canvas width, the second row and the canvas height, then the filter.
    pub open spec fn layout(self) -> Seq<u32> {
        seq![
            self.transform.m00,
            self.transform.m10,
            self.transform.m20,
            self.canvas_width,
            self.transform.m01,
            self.transform.m11,
            self.transform.m21,
            self.canvas_height,
            self.color_filter.r,
            self.color_filter.g,
            self.color_filter.b,
            self.color_filter.a,
        ]
    }

    /// The block with another transform and canvas size, and the same filter.
    pub open spec fn refreshed(self, transform: GlTransform, width: u32, height: u32)
        -> UniformBlock {
        UniformBlock {
            transform,
            canvas_width: width,
            canvas_height: height,
            color_filter: self.color_filter,
        }
    }

    pub fn new(transform: GlTransform, canvas_width: u32, canvas_height: u32, color_filter: GlColor)
        -> (block: UniformBlock)
        ensures
            block == (UniformBlock { transform, canvas_width, canvas_height, color_filter }),
    {
        UniformBlock { transform, canvas_width, canvas_height, color_filter }
    }

    /// The scalars of the block in the order in which they are uploaded.
    pub fn words(&self) -> (words: Vec<u32>)
        ensures
            words@ == self.layout(),
            words@.len() == UNIFORM_SCALARS,
    {
        let mut words: Vec<u32> = Vec::new();
        words.push(self.transform.m00);
        words.push(self.transform.m10);
        words.push(self.transform.m20);
        words.push(self.canvas_width);
        words.push(self.transform.m01);
        words.push(self.transform.m11);
        words.push(self.transform.m21);
        words.push(self.canvas_height);
        words.push(self.color_filter.r);
        words.push(self.color_filter.g);
        words.push(self.color_filter.b);
        words.push(self.color_filter.a);
        assert(words@ =~= self.layout());
        words
    }
}

} // verus!
