use vstd::prelude::*;
use crate::scalar::{SCALAR_ONE, SCALAR_ZERO};

verus! {

/// How many bytes a scalar takes.
pub const SCALAR_BYTES: i32 = 4;

/// How many scalars the record of one cell holds.
pub const RECORD_SCALARS: usize = 16;

/// How many attributes the record of one cell is read as.
pub const RECORD_ATTRIBUTES: usize = 4;

/// How many corners the quad has: each instance is drawn as a fan of them.
pub const QUAD_VERTICES: i32 = 4;

/// How many scalars each attribute of a record holds.
pub const ATTRIBUTE_SCALARS: i32 = 4;

/// How the GPU finds one vertex attribute in a buffer.
#[derive(Clone, Copy, PartialEq, Eq, Structural, Debug)]
pub struct VertexAttribute {
    /// The attribute's location in the program.
    pub location: u32,
    /// How many scalars it holds.
    pub components: i32,
    /// How many bytes lie between two values of it.
    pub stride: i32,
    /// At which byte the first value starts.
    pub offset: i32,
    /// 0 where each vertex has a value of its own, 1 where each instance
    /// has.
    pub divisor: u32,
}

impl VertexAttribute {
    /// How many bytes one value takes.
    pub open spec fn bytes(self) -> int {
        self.components * SCALAR_BYTES
    }

    /// The byte after the value.
    pub open spec fn end(self) -> int {
        self.offset + self.bytes()
    }
}

/// The corner of the quad: the one attribute that each vertex has.
pub open spec fn quad_attribute() -> VertexAttribute {
    VertexAttribute {
        location: 0,
        components: 2,
        stride: (2 * SCALAR_BYTES) as i32,
        offset: 0,
        divisor: 0,
    }
}

/// Part `i` of a cell's record, counted from 0: the source rectangle, the
/// local transform, the translation, the tint. Its location is `i + 1`.
pub open spec fn record_attribute(i: int) -> VertexAttribute {
    VertexAttribute {
        location: (i + 1) as u32,
        components: ATTRIBUTE_SCALARS,
        stride: (RECORD_SCALARS * SCALAR_BYTES) as i32,
        offset: (i * ATTRIBUTE_SCALARS * SCALAR_BYTES) as i32,
        divisor: 1,
    }
}

/// The corners of the unit quad in the order of a triangle fan, two scalars
/// a corner.
pub open spec fn unit_quad() -> Seq<u32> {
    seq![
        SCALAR_ZERO,
        SCALAR_ZERO,
        SCALAR_ZERO,
        SCALAR_ONE,
        SCALAR_ONE,
        SCALAR_ONE,
        SCALAR_ONE,
        SCALAR_ZERO,
    ]
}

/// The parts of a record lie one after the other, from the first byte of
/// the record to its last, and a record is as long as the stride.
pub proof fn lemma_attributes_tile_record(i: int)
    requires
        0 <= i < RECORD_ATTRIBUTES,
    ensures
        record_attribute(0).offset == 0,
        i + 1 < RECORD_ATTRIBUTES ==> record_attribute(i).end() == record_attribute(i + 1).offset,
        record_attribute(RECORD_ATTRIBUTES - 1).end() == record_attribute(i).stride,
        record_attribute(i).stride == RECORD_SCALARS * SCALAR_BYTES,
        RECORD_ATTRIBUTES * ATTRIBUTE_SCALARS == RECORD_SCALARS,
{
}

pub fn quad_vertex_attribute() -> (attribute: VertexAttribute)
    ensures
        attribute == quad_attribute(),
{
    VertexAttribute { location: 0, components: 2, stride: 2 * SCALAR_BYTES, offset: 0, divisor: 0 }
}

/// The parts of a cell's record, in order.
pub fn record_attributes() -> (attributes: Vec<VertexAttribute>)
    ensures
        attributes@ == Seq::new(RECORD_ATTRIBUTES as nat, |i: int| record_attribute(i)),
{
    let mut attributes: Vec<VertexAttribute> = Vec::new();
    let mut i: usize = 0;
    while i < RECORD_ATTRIBUTES
        invariant
            i <= RECORD_ATTRIBUTES,
            attributes@ == Seq::new(i as nat, |k: int| record_attribute(k)),
        decreases RECORD_ATTRIBUTES - i,
    {
        let part: i32 = i as i32;
        attributes.push(
            VertexAttribute {
                location: (i + 1) as u32,
                components: ATTRIBUTE_SCALARS,
                stride: RECORD_SCALARS as i32 * SCALAR_BYTES,
                offset: part * ATTRIBUTE_SCALARS * SCALAR_BYTES,
                divisor: 1,
            },
        );
        i = i + 1;
        assert(attributes@ =~= Seq::new(i as nat, |k: int| record_attribute(k)));
    }
    attributes
}

/// The corners of the unit quad in the order of a triangle fan.
pub fn quad_corners() -> (corners: Vec<u32>)
    ensures
        corners@ == unit_quad(),
        corners@.len() == 2 * QUAD_VERTICES,
{
    let mut corners: Vec<u32> = Vec::new();
    corners.push(SCALAR_ZERO);
    corners.push(SCALAR_ZERO);
    corners.push(SCALAR_ZERO);
    corners.push(SCALAR_ONE);
    corners.push(SCALAR_ONE);
    corners.push(SCALAR_ONE);
    corners.push(SCALAR_ONE);
    corners.push(SCALAR_ZERO);
    assert(corners@ =~= unit_quad());
    corners
}

} // verus!
