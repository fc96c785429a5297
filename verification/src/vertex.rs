//! Vertex buffer layouts.
//!
//! A layout says how one record of a vertex buffer is cut into attributes.
//! [`packed`] lays attributes out back to back in the order given, numbering
//! their shader locations from zero.

use vstd::prelude::*;

verus! {

/// The numeric type of one vertex attribute.
#[derive(Clone, Copy, Debug, PartialEq, Eq, Structural)]
pub enum AttributeFormat {
    Float32,
    Float32x2,
    Float32x3,
    Float32x4,
    Uint32,
}

impl AttributeFormat {
    /// The size of a value of this format in bytes.
    pub open spec fn size(self) -> nat {
        match self {
            AttributeFormat::Float32 => 4,
            AttributeFormat::Float32x2 => 8,
            AttributeFormat::Float32x3 => 12,
            AttributeFormat::Float32x4 => 16,
            AttributeFormat::Uint32 => 4,
        }
    }

    /// The size of a value of this format in bytes.
    pub fn bytes(&self) -> (n: u64)
        ensures
            n == self.size(),
    {
        match self {
            AttributeFormat::Float32 => 4,
            AttributeFormat::Float32x2 => 8,
            AttributeFormat::Float32x3 => 12,
            AttributeFormat::Float32x4 => 16,
            AttributeFormat::Uint32 => 4,
        }
    }
}

/// One attribute of a vertex record.
#[derive(Clone, Copy, Debug, PartialEq, Eq, Structural)]
pub struct Attribute {
    /// The location the vertex shader reads it at.
    pub location: u32,
    /// Its distance in bytes from the start of the record.
    pub offset: u64,
    pub format: AttributeFormat,
}

/// Whether a vertex buffer advances per vertex or per instance.
#[derive(Clone, Copy, Debug, PartialEq, Eq, Structural)]
pub enum StepMode {
    Vertex,
    Instance,
}

/// The layout of the records of one vertex buffer.
#[derive(Clone, Debug, PartialEq, Eq)]
pub struct VertexLayout {
    /// The distance in bytes from one record to the next.
    pub stride: u64,
    pub step: StepMode,
    pub attributes: Vec<Attribute>,
}

/// The mathematical value of a [`VertexLayout`].
pub struct VertexLayoutView {
    pub stride: u64,
    pub step: StepMode,
    pub attributes: Seq<Attribute>,
}

impl View for VertexLayout {
    type V = VertexLayoutView;

    open spec fn view(&self) -> VertexLayoutView {
        VertexLayoutView { stride: self.stride, step: self.step, attributes: self.attributes@ }
    }
}

/// The bytes that values of the given formats take when stored back to back.
pub open spec fn packed_size(formats: Seq<AttributeFormat>) -> nat
    decreases formats.len(),
{
    if formats.len() == 0 {
        0
    } else {
        packed_size(formats.drop_last()) + formats.last().size()
    }
}

/// The attributes of a record that stores the given formats back to back:
/// attribute `i` is read at location `i` and starts where its predecessors
/// end.
pub open spec fn packed_attributes(formats: Seq<AttributeFormat>) -> Seq<Attribute> {
    Seq::new(
        formats.len(),
        |i: int|
            Attribute { location: i as u32, offset: packed_size(formats.take(i)) as u64, format: formats[i] },
    )
}

/// A packed record is at most sixteen bytes per attribute long.
pub proof fn lemma_packed_size_bound(formats: Seq<AttributeFormat>)
    ensures
        packed_size(formats) <= 16 * formats.len(),
    decreases formats.len(),
{
    if formats.len() > 0 {
        lemma_packed_size_bound(formats.drop_last());
    }
}

/// Taking one more format adds its size.
pub proof fn lemma_packed_size_step(formats: Seq<AttributeFormat>, i: int)
    requires
        0 <= i < formats.len(),
    ensures
        packed_size(formats.take(i + 1)) == packed_size(formats.take(i)) + formats[i].size(),
{
    assert(formats.take(i + 1).drop_last() =~= formats.take(i));
}

/// Lays the given formats out back to back, stepping per vertex.
pub fn packed(formats: &Vec<AttributeFormat>) -> (layout: VertexLayout)
    requires
        formats@.len() <= u32::MAX,
    ensures
        layout@.stride == packed_size(formats@),
        layout@.step == StepMode::Vertex,
        layout@.attributes == packed_attributes(formats@),
{
    let mut attributes: Vec<Attribute> = Vec::new();
    let mut offset: u64 = 0;
    let mut i: usize = 0;
    while i < formats.len()
        invariant
            i <= formats@.len(),
            formats@.len() <= u32::MAX,
            offset == packed_size(formats@.take(i as int)),
            attributes@ == packed_attributes(formats@).take(i as int),
        decreases formats@.len() - i,
    {
        let format = formats[i];
        proof {
            lemma_packed_size_step(formats@, i as int);
            lemma_packed_size_bound(formats@.take(i + 1));
        }
        attributes.push(Attribute { location: i as u32, offset, format });
        assert(attributes@ =~= packed_attributes(formats@).take(i + 1));
        offset = offset + format.bytes();
        i += 1;
    }
    assert(formats@.take(i as int) =~= formats@);
    assert(packed_attributes(formats@).take(i as int) =~= packed_attributes(formats@));
    VertexLayout { stride: offset, step: StepMode::Vertex, attributes }
}

} // verus!
