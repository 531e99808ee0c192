//! The static mesh: its index list and the layout of one vertex.

use vstd::prelude::*;
use wgpu::VertexFormat as F;

verus! {

/// Number of vertices in the static mesh.
pub const VERTEX_COUNT: u32 = 5;

/// Number of indices in the static mesh.
pub const INDEX_COUNT: u32 = 9;

/// The static index list: a fan of three triangles around vertex 4.
pub open spec fn index_seq() -> Seq<u16> {
    seq![0u16, 1, 4, 1, 2, 4, 2, 3, 4]
}

/// Every index of `idx` names one of `vertex_count` vertices.
pub open spec fn indices_in_range(idx: Seq<u16>, vertex_count: nat) -> bool {
    forall|i: int| 0 <= i < idx.len() ==> (#[trigger] idx[i] as nat) < vertex_count
}

/// Every index of the static index list is below the vertex count, and the
/// list holds `INDEX_COUNT` indices.
pub proof fn lemma_static_indices_in_range()
    ensures
        indices_in_range(index_seq(), VERTEX_COUNT as nat),
        index_seq().len() == INDEX_COUNT as nat,
{
    assert(indices_in_range(index_seq(), VERTEX_COUNT as nat)) by {
        let s = index_seq();
        assert(s[0] < 5 && s[1] < 5 && s[2] < 5 && s[3] < 5 && s[4] < 5);
        assert(s[5] < 5 && s[6] < 5 && s[7] < 5 && s[8] < 5);
    }
}

/// Builds the static index list.
pub fn indices() -> (r: Vec<u16>)
    ensures
        r@ == index_seq(),
{
    let r = vec![0u16, 1, 4, 1, 2, 4, 2, 3, 4];
    assert(r@ =~= index_seq());
    r
}

/// The bytes of an index list as the GPU reads them: each index in the
/// machine's byte order.
pub uninterp spec fn index_bytes_of(idx: Seq<u16>) -> Seq<u8>;

/// Relies on `bytemuck::cast_slice`: it views the indices' memory as bytes,
/// two for each index.
#[verifier::external_body]
fn index_bytes(idx: &Vec<u16>) -> (r: Vec<u8>)
    ensures
        r@ == index_bytes_of(idx@),
        r@.len() == 2 * idx@.len(),
{
    bytemuck::cast_slice::<u16, u8>(idx.as_slice()).to_vec()
}

/// What the index buffer is filled with: the static index list, two bytes
/// per index.
pub fn index_buffer_contents() -> (r: Vec<u8>)
    ensures
        r@ == index_bytes_of(index_seq()),
        r@.len() == 2 * INDEX_COUNT,
{
    let idx = indices();
    index_bytes(&idx)
}

/// Tells whether every index of `idx` is below `vertex_count`.
pub fn check_indices(idx: &Vec<u16>, vertex_count: u32) -> (r: bool)
    ensures
        r == indices_in_range(idx@, vertex_count as nat),
{
    let mut i: usize = 0;
    while i < idx.len()
        invariant
            i <= idx@.len(),
            indices_in_range(idx@.subrange(0, i as int), vertex_count as nat),
        decreases idx@.len() - i,
    {
        if idx[i] as u32 >= vertex_count {
            assert(idx@[i as int] as nat >= vertex_count as nat);
            return false;
        }
        assert(indices_in_range(idx@.subrange(0, i + 1), vertex_count as nat)) by {
            assert forall|k: int| 0 <= k < i + 1 implies (#[trigger] idx@.subrange(0, i + 1)[k] as nat)
                < vertex_count as nat by {
                if k < i {
                    assert(idx@.subrange(0, i + 1)[k] == idx@.subrange(0, i as int)[k]);
                }
            }
        }
        i = i + 1;
    }
    assert(idx@.subrange(0, i as int) =~= idx@);
    true
}

#[verifier::external_type_specification]
pub struct ExVertexFormat(wgpu::VertexFormat);

#[verifier::external_type_specification]
pub struct ExVertexAttribute(wgpu::VertexAttribute);

/// Bytes taken by one attribute of format `f`: its component count times the
/// component's width.
pub open spec fn format_bytes(f: wgpu::VertexFormat) -> u64 {
    match f {
        F::Uint8x2 | F::Sint8x2 | F::Unorm8x2 | F::Snorm8x2 => 2,
        F::Uint8x4 | F::Sint8x4 | F::Unorm8x4 | F::Snorm8x4 | F::Uint16x2 | F::Sint16x2
        | F::Unorm16x2 | F::Snorm16x2 | F::Float16x2 | F::Float32 | F::Uint32 | F::Sint32 => 4,
        F::Uint16x4 | F::Sint16x4 | F::Unorm16x4 | F::Snorm16x4 | F::Float16x4 | F::Float32x2
        | F::Uint32x2 | F::Sint32x2 | F::Float64 => 8,
        F::Float32x3 | F::Uint32x3 | F::Sint32x3 => 12,
        F::Float32x4 | F::Uint32x4 | F::Sint32x4 | F::Float64x2 => 16,
        F::Float64x3 => 24,
        F::Float64x4 => 32,
    }
}

/// Relies on `wgpu::VertexFormat::size`: the byte size of one attribute of
/// the format.
pub assume_specification[ wgpu::VertexFormat::size ](f: &wgpu::VertexFormat) -> (r: u64)
    ensures
        r == format_bytes(*f),
;

/// The layout of one vertex in the vertex buffer.
pub struct VertexLayout {
    /// Bytes from one vertex to the next.
    pub array_stride: u64,
    /// The vertex's attributes, in the order the shader locations number them.
    pub attributes: Vec<wgpu::VertexAttribute>,
}

/// The attributes lie back to back from offset zero, in the order of their
/// shader locations, and fill the stride exactly.
pub open spec fn packed_layout(stride: u64, attrs: Seq<wgpu::VertexAttribute>) -> bool {
    &&& attrs.len() > 0
    &&& attrs[0].offset == 0
    &&& forall|i: int| 0 <= i < attrs.len() ==> (#[trigger] attrs[i]).shader_location == i
    &&& forall|i: int|
        0 <= i < attrs.len() - 1 ==> attrs[i + 1].offset == (#[trigger] attrs[i]).offset
            + format_bytes(attrs[i].format)
    &&& stride == attrs.last().offset + format_bytes(attrs.last().format)
}

/// The layout of a vertex: a position (three 32-bit floats) at location
/// zero, then a colour (three 32-bit floats) at location one.
pub fn vertex_layout() -> (r: VertexLayout)
    ensures
        packed_layout(r.array_stride, r.attributes@),
        r.attributes@.len() == 2,
        r.attributes@[0].format == wgpu::VertexFormat::Float32x3,
        r.attributes@[1].format == wgpu::VertexFormat::Float32x3,
        r.attributes@[1].offset == 12,
        r.array_stride == 24,
{
    let position = wgpu::VertexFormat::Float32x3;
    let color = wgpu::VertexFormat::Float32x3;
    let color_offset = position.size();
    let stride = color_offset + color.size();
    let mut attributes: Vec<wgpu::VertexAttribute> = Vec::new();
    attributes.push(wgpu::VertexAttribute { format: position, offset: 0, shader_location: 0 });
    attributes.push(wgpu::VertexAttribute { format: color, offset: color_offset, shader_location: 1 });
    VertexLayout { array_stride: stride, attributes }
}

} // verus!
