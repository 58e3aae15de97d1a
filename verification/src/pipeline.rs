//! The fixed part of the renderer: what the device must offer, the slots through
//! which the shading program sees its buffers, and the static geometry.
//!
//! Nothing here changes after start-up. An update may put another buffer behind
//! the objects slot, but the slots themselves, their order and their kinds are
//! settled once, and every pass that draws binds them in that order.

use vstd::prelude::*;
use crate::layout::Vertex;
use crate::layout::vertices_bytes;
use crate::layout::indices_bytes;
use crate::layout::encode_vertices;
use crate::layout::encode_indices;

verus! {

/// Entry point of the vertex stage in the shading program.
pub const VERTEX_ENTRY: &'static str = "vs_main";

/// Entry point of the fragment stage in the shading program.
pub const FRAGMENT_ENTRY: &'static str = "fs_main";

/// The single-precision bit pattern of zero.
pub const ZERO: u32 = 0x0000_0000;

/// The single-precision bit pattern of one.
pub const ONE: u32 = 0x3f80_0000;

/// The single-precision bit pattern of minus one.
pub const MINUS_ONE: u32 = 0xbf80_0000;

/// The optional device features that the renderer cares about.
#[derive(Clone, Copy, Debug, PartialEq, Eq)]
pub struct Features {
    /// Arrays of buffer bindings.
    pub buffer_binding_array: bool,
    /// Arrays of storage buffers and storage textures.
    pub storage_resource_binding_array: bool,
}

impl Features {
    /// The features that the device is asked for.
    pub open spec fn required_features() -> Features {
        Features { buffer_binding_array: true, storage_resource_binding_array: true }
    }

    /// Whether every feature of `other` is among these.
    pub open spec fn includes(self, other: Features) -> bool {
        &&& other.buffer_binding_array ==> self.buffer_binding_array
        &&& other.storage_resource_binding_array ==> self.storage_resource_binding_array
    }

    /// The features that the device is asked for.
    pub fn required() -> (out: Features)
        ensures
            out == Features::required_features(),
    {
        Features { buffer_binding_array: true, storage_resource_binding_array: true }
    }

    /// Whether every feature of `other` is among these.
    pub fn contains(&self, other: &Features) -> (out: bool)
        ensures
            out == self.includes(*other),
    {
        (!other.buffer_binding_array || self.buffer_binding_array) && (
        !other.storage_resource_binding_array || self.storage_resource_binding_array)
    }
}

/// What is known of a physical device before a logical one is requested.
#[derive(Clone, Copy, Debug, PartialEq, Eq)]
pub struct Adapter {
    /// The features the adapter supports.
    pub features: Features,
}

/// A stage of the shading program.
#[derive(Clone, Copy, Debug, PartialEq, Eq)]
pub enum ShaderStage {
    /// The stage that places the corners of the geometry.
    Vertex,
    /// The stage that shades each pixel.
    Fragment,
}

/// How the shading program reads a bound buffer.
#[derive(Clone, Copy, Debug, PartialEq, Eq)]
pub enum BufferBindingType {
    /// A small block of constants.
    Uniform,
    /// A run of records of any length.
    Storage {
        /// Whether the shading program may only read the buffer.
        read_only: bool,
    },
}

/// One entry of a bind group layout.
#[derive(Clone, Copy, Debug, PartialEq, Eq)]
pub struct BindGroupLayoutEntry {
    /// Index of the entry within its group.
    pub binding: u32,
    /// The stage that sees the buffer.
    pub visibility: ShaderStage,
    /// How the buffer is read.
    pub ty: BufferBindingType,
    /// Whether an offset is supplied with every binding.
    pub has_dynamic_offset: bool,
}

/// What a buffer may be used for.
#[derive(Clone, Copy, Debug, PartialEq, Eq)]
pub struct BufferUsages {
    /// Source of vertices.
    pub vertex: bool,
    /// Source of indices.
    pub index: bool,
    /// Bound as a uniform.
    pub uniform: bool,
    /// Bound as storage.
    pub storage: bool,
    /// Target of a write from the host.
    pub copy_dst: bool,
}

/// A slot through which the shading program sees a buffer. Each slot is a bind
/// group of its own with a single entry.
#[derive(Clone, Copy, Debug, PartialEq, Eq)]
pub enum Slot {
    /// The camera uniform.
    Camera,
    /// The time uniform.
    Time,
    /// The object records.
    Objects,
}

impl Slot {
    /// Index of the slot's bind group in the pipeline layout.
    pub open spec fn group(self) -> u32 {
        match self {
            Slot::Camera => 0,
            Slot::Time => 1,
            Slot::Objects => 2,
        }
    }

    /// The single entry of the slot's bind group layout.
    pub open spec fn layout(self) -> BindGroupLayoutEntry {
        BindGroupLayoutEntry {
            binding: 0,
            visibility: ShaderStage::Fragment,
            ty: match self {
                Slot::Camera => BufferBindingType::Uniform,
                Slot::Time => BufferBindingType::Uniform,
                Slot::Objects => BufferBindingType::Storage { read_only: true },
            },
            has_dynamic_offset: false,
        }
    }

    /// What the buffer behind the slot may be used for: what its binding kind
    /// asks, and as the target of writes from the host.
    pub open spec fn usages(self) -> BufferUsages {
        BufferUsages {
            vertex: false,
            index: false,
            uniform: self.layout().ty == BufferBindingType::Uniform,
            storage: self.layout().ty != BufferBindingType::Uniform,
            copy_dst: true,
        }
    }

    /// Index of the slot's bind group in the pipeline layout.
    pub fn index(&self) -> (out: u32)
        ensures
            out == self.group(),
    {
        match self {
            Slot::Camera => 0,
            Slot::Time => 1,
            Slot::Objects => 2,
        }
    }

    /// The single entry of the slot's bind group layout.
    pub fn layout_entry(&self) -> (out: BindGroupLayoutEntry)
        ensures
            out == self.layout(),
    {
        let ty = match self {
            Slot::Camera => BufferBindingType::Uniform,
            Slot::Time => BufferBindingType::Uniform,
            Slot::Objects => BufferBindingType::Storage { read_only: true },
        };
        BindGroupLayoutEntry {
            binding: 0,
            visibility: ShaderStage::Fragment,
            ty,
            has_dynamic_offset: false,
        }
    }

    /// What the buffer behind the slot may be used for.
    pub fn buffer_usages(&self) -> (out: BufferUsages)
        ensures
            out == self.usages(),
    {
        match self {
            Slot::Objects => BufferUsages {
                vertex: false,
                index: false,
                uniform: false,
                storage: true,
                copy_dst: true,
            },
            _ => BufferUsages {
                vertex: false,
                index: false,
                uniform: true,
                storage: false,
                copy_dst: true,
            },
        }
    }
}

/// The slots in the order of the pipeline layout.
pub open spec fn slots() -> Seq<Slot> {
    seq![Slot::Camera, Slot::Time, Slot::Objects]
}

/// The slots in the order of the pipeline layout.
pub fn pipeline_layout() -> (out: [Slot; 3])
    ensures
        out@ == slots(),
{
    let out = [Slot::Camera, Slot::Time, Slot::Objects];
    assert(out@ =~= slots());
    out
}

/// Every slot stands in the pipeline layout at the index of its own group, and
/// nothing else stands there.
pub proof fn lemma_slots_in_group_order(slot: Slot)
    ensures
        slots().len() == 3,
        0 <= slot.group() < 3,
        slots()[slot.group() as int] == slot,
        forall|i: int| 0 <= i < 3 ==> (#[trigger] slots()[i]).group() == i,
{
}

/// The layout of a scalar group in a vertex.
#[derive(Clone, Copy, Debug, PartialEq, Eq)]
pub enum VertexFormat {
    /// Two single-precision numbers.
    Float32x2,
    /// Three single-precision numbers.
    Float32x3,
}

impl VertexFormat {
    /// Bytes that the format takes.
    pub open spec fn bytes(self) -> nat {
        match self {
            VertexFormat::Float32x2 => 8,
            VertexFormat::Float32x3 => 12,
        }
    }

    /// Bytes that the format takes.
    pub fn size(&self) -> (out: u64)
        ensures
            out == self.bytes(),
    {
        match self {
            VertexFormat::Float32x2 => 8,
            VertexFormat::Float32x3 => 12,
        }
    }
}

/// Where one input of the vertex stage lies within a vertex.
#[derive(Clone, Copy, Debug, PartialEq, Eq)]
pub struct VertexAttribute {
    /// Bytes from the start of the vertex.
    pub offset: u64,
    /// The input of the vertex stage that reads the attribute.
    pub shader_location: u32,
    /// The layout of the attribute.
    pub format: VertexFormat,
}

/// How the vertex buffer is cut into vertices and attributes. The buffer is
/// stepped once per vertex.
#[derive(Clone, Copy, Debug, PartialEq, Eq)]
pub struct VertexBufferLayout {
    /// Bytes from one vertex to the next.
    pub array_stride: u64,
    /// The attributes of a vertex, in the order of their shader locations.
    pub attributes: [VertexAttribute; 2],
}

impl VertexBufferLayout {
    /// The attributes follow one another from the start of the vertex, without
    /// gap or overlap, and fill it; the shader locations count up from zero.
    pub open spec fn packed(self) -> bool {
        &&& self.attributes[0].offset == 0
        &&& self.attributes[1].offset == self.attributes[0].format.bytes()
        &&& self.array_stride == self.attributes[1].offset + self.attributes[1].format.bytes()
        &&& self.attributes[0].shader_location == 0
        &&& self.attributes[1].shader_location == 1
    }
}

impl Vertex {
    /// The layout of the vertex buffer: the position, three scalars, then the
    /// coordinates, two scalars.
    pub open spec fn layout() -> VertexBufferLayout {
        VertexBufferLayout {
            array_stride: 20,
            attributes: [
                VertexAttribute { offset: 0, shader_location: 0, format: VertexFormat::Float32x3 },
                VertexAttribute { offset: 12, shader_location: 1, format: VertexFormat::Float32x2 },
            ],
        }
    }

    /// The layout of the vertex buffer.
    pub fn descriptor() -> (out: VertexBufferLayout)
        ensures
            out == Vertex::layout(),
            out.packed(),
            out.array_stride == crate::layout::VERTEX_SIZE,
    {
        let position = VertexFormat::Float32x3;
        let uv = VertexFormat::Float32x2;
        let out = VertexBufferLayout {
            array_stride: position.size() + uv.size(),
            attributes: [
                VertexAttribute { offset: 0, shader_location: 0, format: position },
                VertexAttribute { offset: position.size(), shader_location: 1, format: uv },
            ],
        };
        assert(out.attributes@ =~= Vertex::layout().attributes@);
        out
    }
}

/// The corners of the full-screen quad: bottom left, top right, bottom right,
/// top left. The coordinates of a corner repeat its position on the screen.
pub open spec fn quad() -> Seq<Vertex> {
    seq![
        Vertex { position: [MINUS_ONE, MINUS_ONE, ZERO], uv: [MINUS_ONE, MINUS_ONE] },
        Vertex { position: [ONE, ONE, ZERO], uv: [ONE, ONE] },
        Vertex { position: [ONE, MINUS_ONE, ZERO], uv: [ONE, MINUS_ONE] },
        Vertex { position: [MINUS_ONE, ONE, ZERO], uv: [MINUS_ONE, ONE] },
    ]
}

/// The two triangles of the full-screen quad, as indices into its corners.
pub open spec fn quad_triangles() -> Seq<u16> {
    seq![0u16, 1u16, 2u16, 0u16, 3u16, 1u16]
}

/// The corners of the full-screen quad.
pub fn quad_vertices() -> (out: [Vertex; 4])
    ensures
        out@ == quad(),
{
    let out = [
        Vertex::new([MINUS_ONE, MINUS_ONE, ZERO], [MINUS_ONE, MINUS_ONE]),
        Vertex::new([ONE, ONE, ZERO], [ONE, ONE]),
        Vertex::new([ONE, MINUS_ONE, ZERO], [ONE, MINUS_ONE]),
        Vertex::new([MINUS_ONE, ONE, ZERO], [MINUS_ONE, ONE]),
    ];
    assert(out@ =~= quad());
    out
}

/// The two triangles of the full-screen quad.
pub fn quad_indices() -> (out: [u16; 6])
    ensures
        out@ == quad_triangles(),
{
    let out: [u16; 6] = [0, 1, 2, 0, 3, 1];
    assert(out@ =~= quad_triangles());
    out
}

/// Every index of the quad names one of its corners, and every corner is named.
pub proof fn lemma_quad_indices_in_range()
    ensures
        quad().len() == 4,
        quad_triangles().len() == 6,
        forall|i: int| 0 <= i < 6 ==> (#[trigger] quad_triangles()[i]) < quad().len(),
        forall|v: u16| v < 4 ==> #[trigger] quad_triangles().contains(v),
{
    assert(quad_triangles()[0] == 0);
    assert(quad_triangles()[1] == 1);
    assert(quad_triangles()[2] == 2);
    assert(quad_triangles()[4] == 3);
}

/// A buffer to create on the device together with its first contents.
#[derive(Debug, PartialEq, Eq)]
pub struct BufferInit {
    /// The bytes the buffer is created with.
    pub contents: Vec<u8>,
    /// What the buffer may be used for.
    pub usage: BufferUsages,
}

/// The vertex buffer of the full-screen quad, which is never written again.
pub fn vertex_buffer() -> (out: BufferInit)
    ensures
        out.contents@ == vertices_bytes(quad()),
        out.contents@.len() == 80,
        out.usage == (BufferUsages {
            vertex: true,
            index: false,
            uniform: false,
            storage: false,
            copy_dst: false,
        }),
{
    let vertices = quad_vertices();
    let contents = encode_vertices(vertices.as_slice());
    BufferInit {
        contents,
        usage: BufferUsages {
            vertex: true,
            index: false,
            uniform: false,
            storage: false,
            copy_dst: false,
        },
    }
}

/// The index buffer of the full-screen quad, which is never written again.
pub fn index_buffer() -> (out: BufferInit)
    ensures
        out.contents@ == indices_bytes(quad_triangles()),
        out.contents@.len() == 12,
        out.usage == (BufferUsages {
            vertex: false,
            index: true,
            uniform: false,
            storage: false,
            copy_dst: false,
        }),
{
    let indices = quad_indices();
    let contents = encode_indices(indices.as_slice());
    BufferInit {
        contents,
        usage: BufferUsages {
            vertex: false,
            index: true,
            uniform: false,
            storage: false,
            copy_dst: false,
        },
    }
}

} // verus!
