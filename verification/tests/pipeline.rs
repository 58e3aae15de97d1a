use sphere_renderer::layout::Vertex;
use sphere_renderer::pipeline::index_buffer;
use sphere_renderer::pipeline::pipeline_layout;
use sphere_renderer::pipeline::quad_indices;
use sphere_renderer::pipeline::quad_vertices;
use sphere_renderer::pipeline::vertex_buffer;
use sphere_renderer::pipeline::BindGroupLayoutEntry;
use sphere_renderer::pipeline::BufferBindingType;
use sphere_renderer::pipeline::BufferUsages;
use sphere_renderer::pipeline::ShaderStage;
use sphere_renderer::pipeline::Slot;
use sphere_renderer::pipeline::VertexFormat;
use sphere_renderer::pipeline::FRAGMENT_ENTRY;
use sphere_renderer::pipeline::MINUS_ONE;
use sphere_renderer::pipeline::ONE;
use sphere_renderer::pipeline::VERTEX_ENTRY;
use sphere_renderer::pipeline::ZERO;

fn corner(x: f32, y: f32) -> Vertex {
    Vertex {
        position: [x.to_bits(), y.to_bits(), 0.0f32.to_bits()],
        uv: [x.to_bits(), y.to_bits()],
    }
}

#[test]
fn scalar_constants_are_the_bit_patterns() {
    assert_eq!(ZERO, 0.0f32.to_bits());
    assert_eq!(ONE, 1.0f32.to_bits());
    assert_eq!(MINUS_ONE, (-1.0f32).to_bits());
}

#[test]
fn entry_points_are_named_as_in_the_shading_program() {
    assert_eq!(VERTEX_ENTRY, "vs_main");
    assert_eq!(FRAGMENT_ENTRY, "fs_main");
}

#[test]
fn slots_stand_at_their_own_index() {
    let layout = pipeline_layout();
    assert_eq!(layout, [Slot::Camera, Slot::Time, Slot::Objects]);
    for (i, slot) in layout.iter().enumerate() {
        assert_eq!(slot.index() as usize, i);
    }
}

#[test]
fn uniform_slots_are_uniform_buffers_seen_by_the_fragment_stage() {
    for slot in [Slot::Camera, Slot::Time] {
        assert_eq!(
            slot.layout_entry(),
            BindGroupLayoutEntry {
                binding: 0,
                visibility: ShaderStage::Fragment,
                ty: BufferBindingType::Uniform,
                has_dynamic_offset: false,
            }
        );
        assert_eq!(
            slot.buffer_usages(),
            BufferUsages { vertex: false, index: false, uniform: true, storage: false, copy_dst: true }
        );
    }
}

#[test]
fn objects_slot_is_read_only_storage_seen_by_the_fragment_stage() {
    assert_eq!(
        Slot::Objects.layout_entry(),
        BindGroupLayoutEntry {
            binding: 0,
            visibility: ShaderStage::Fragment,
            ty: BufferBindingType::Storage { read_only: true },
            has_dynamic_offset: false,
        }
    );
    assert_eq!(
        Slot::Objects.buffer_usages(),
        BufferUsages { vertex: false, index: false, uniform: false, storage: true, copy_dst: true }
    );
}

#[test]
fn vertex_formats_have_their_sizes() {
    assert_eq!(VertexFormat::Float32x2.size(), 8);
    assert_eq!(VertexFormat::Float32x3.size(), 12);
}

#[test]
fn vertex_layout_is_packed() {
    let layout = Vertex::descriptor();
    assert_eq!(layout.array_stride, 20);
    assert_eq!(layout.attributes[0].offset, 0);
    assert_eq!(layout.attributes[0].shader_location, 0);
    assert_eq!(layout.attributes[0].format, VertexFormat::Float32x3);
    assert_eq!(layout.attributes[1].offset, 12);
    assert_eq!(layout.attributes[1].shader_location, 1);
    assert_eq!(layout.attributes[1].format, VertexFormat::Float32x2);
}

#[test]
fn quad_covers_the_screen_with_two_triangles() {
    assert_eq!(
        quad_vertices(),
        [corner(-1.0, -1.0), corner(1.0, 1.0), corner(1.0, -1.0), corner(-1.0, 1.0)]
    );
    assert_eq!(quad_indices(), [0, 1, 2, 0, 3, 1]);
}

#[test]
fn vertex_buffer_holds_the_quad() {
    let buffer = vertex_buffer();
    assert_eq!(buffer.contents.len(), 80);
    assert_eq!(
        buffer.usage,
        BufferUsages { vertex: true, index: false, uniform: false, storage: false, copy_dst: false }
    );
    let scalars: [f32; 20] = [
        -1.0, -1.0, 0.0, -1.0, -1.0, 1.0, 1.0, 0.0, 1.0, 1.0, 1.0, -1.0, 0.0, 1.0, -1.0, -1.0, 1.0,
        0.0, -1.0, 1.0,
    ];
    let mut expected = Vec::new();
    for value in scalars {
        expected.extend_from_slice(&value.to_le_bytes());
    }
    assert_eq!(buffer.contents, expected);
}

#[test]
fn index_buffer_holds_the_two_triangles() {
    let buffer = index_buffer();
    assert_eq!(buffer.contents, vec![0, 0, 1, 0, 2, 0, 0, 0, 3, 0, 1, 0]);
    assert_eq!(
        buffer.usage,
        BufferUsages { vertex: false, index: true, uniform: false, storage: false, copy_dst: false }
    );
}
