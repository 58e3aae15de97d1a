use sphere_renderer::error::RendererError;
use sphere_renderer::frame::BindGroup;
use sphere_renderer::frame::Color;
use sphere_renderer::frame::IndexFormat;
use sphere_renderer::frame::PassCommand;
use sphere_renderer::frame::Span;
use sphere_renderer::layout::CameraUniform;
use sphere_renderer::layout::Sphere;
use sphere_renderer::layout::TimeUniform;
use sphere_renderer::pipeline::Adapter;
use sphere_renderer::pipeline::BufferUsages;
use sphere_renderer::pipeline::Features;
use sphere_renderer::pipeline::Slot;
use sphere_renderer::pipeline::VertexAttribute;
use sphere_renderer::pipeline::VertexFormat;
use sphere_renderer::renderer::BufferWrite;
use sphere_renderer::renderer::Renderer;
use sphere_renderer::store::ObjectBuffer;
use sphere_renderer::store::ObjectsUpdate;
use sphere_renderer::store::Swap;

fn adapter() -> Adapter {
    Adapter { features: Features { buffer_binding_array: true, storage_resource_binding_array: true } }
}

fn renderer() -> Renderer<u32> {
    Renderer::new(&adapter(), 7).unwrap()
}

fn sphere(position: [f32; 3], radius: f32, color: [f32; 4]) -> Sphere {
    Sphere {
        position: [position[0].to_bits(), position[1].to_bits(), position[2].to_bits()],
        radius: radius.to_bits(),
        color: [color[0].to_bits(), color[1].to_bits(), color[2].to_bits(), color[3].to_bits()],
    }
}

fn uniform() -> BufferUsages {
    BufferUsages { vertex: false, index: false, uniform: true, storage: false, copy_dst: true }
}

fn draw(objects: ObjectBuffer) -> Vec<PassCommand> {
    vec![
        PassCommand::SetPipeline,
        PassCommand::SetBindGroup { index: 0, group: BindGroup::Camera },
        PassCommand::SetBindGroup { index: 1, group: BindGroup::Time },
        PassCommand::SetBindGroup { index: 2, group: BindGroup::Objects(objects) },
        PassCommand::SetVertexBuffer { slot: 0 },
        PassCommand::SetIndexBuffer { format: IndexFormat::Uint16 },
        PassCommand::DrawIndexed {
            indices: Span { start: 0, end: 6 },
            base_vertex: 0,
            instances: Span { start: 0, end: 1 },
        },
    ]
}

#[test]
fn renderer_needs_both_binding_array_features() {
    for (buffer, storage) in [(false, false), (true, false), (false, true)] {
        let weak = Adapter {
            features: Features {
                buffer_binding_array: buffer,
                storage_resource_binding_array: storage,
            },
        };
        assert_eq!(Renderer::new(&weak, 7u32).err(), Some(RendererError::DeviceCreationFailed));
    }
    assert!(Renderer::new(&adapter(), 7u32).is_ok());
}

#[test]
fn required_features_are_the_two_binding_arrays() {
    let required = Features::required();
    assert!(required.buffer_binding_array);
    assert!(required.storage_resource_binding_array);
    assert!(required.contains(&required));
    let none = Features { buffer_binding_array: false, storage_resource_binding_array: false };
    assert!(required.contains(&none));
    assert!(none.contains(&none));
    assert!(!none.contains(&required));
}

#[test]
fn new_renderer_has_unit_camera_zero_time_and_no_objects() {
    let renderer = renderer();
    assert_eq!(renderer.format(), 7);
    assert_eq!(renderer.camera(), CameraUniform { width: 1, height: 1 });
    assert_eq!(renderer.time(), TimeUniform { elapsed_ms: 0.0f32.to_bits() });
    assert_eq!(renderer.objects().bound(), None);
    assert_eq!(renderer.objects().capacity(), 0);
    let camera = renderer.camera_buffer();
    assert_eq!(camera.contents, vec![1, 0, 0, 0, 1, 0, 0, 0]);
    assert_eq!(camera.usage, uniform());
    let time = renderer.time_buffer();
    assert_eq!(time.contents, vec![0; 8]);
    assert_eq!(time.usage, uniform());
}

#[test]
fn camera_update_is_uploaded_whole_and_overwritten_whole() {
    let mut renderer = renderer();
    let write = renderer.update_camera(800, 600);
    assert_eq!(
        write,
        BufferWrite { slot: Slot::Camera, offset: 0, data: vec![0x20, 0x03, 0, 0, 0x58, 0x02, 0, 0] }
    );
    assert_eq!(renderer.render().camera, CameraUniform { width: 800, height: 600 });

    let write = renderer.update_camera(400, 300);
    assert_eq!(
        write,
        BufferWrite { slot: Slot::Camera, offset: 0, data: vec![0x90, 0x01, 0, 0, 0x2c, 0x01, 0, 0] }
    );
    assert_eq!(renderer.render().camera, CameraUniform { width: 400, height: 300 });
    assert_eq!(renderer.camera_buffer().contents, vec![0x90, 0x01, 0, 0, 0x2c, 0x01, 0, 0]);
}

#[test]
fn time_update_is_uploaded_whole() {
    let mut renderer = renderer();
    let elapsed = 2500.0f32;
    let write = renderer.update_time(elapsed.to_bits());
    let mut data = elapsed.to_le_bytes().to_vec();
    data.extend_from_slice(&[0, 0, 0, 0]);
    assert_eq!(write, BufferWrite { slot: Slot::Time, offset: 0, data });
    assert_eq!(renderer.render().time, TimeUniform { elapsed_ms: elapsed.to_bits() });
    assert_eq!(renderer.time(), TimeUniform { elapsed_ms: 0x451c_4000 });
}

#[test]
fn two_spheres_are_stored_in_order_byte_for_byte() {
    let mut renderer = renderer();
    let spheres = vec![
        sphere([0.0, 0.0, 0.0], 1.0, [1.0, 0.0, 0.0, 1.0]),
        sphere([2.0, 0.0, 0.0], 0.5, [0.0, 1.0, 0.0, 1.0]),
    ];
    let scalars: [f32; 16] =
        [0.0, 0.0, 0.0, 1.0, 1.0, 0.0, 0.0, 1.0, 2.0, 0.0, 0.0, 0.5, 0.0, 1.0, 0.0, 1.0];
    let mut expected = Vec::new();
    for value in scalars {
        expected.extend_from_slice(&value.to_le_bytes());
    }
    let update = renderer.update_spheres(&spheres).unwrap();
    match update {
        ObjectsUpdate::Allocate { buffer, descriptor, data } => {
            assert_eq!(buffer, ObjectBuffer { id: 0, capacity: 64 });
            assert_eq!(descriptor.size, 64);
            assert_eq!(data, expected);
            if u32::from_ne_bytes([1, 0, 0, 0]) == 1 {
                let cast: &[u8] = bytemuck::cast_slice(&scalars);
                assert_eq!(data, cast.to_vec());
            }
        }
        other => panic!("expected a new buffer, got {:?}", other),
    }
    assert_eq!(
        renderer.finish_allocation(true),
        Ok(Some(Swap { bound: ObjectBuffer { id: 0, capacity: 64 }, released: None }))
    );
    assert_eq!(renderer.objects().len(), 2);
    assert_eq!(renderer.objects().capacity(), 64);
}

fn magenta() -> Color {
    Color { r: 1.0f64.to_bits(), g: 0.0f64.to_bits(), b: 1.0f64.to_bits(), a: 1.0f64.to_bits() }
}

fn binds_objects_or_draws(commands: &[PassCommand]) -> bool {
    commands.iter().any(|command| {
        matches!(
            command,
            PassCommand::SetBindGroup { index: 2, .. }
                | PassCommand::SetBindGroup { group: BindGroup::Objects(_), .. }
                | PassCommand::DrawIndexed { .. }
        )
    })
}

#[test]
fn frame_sets_pipeline_binds_slots_in_order_and_draws_the_quad() {
    let mut renderer = renderer();
    renderer.update_spheres(&[sphere([0.0; 3], 1.0, [1.0; 4])]).unwrap();
    renderer.finish_allocation(true).unwrap();
    let frame = renderer.render();
    assert_eq!(frame.commands, draw(ObjectBuffer { id: 0, capacity: 32 }));
    assert_eq!(frame.clear, magenta());
}

#[test]
fn frame_of_a_new_renderer_only_clears() {
    let renderer = renderer();
    let frame = renderer.render();
    assert_eq!(frame.clear, magenta());
    assert_eq!(frame.commands, vec![]);
    assert!(!binds_objects_or_draws(&frame.commands));
}

#[test]
fn frame_after_empty_update_of_a_new_renderer_binds_nothing_and_draws_nothing() {
    let mut renderer = renderer();
    assert_eq!(renderer.update_spheres(&[]), Ok(ObjectsUpdate::Unchanged));
    let frame = renderer.render();
    assert_eq!(frame.clear, magenta());
    assert_eq!(frame.commands, vec![]);
    assert!(!binds_objects_or_draws(&frame.commands));
    assert_eq!(renderer.update_spheres(&[]), Ok(ObjectsUpdate::Unchanged));
    assert_eq!(renderer.render(), frame);
}

#[test]
fn frame_after_failed_first_allocation_binds_nothing_and_draws_nothing() {
    let mut renderer = renderer();
    renderer.update_spheres(&[sphere([0.0; 3], 1.0, [1.0; 4])]).unwrap();
    assert_eq!(renderer.finish_allocation(false), Err(RendererError::ResourceAllocationFailed));
    let frame = renderer.render();
    assert_eq!(frame.commands, vec![]);
    assert!(!binds_objects_or_draws(&frame.commands));
}

#[test]
fn frame_binds_the_object_buffer_once_it_stands() {
    let mut renderer = renderer();
    renderer.update_spheres(&vec![sphere([0.0; 3], 1.0, [1.0; 4])]).unwrap();
    assert_eq!(renderer.render().commands, vec![]);
    renderer.finish_allocation(true).unwrap();
    assert_eq!(renderer.render().commands, draw(ObjectBuffer { id: 0, capacity: 32 }));
}

#[test]
fn frame_after_empty_update_binds_the_same_buffer() {
    let mut renderer = renderer();
    renderer.update_spheres(&vec![sphere([0.0; 3], 1.0, [1.0; 4]); 3]).unwrap();
    renderer.finish_allocation(true).unwrap();
    let before = renderer.render();
    assert_eq!(renderer.update_spheres(&[]), Ok(ObjectsUpdate::Unchanged));
    let after = renderer.render();
    assert_eq!(after, before);
    assert_eq!(
        after.commands[3],
        PassCommand::SetBindGroup {
            index: 2,
            group: BindGroup::Objects(ObjectBuffer { id: 0, capacity: 96 }),
        }
    );
}

#[test]
fn frame_never_names_a_replaced_buffer() {
    let mut renderer = renderer();
    renderer.update_spheres(&vec![sphere([0.0; 3], 1.0, [1.0; 4]); 2]).unwrap();
    renderer.finish_allocation(true).unwrap();
    let old = renderer.objects().bound().unwrap();
    renderer.update_spheres(&vec![sphere([0.0; 3], 1.0, [1.0; 4]); 5]).unwrap();
    assert_eq!(renderer.render().commands, draw(old));
    let swap = renderer.finish_allocation(true).unwrap().unwrap();
    assert_eq!(swap.released, Some(old));
    let mut bound = 0;
    for command in renderer.render().commands {
        if let PassCommand::SetBindGroup { group: BindGroup::Objects(buffer), .. } = command {
            assert_eq!(buffer, swap.bound);
            assert_ne!(buffer, old);
            bound += 1;
        }
    }
    assert_eq!(bound, 1);
}

#[test]
fn setup_names_everything_the_device_holds() {
    let mut renderer = renderer();
    renderer.update_camera(800, 600);
    renderer.update_time(2.0f32.to_bits());
    let setup = renderer.setup();
    assert_eq!(setup.required_features, Features::required());
    assert_eq!(setup.vertex_buffer.contents.len(), 80);
    assert!(setup.vertex_buffer.usage.vertex && !setup.vertex_buffer.usage.copy_dst);
    assert_eq!(setup.index_buffer.contents, vec![0, 0, 1, 0, 2, 0, 0, 0, 3, 0, 1, 0]);
    assert!(setup.index_buffer.usage.index && !setup.index_buffer.usage.copy_dst);
    assert_eq!(setup.camera_buffer.contents, vec![0x20, 0x03, 0, 0, 0x58, 0x02, 0, 0]);
    assert_eq!(setup.camera_buffer.usage, uniform());
    assert_eq!(setup.time_buffer.contents, vec![0, 0, 0, 0x40, 0, 0, 0, 0]);
    assert_eq!(setup.time_buffer.usage, uniform());
    assert_eq!(
        setup.bind_group_layouts,
        [
            Slot::Camera.layout_entry(),
            Slot::Time.layout_entry(),
            Slot::Objects.layout_entry(),
        ]
    );
    assert_eq!(setup.pipeline, renderer.pipeline());
}

#[test]
fn failed_allocation_is_reported_and_old_objects_are_drawn() {
    let mut renderer = renderer();
    renderer.update_spheres(&vec![sphere([0.0; 3], 1.0, [1.0; 4]); 2]).unwrap();
    renderer.finish_allocation(true).unwrap();
    let before = renderer.render();
    renderer.update_spheres(&vec![sphere([0.0; 3], 1.0, [1.0; 4]); 9]).unwrap();
    assert_eq!(renderer.finish_allocation(false), Err(RendererError::ResourceAllocationFailed));
    assert_eq!(renderer.render(), before);
    assert_eq!(renderer.objects().capacity(), 64);
}

#[test]
fn setters_keep_what_they_do_not_set() {
    let mut renderer = renderer();
    renderer.update_time(16.0f32.to_bits());
    renderer.update_spheres(&vec![sphere([0.0; 3], 1.0, [1.0; 4])]).unwrap();
    renderer.finish_allocation(true).unwrap();
    renderer.update_camera(640, 480);
    let first = renderer.render();
    let second = renderer.render();
    assert_eq!(first, second);
    assert_eq!(first.camera, CameraUniform { width: 640, height: 480 });
    assert_eq!(first.time, TimeUniform { elapsed_ms: 16.0f32.to_bits() });
    assert_eq!(renderer.objects().len(), 1);
}

#[test]
fn pipeline_is_made_from_the_fixed_layout() {
    let renderer = renderer();
    let pipeline = renderer.pipeline();
    assert_eq!(pipeline.layout, [Slot::Camera, Slot::Time, Slot::Objects]);
    assert_eq!(pipeline.vertex_entry, "vs_main");
    assert_eq!(pipeline.fragment_entry, "fs_main");
    assert_eq!(pipeline.target, 7);
    assert!(!pipeline.zero_initialize_workgroup_memory);
    assert_eq!(pipeline.vertex_buffer.array_stride, 20);
    assert_eq!(
        pipeline.vertex_buffer.attributes,
        [
            VertexAttribute { offset: 0, shader_location: 0, format: VertexFormat::Float32x3 },
            VertexAttribute { offset: 12, shader_location: 1, format: VertexFormat::Float32x2 },
        ]
    );
}
