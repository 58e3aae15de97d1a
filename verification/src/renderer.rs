//! The renderer: the two uniforms, the object store, and the frame drawn from
//! them.
//!
//! The three setters may be called in any order and any number of times before
//! a frame; none of them draws. What they set stays until it is set again.

use vstd::prelude::*;
use crate::error::RendererError;
use crate::frame::BindGroup;
use crate::frame::Color;
use crate::frame::PassCommand;
use crate::frame::background;
use crate::frame::clear_color;
use crate::frame::pass;
use crate::frame::pass_commands;
use crate::layout::CameraUniform;
use crate::layout::Sphere;
use crate::layout::TimeUniform;
use crate::layout::Vertex;
use crate::layout::indices_bytes;
use crate::layout::spheres_bytes;
use crate::layout::vertices_bytes;
use crate::pipeline::Adapter;
use crate::pipeline::BindGroupLayoutEntry;
use crate::pipeline::BufferInit;
use crate::pipeline::BufferUsages;
use crate::pipeline::Features;
use crate::pipeline::Slot;
use crate::pipeline::VertexBufferLayout;
use crate::pipeline::FRAGMENT_ENTRY;
use crate::pipeline::VERTEX_ENTRY;
use crate::pipeline::index_buffer;
use crate::pipeline::pipeline_layout;
use crate::pipeline::quad;
use crate::pipeline::quad_triangles;
use crate::pipeline::slots;
use crate::pipeline::vertex_buffer;
use crate::store::ObjectStore;
use crate::store::ObjectsUpdate;
use crate::store::StoreModel;
use crate::store::Swap;
use crate::store::UpdateStep;
use crate::store::update_view;

verus! {

/// A write from the host into the buffer behind a slot.
#[derive(Debug, PartialEq, Eq)]
pub struct BufferWrite {
    /// The slot whose buffer is written.
    pub slot: Slot,
    /// Where in the buffer the write begins, in bytes.
    pub offset: u64,
    /// The bytes to write.
    pub data: Vec<u8>,
}

/// What the render pipeline is made from.
#[derive(Debug, PartialEq, Eq)]
pub struct RenderPipelineDescriptor<F> {
    /// The slots in the order of the pipeline layout.
    pub layout: [Slot; 3],
    /// Entry point of the vertex stage in the shading program.
    pub vertex_entry: &'static str,
    /// Entry point of the fragment stage in the shading program.
    pub fragment_entry: &'static str,
    /// How the vertex buffer is cut into vertices and attributes.
    pub vertex_buffer: VertexBufferLayout,
    /// The format of the texture that the fragment stage draws to.
    pub target: F,
    /// Whether memory shared by a workgroup starts out as zero.
    pub zero_initialize_workgroup_memory: bool,
}

/// What the host creates on the device for a renderer, once, before the first
/// frame. The object buffer is not among it: it comes with the first scene.
#[derive(Debug, PartialEq, Eq)]
pub struct DeviceSetup<F> {
    /// The features to ask the device for.
    pub required_features: Features,
    /// The vertex buffer of the full-screen quad.
    pub vertex_buffer: BufferInit,
    /// The index buffer of the full-screen quad.
    pub index_buffer: BufferInit,
    /// The camera buffer.
    pub camera_buffer: BufferInit,
    /// The time buffer.
    pub time_buffer: BufferInit,
    /// The bind group layout of every slot, in the order of the pipeline layout.
    pub bind_group_layouts: [BindGroupLayoutEntry; 3],
    /// What the render pipeline is made from.
    pub pipeline: RenderPipelineDescriptor<F>,
}

/// One frame: the clear of the target, what the pass does after it, and what
/// the shading program reads while it runs.
#[derive(Debug, PartialEq, Eq)]
pub struct Frame {
    /// The colour that the target is cleared to.
    pub clear: Color,
    /// The commands of the pass, in order.
    pub commands: Vec<PassCommand>,
    /// The camera uniform that the pass reads.
    pub camera: CameraUniform,
    /// The time uniform that the pass reads.
    pub time: TimeUniform,
}

/// A frame as a mathematical value.
pub struct FrameModel {
    /// The colour that the target is cleared to.
    pub clear: Color,
    /// The commands of the pass, in order.
    pub commands: Seq<PassCommand>,
    /// The camera uniform that the pass reads.
    pub camera: CameraUniform,
    /// The time uniform that the pass reads.
    pub time: TimeUniform,
}

impl View for Frame {
    type V = FrameModel;

    open spec fn view(&self) -> FrameModel {
        FrameModel {
            clear: self.clear,
            commands: self.commands@,
            camera: self.camera,
            time: self.time,
        }
    }
}

/// The renderer as a mathematical value.
pub struct RendererModel<F> {
    /// The format of the texture that the pipeline draws to.
    pub format: F,
    /// What the camera buffer holds.
    pub camera: CameraUniform,
    /// What the time buffer holds.
    pub time: TimeUniform,
    /// The object store.
    pub objects: StoreModel,
}

impl<F> RendererModel<F> {
    /// The renderer as it is made: a camera of one pixel by one, the time at
    /// zero, no objects.
    pub open spec fn initial(format: F) -> RendererModel<F> {
        RendererModel {
            format,
            camera: CameraUniform { width: 1, height: 1 },
            time: TimeUniform { elapsed_ms: 0 },
            objects: StoreModel::empty(),
        }
    }

    /// What holds of every renderer: its object store is well formed.
    pub open spec fn wf(self) -> bool {
        self.objects.wf()
    }

    /// The renderer after the camera has been set.
    pub open spec fn update_camera(self, width: u32, height: u32) -> RendererModel<F> {
        RendererModel { camera: CameraUniform { width, height }, ..self }
    }

    /// The renderer after the time has been set.
    pub open spec fn update_time(self, elapsed_ms: u32) -> RendererModel<F> {
        RendererModel { time: TimeUniform { elapsed_ms }, ..self }
    }

    /// The renderer after a scene has been handed to it.
    pub open spec fn update_spheres(self, spheres: Seq<Sphere>) -> RendererModel<F> {
        RendererModel { objects: self.objects.stage(spheres), ..self }
    }

    /// The renderer after the host has reported on the pending object buffer.
    pub open spec fn finish_allocation(self, allocated: bool) -> RendererModel<F> {
        RendererModel { objects: self.objects.install(allocated), ..self }
    }

    /// The frame that the renderer draws.
    pub open spec fn frame(self) -> FrameModel {
        FrameModel {
            clear: background(),
            commands: pass(self.objects.bound),
            camera: self.camera,
            time: self.time,
        }
    }

    /// The bytes of the object records that the frame reads.
    pub open spec fn drawn_objects(self) -> Seq<u8> {
        self.objects.contents()
    }
}

/// The write that puts a camera uniform into its buffer: all of it, from the
/// start.
pub open spec fn camera_write(camera: CameraUniform) -> (Slot, u64, Seq<u8>) {
    (Slot::Camera, 0u64, camera.bytes())
}

/// The write that puts a time uniform into its buffer: all of it, from the
/// start.
pub open spec fn time_write(time: TimeUniform) -> (Slot, u64, Seq<u8>) {
    (Slot::Time, 0u64, time.bytes())
}

impl View for BufferWrite {
    type V = (Slot, u64, Seq<u8>);

    open spec fn view(&self) -> (Slot, u64, Seq<u8>) {
        (self.slot, self.offset, self.data@)
    }
}

/// The renderer.
pub struct Renderer<F> {
    format: F,
    camera: CameraUniform,
    time: TimeUniform,
    objects: ObjectStore,
}

impl<F> View for Renderer<F> {
    type V = RendererModel<F>;

    closed spec fn view(&self) -> RendererModel<F> {
        RendererModel {
            format: self.format,
            camera: self.camera,
            time: self.time,
            objects: self.objects@,
        }
    }
}

impl<F: Copy> Renderer<F> {
    /// A renderer for the device that `adapter` offers, drawing to textures of
    /// `swapchain_format`. What the host creates on the device for it is in
    /// `setup`.
    ///
    /// Fails with `DeviceCreationFailed` exactly when the adapter lacks one of
    /// the required features.
    pub fn new(adapter: &Adapter, swapchain_format: F) -> (out: Result<Renderer<F>, RendererError>)
        ensures
            match out {
                Ok(renderer) => {
                    &&& adapter.features.includes(Features::required_features())
                    &&& renderer@ == RendererModel::initial(swapchain_format)
                },
                Err(error) => {
                    &&& !adapter.features.includes(Features::required_features())
                    &&& error == RendererError::DeviceCreationFailed
                },
            },
    {
        let required = Features::required();
        if !adapter.features.contains(&required) {
            return Err(RendererError::DeviceCreationFailed);
        }
        Ok(
            Renderer {
                format: swapchain_format,
                camera: CameraUniform { width: 1, height: 1 },
                time: TimeUniform { elapsed_ms: 0 },
                objects: ObjectStore::new(),
            },
        )
    }

    /// The format of the texture that the pipeline draws to.
    pub fn format(&self) -> (out: F)
        ensures
            out == self@.format,
    {
        self.format
    }

    /// What the camera buffer holds.
    pub fn camera(&self) -> (out: CameraUniform)
        ensures
            out == self@.camera,
    {
        self.camera
    }

    /// What the time buffer holds.
    pub fn time(&self) -> (out: TimeUniform)
        ensures
            out == self@.time,
    {
        self.time
    }

    /// The object store. It is well formed, as every store is.
    pub fn objects(&self) -> (out: &ObjectStore)
        ensures
            out@ == self@.objects,
            self@.wf(),
    {
        proof {
            use_type_invariant(&self.objects);
        }
        &self.objects
    }

    /// What the render pipeline is made from: the slots in their order, the two
    /// entry points, the layout of the quad's vertices, and the format to draw
    /// to.
    pub fn pipeline(&self) -> (out: RenderPipelineDescriptor<F>)
        ensures
            out.layout@ == slots(),
            out.vertex_entry@ == VERTEX_ENTRY@,
            out.fragment_entry@ == FRAGMENT_ENTRY@,
            out.vertex_buffer == Vertex::layout(),
            out.target == self@.format,
            !out.zero_initialize_workgroup_memory,
    {
        RenderPipelineDescriptor {
            layout: pipeline_layout(),
            vertex_entry: VERTEX_ENTRY,
            fragment_entry: FRAGMENT_ENTRY,
            vertex_buffer: Vertex::descriptor(),
            target: self.format,
            zero_initialize_workgroup_memory: false,
        }
    }

    /// Everything the host creates on the device for the renderer: the device
    /// with the required features, the static geometry, the two uniform
    /// buffers holding what is set now, a bind group layout for every slot, and
    /// the pipeline.
    pub fn setup(&self) -> (out: DeviceSetup<F>)
        ensures
            out.required_features == Features::required_features(),
            out.vertex_buffer.contents@ == vertices_bytes(quad()),
            out.vertex_buffer.usage == (BufferUsages {
                vertex: true,
                index: false,
                uniform: false,
                storage: false,
                copy_dst: false,
            }),
            out.index_buffer.contents@ == indices_bytes(quad_triangles()),
            out.index_buffer.usage == (BufferUsages {
                vertex: false,
                index: true,
                uniform: false,
                storage: false,
                copy_dst: false,
            }),
            out.camera_buffer.contents@ == self@.camera.bytes(),
            out.camera_buffer.usage == Slot::Camera.usages(),
            out.time_buffer.contents@ == self@.time.bytes(),
            out.time_buffer.usage == Slot::Time.usages(),
            out.bind_group_layouts@ == slots().map_values(|slot: Slot| slot.layout()),
            out.pipeline.layout@ == slots(),
            out.pipeline.vertex_entry@ == VERTEX_ENTRY@,
            out.pipeline.fragment_entry@ == FRAGMENT_ENTRY@,
            out.pipeline.vertex_buffer == Vertex::layout(),
            out.pipeline.target == self@.format,
            !out.pipeline.zero_initialize_workgroup_memory,
    {
        let bind_group_layouts = [
            Slot::Camera.layout_entry(),
            Slot::Time.layout_entry(),
            Slot::Objects.layout_entry(),
        ];
        assert(bind_group_layouts@ =~= slots().map_values(|slot: Slot| slot.layout()));
        DeviceSetup {
            required_features: Features::required(),
            vertex_buffer: vertex_buffer(),
            index_buffer: index_buffer(),
            camera_buffer: self.camera_buffer(),
            time_buffer: self.time_buffer(),
            bind_group_layouts,
            pipeline: self.pipeline(),
        }
    }

    /// The camera buffer to create, holding the camera as it is set now.
    pub fn camera_buffer(&self) -> (out: BufferInit)
        ensures
            out.contents@ == self@.camera.bytes(),
            out.usage == Slot::Camera.usages(),
    {
        BufferInit { contents: self.camera.to_bytes(), usage: Slot::Camera.buffer_usages() }
    }

    /// The time buffer to create, holding the time as it is set now.
    pub fn time_buffer(&self) -> (out: BufferInit)
        ensures
            out.contents@ == self@.time.bytes(),
            out.usage == Slot::Time.usages(),
    {
        BufferInit { contents: self.time.to_bytes(), usage: Slot::Time.buffer_usages() }
    }

    /// Sets the camera to the dimensions of the surface and hands back the
    /// write that overwrites the whole camera buffer with them.
    pub fn update_camera(&mut self, width: u32, height: u32) -> (out: BufferWrite)
        ensures
            final(self)@ == old(self)@.update_camera(width, height),
            out@ == camera_write(CameraUniform { width, height }),
    {
        self.camera = CameraUniform { width, height };
        BufferWrite { slot: Slot::Camera, offset: 0, data: self.camera.to_bytes() }
    }

    /// Sets the time, given as a single-precision bit pattern in milliseconds,
    /// and hands back the write that overwrites the whole time buffer with it.
    pub fn update_time(&mut self, elapsed_ms: u32) -> (out: BufferWrite)
        ensures
            final(self)@ == old(self)@.update_time(elapsed_ms),
            out@ == time_write(TimeUniform { elapsed_ms }),
    {
        self.time = TimeUniform { elapsed_ms };
        BufferWrite { slot: Slot::Time, offset: 0, data: self.time.to_bytes() }
    }

    /// Hands the scene to the object store and says what the host has to do.
    ///
    /// Fails with `ResourceAllocationFailed` exactly when the store refuses the
    /// scene; the renderer is then as it was.
    pub fn update_spheres(&mut self, spheres: &[Sphere]) -> (out: Result<
        ObjectsUpdate,
        RendererError,
    >)
        ensures
            final(self)@ == old(self)@.update_spheres(spheres@),
            update_view(out) == old(self)@.objects.staged_update(spheres@),
    {
        self.objects.stage(spheres)
    }

    /// Takes the host's report on the object buffer that the last update asked
    /// for.
    ///
    /// Fails with `ResourceAllocationFailed` exactly when a buffer was pending
    /// and the device did not make it; the renderer then draws the objects it
    /// drew before.
    pub fn finish_allocation(&mut self, allocated: bool) -> (out: Result<
        Option<Swap>,
        RendererError,
    >)
        ensures
            final(self)@ == old(self)@.finish_allocation(allocated),
            out == old(self)@.objects.installed(allocated),
    {
        self.objects.install(allocated)
    }

    /// The next frame. With no buffer behind the objects slot the frame clears
    /// the target and does nothing else: it binds nothing at the slot and does
    /// not draw.
    pub fn render(&self) -> (out: Frame)
        ensures
            out@ == self@.frame(),
    {
        Frame {
            clear: clear_color(),
            commands: pass_commands(self.objects.bound()),
            camera: self.camera,
            time: self.time,
        }
    }
}

/// The camera that a frame reads is the one that was set last, all of it: a
/// write of the camera starts at the beginning of its buffer and covers it.
pub proof fn lemma_camera_last_write_wins<F>(
    renderer: RendererModel<F>,
    first: CameraUniform,
    last: CameraUniform,
)
    ensures
        renderer.update_camera(first.width, first.height).frame().camera == first,
        renderer.update_camera(first.width, first.height).update_camera(last.width, last.height)
            == renderer.update_camera(last.width, last.height),
        renderer.update_camera(first.width, first.height).update_camera(
            last.width,
            last.height,
        ).frame().camera == last,
        camera_write(last).1 == 0,
        camera_write(last).2.len() == crate::layout::CAMERA_SIZE,
{
}

/// The time that a frame reads is the one that was set last, all of it: a write
/// of the time starts at the beginning of its buffer and covers it.
pub proof fn lemma_time_last_write_wins<F>(renderer: RendererModel<F>, first: u32, last: u32)
    ensures
        renderer.update_time(first).frame().time == (TimeUniform { elapsed_ms: first }),
        renderer.update_time(first).update_time(last) == renderer.update_time(last),
        time_write(TimeUniform { elapsed_ms: last }).1 == 0,
        time_write(TimeUniform { elapsed_ms: last }).2.len() == crate::layout::TIME_SIZE,
{
}

/// The setters can be called in any order: each changes what the others leave
/// alone.
pub proof fn lemma_setters_in_any_order<F>(
    renderer: RendererModel<F>,
    camera: CameraUniform,
    elapsed_ms: u32,
    spheres: Seq<Sphere>,
)
    ensures
        renderer.update_camera(camera.width, camera.height).update_time(elapsed_ms)
            == renderer.update_time(elapsed_ms).update_camera(camera.width, camera.height),
        renderer.update_camera(camera.width, camera.height).update_spheres(spheres)
            == renderer.update_spheres(spheres).update_camera(camera.width, camera.height),
        renderer.update_time(elapsed_ms).update_spheres(spheres) == renderer.update_spheres(
            spheres,
        ).update_time(elapsed_ms),
{
}

/// No frame binds what is not there: every command of every frame that binds
/// something at the objects slot binds the buffer that stands behind it, and
/// the frame of a renderer with no object buffer, be it new, after an empty
/// scene or after an allocation that failed, clears the target and has no
/// command: it binds nothing at the objects slot and draws nothing.
pub proof fn lemma_frame_binds_no_missing_buffer<F>(renderer: RendererModel<F>, i: int)
    requires
        0 <= i < renderer.frame().commands.len(),
    ensures
        renderer.objects.bound is Some,
        renderer.frame().commands[i].binds_objects() ==> renderer.frame().commands[i] == (
        PassCommand::SetBindGroup {
            index: Slot::Objects.group(),
            group: BindGroup::Objects(renderer.objects.bound.unwrap()),
        }),
        renderer.frame().clear == background(),
{
    crate::frame::lemma_pass_binds_no_missing_buffer(renderer.objects.bound, i);
}

/// A renderer that never had a scene draws nothing, before and after any
/// number of empty scenes and after a first allocation that failed.
pub proof fn lemma_frame_without_objects_only_clears<F>(
    format: F,
    empty: Seq<Sphere>,
    spheres: Seq<Sphere>,
)
    requires
        empty.len() == 0,
    ensures
        RendererModel::initial(format).frame().commands.len() == 0,
        RendererModel::initial(format).update_spheres(empty).frame().commands.len() == 0,
        RendererModel::initial(format).update_spheres(spheres).frame().commands.len() == 0,
        RendererModel::initial(format).update_spheres(spheres).finish_allocation(
            false,
        ).frame().commands.len() == 0,
        RendererModel::initial(format).frame().clear == background(),
{
}

/// After an empty scene the renderer is as it was and draws the frame it drew
/// before: where a buffer stood behind the objects slot, the pass binds that
/// buffer again; where none stood there, the pass binds nothing at the slot
/// and draws nothing.
pub proof fn lemma_empty_scene_draws_as_before<F>(renderer: RendererModel<F>, spheres: Seq<Sphere>)
    requires
        spheres.len() == 0,
    ensures
        renderer.update_spheres(spheres) == renderer,
        renderer.update_spheres(spheres).frame() == renderer.frame(),
        renderer.update_spheres(spheres).drawn_objects() == renderer.drawn_objects(),
        match renderer.objects.bound {
            Some(buffer) => renderer.update_spheres(spheres).frame().commands[3] == (
            PassCommand::SetBindGroup {
                index: Slot::Objects.group(),
                group: BindGroup::Objects(buffer),
            }),
            None => renderer.update_spheres(spheres).frame().commands.len() == 0,
        },
{
}

/// Once an update of at least one record has gone through, the frame reads
/// exactly the records of the scene, in their order, from a buffer that has
/// room for them and no more. Where the buffer had to be replaced, no command
/// of the frame names the old one.
pub proof fn lemma_update_is_drawn<F>(renderer: RendererModel<F>, spheres: Seq<Sphere>)
    requires
        renderer.wf(),
        spheres.len() > 0,
        !renderer.objects.refuses(spheres.len()),
    ensures
        ({
            let after = renderer.update_spheres(spheres).finish_allocation(true);
            &&& after.wf()
            &&& after.drawn_objects() == spheres_bytes(spheres)
            &&& after.drawn_objects().len() == 32 * spheres.len()
            &&& after.objects.bound is Some
            &&& after.objects.bound.unwrap().capacity == 32 * spheres.len()
            &&& after.frame().commands[3].names() == after.objects.bound
            &&& renderer.objects.bound is Some && !renderer.objects.fits(spheres.len())
                ==> forall|i: int|
                0 <= i < after.frame().commands.len() ==> (
                #[trigger] after.frame().commands[i]).names() != renderer.objects.bound
        }),
{
    crate::store::lemma_update_sizes_buffer(renderer.objects, spheres);
}

/// A buffer that has been replaced is never drawn from again: whatever updates
/// follow and however they go, no command of any later frame names it.
pub proof fn lemma_replaced_buffer_is_never_drawn<F>(
    renderer: RendererModel<F>,
    spheres: Seq<Sphere>,
    steps: Seq<UpdateStep>,
)
    requires
        renderer.wf(),
        renderer.objects.bound is Some,
        spheres.len() > 0,
        !renderer.objects.refuses(spheres.len()),
        !renderer.objects.fits(spheres.len()),
    ensures
        ({
            let replaced = renderer.update_spheres(spheres).finish_allocation(true);
            let later = RendererModel { objects: replaced.objects.replay(steps), ..replaced };
            forall|i: int|
                0 <= i < later.frame().commands.len() ==> !((
                #[trigger] later.frame().commands[i]).names() matches Some(b) && b.id
                    == renderer.objects.bound.unwrap().id)
        }),
{
    let replaced = renderer.update_spheres(spheres).finish_allocation(true);
    crate::store::lemma_update_sizes_buffer(renderer.objects, spheres);
    crate::store::lemma_steps_keep_well_formed(renderer.objects, spheres, true);
    crate::store::lemma_replacement_is_named_later(renderer.objects.stage(spheres));
    crate::store::lemma_replay_keeps_released_buffer_out(
        replaced.objects,
        renderer.objects.bound.unwrap().id,
        steps,
    );
}

/// Until the host reports that the new buffer stands, and when it reports that
/// the device did not make it, the frame is drawn from the buffer that was
/// bound before the update.
pub proof fn lemma_unfinished_update_is_not_drawn<F>(
    renderer: RendererModel<F>,
    spheres: Seq<Sphere>,
)
    requires
        renderer.wf(),
        !renderer.objects.fits(spheres.len()),
    ensures
        renderer.update_spheres(spheres).frame() == renderer.frame(),
        renderer.update_spheres(spheres).drawn_objects() == renderer.drawn_objects(),
        renderer.update_spheres(spheres).finish_allocation(false).frame() == renderer.frame(),
        renderer.update_spheres(spheres).finish_allocation(false).drawn_objects()
            == renderer.drawn_objects(),
{
}

} // verus!
