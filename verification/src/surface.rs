//! The surfaces that are drawn to: how each is configured, what happens when
//! its size changes, and what a tick does when the surface hands out a texture
//! or fails to.
//!
//! A render target is one window with its surface and a renderer of its own.
//! Its camera always shows the dimensions that the surface was last configured
//! with: the target keeps them in one place only.

use vstd::prelude::*;
use crate::error::RendererError;
use crate::error::SurfaceError;
use crate::layout::CameraUniform;
use crate::layout::Sphere;
use crate::pipeline::Adapter;
use crate::pipeline::Features;
use crate::renderer::BufferWrite;
use crate::renderer::Frame;
use crate::renderer::FrameModel;
use crate::renderer::Renderer;
use crate::renderer::RendererModel;
use crate::renderer::camera_write;
use crate::renderer::time_write;
use crate::layout::TimeUniform;
use crate::pipeline::Slot;
use crate::store::ObjectsUpdate;
use crate::store::Swap;
use crate::store::update_view;

verus! {

/// Frames that may be queued for the surface.
pub const FRAME_LATENCY: u32 = 2;

/// How the frames of a surface are timed against the display.
#[derive(Clone, Copy, Debug, PartialEq, Eq)]
pub enum PresentMode {
    /// Wait for the display where that can be had.
    AutoVsync,
    /// Do not wait for the display where that can be had.
    AutoNoVsync,
    /// Queue the frames and show one per refresh of the display.
    Fifo,
    /// As `Fifo`, but show a late frame at once.
    FifoRelaxed,
    /// Show every frame at once.
    Immediate,
    /// Keep only the newest frame for the next refresh.
    Mailbox,
}

/// What a surface can do on an adapter. Both lists are in the order of the
/// surface's preference; both are empty where the adapter cannot draw to the
/// surface at all.
#[derive(Debug, PartialEq, Eq)]
pub struct SurfaceCapabilities<F, A> {
    /// The texture formats that the surface takes.
    pub formats: Vec<F>,
    /// The ways in which the surface can blend with what lies behind it.
    pub alpha_modes: Vec<A>,
}

/// How a surface is configured.
#[derive(Debug, PartialEq, Eq)]
pub struct SurfaceConfiguration<F, A> {
    /// The format of the textures that the surface hands out.
    pub format: F,
    /// Width of the textures in pixels.
    pub width: u32,
    /// Height of the textures in pixels.
    pub height: u32,
    /// How the frames are timed against the display.
    pub present_mode: PresentMode,
    /// How the surface blends with what lies behind it.
    pub alpha_mode: A,
    /// Frames that may be queued for the surface.
    pub desired_maximum_frame_latency: u32,
}

impl<F: Copy, A: Copy> Copy for SurfaceConfiguration<F, A> {

}

impl<F: Copy, A: Copy> Clone for SurfaceConfiguration<F, A> {
    fn clone(&self) -> (out: Self)
        ensures
            out == *self,
    {
        *self
    }
}

impl<F, A> SurfaceConfiguration<F, A> {
    /// The configuration of a surface of the given size that offers `formats`
    /// and `alpha_modes`: the first of each, frames queued and shown one per
    /// refresh. There is none where either list is empty.
    pub open spec fn preferred(formats: Seq<F>, alpha_modes: Seq<A>, width: u32, height: u32)
        -> Option<SurfaceConfiguration<F, A>> {
        if formats.len() == 0 || alpha_modes.len() == 0 {
            None
        } else {
            Some(
                SurfaceConfiguration {
                    format: formats[0],
                    width,
                    height,
                    present_mode: PresentMode::Fifo,
                    alpha_mode: alpha_modes[0],
                    desired_maximum_frame_latency: FRAME_LATENCY,
                },
            )
        }
    }

    /// The configuration with another size.
    pub open spec fn resized(self, width: u32, height: u32) -> SurfaceConfiguration<F, A> {
        SurfaceConfiguration { width, height, ..self }
    }
}

impl<F: Copy, A: Copy> SurfaceConfiguration<F, A> {
    /// The configuration of a surface of the given size with the given
    /// capabilities, if there is one.
    pub fn new(capabilities: &SurfaceCapabilities<F, A>, width: u32, height: u32) -> (out: Option<
        SurfaceConfiguration<F, A>,
    >)
        ensures
            out == SurfaceConfiguration::preferred(
                capabilities.formats@,
                capabilities.alpha_modes@,
                width,
                height,
            ),
    {
        if capabilities.formats.len() == 0 || capabilities.alpha_modes.len() == 0 {
            return None;
        }
        Some(
            SurfaceConfiguration {
                format: capabilities.formats[0],
                width,
                height,
                present_mode: PresentMode::Fifo,
                alpha_mode: capabilities.alpha_modes[0],
                desired_maximum_frame_latency: FRAME_LATENCY,
            },
        )
    }
}

/// What the host has to do to bring a surface to a size: configure it, write
/// the camera, and, after a change of size, ask the window to draw again.
#[derive(Debug, PartialEq, Eq)]
pub struct Configure<F, A> {
    /// The configuration to apply to the surface.
    pub config: SurfaceConfiguration<F, A>,
    /// The write that brings the camera buffer to the same size.
    pub camera: BufferWrite,
    /// Whether to ask the window to draw again.
    pub redraw: bool,
}

/// What the host has to do to bring a surface to a size, as a mathematical
/// value.
pub struct ConfigureModel<F, A> {
    /// The configuration to apply to the surface.
    pub config: SurfaceConfiguration<F, A>,
    /// The write that brings the camera buffer to the same size.
    pub camera: (Slot, u64, Seq<u8>),
    /// Whether to ask the window to draw again.
    pub redraw: bool,
}

impl<F, A> View for Configure<F, A> {
    type V = ConfigureModel<F, A>;

    open spec fn view(&self) -> ConfigureModel<F, A> {
        ConfigureModel { config: self.config, camera: self.camera@, redraw: self.redraw }
    }
}

/// What a tick does with one render target.
#[derive(Debug, PartialEq, Eq)]
pub enum FrameStep<F, A> {
    /// The surface handed out a texture: draw the frame into it, submit, and
    /// present the texture.
    Render(Frame),
    /// The surface was lost: configure it again and draw nothing this tick.
    Reconfigure(Configure<F, A>),
    /// The surface was not ready: report why, draw nothing this tick, and try
    /// again on the next.
    Skip(RendererError),
}

/// What a tick does with one render target, as a mathematical value.
pub enum StepModel<F, A> {
    /// Draw the frame and present it.
    Render(FrameModel),
    /// Configure the surface again and draw nothing.
    Reconfigure(ConfigureModel<F, A>),
    /// Draw nothing and try again on the next tick.
    Skip(RendererError),
}

impl<F, A> View for FrameStep<F, A> {
    type V = StepModel<F, A>;

    open spec fn view(&self) -> StepModel<F, A> {
        match self {
            FrameStep::Render(frame) => StepModel::Render(frame@),
            FrameStep::Reconfigure(configure) => StepModel::Reconfigure(configure@),
            FrameStep::Skip(error) => StepModel::Skip(*error),
        }
    }
}

/// The answer to a tick as a mathematical value.
pub open spec fn step_view<F, A>(out: Result<FrameStep<F, A>, RendererError>) -> Result<
    StepModel<F, A>,
    RendererError,
> {
    match out {
        Ok(step) => Ok(step@),
        Err(error) => Err(error),
    }
}

/// A render target as a mathematical value.
pub struct TargetModel<F, A> {
    /// The window that the surface belongs to.
    pub window: u64,
    /// How the surface was last configured.
    pub config: SurfaceConfiguration<F, A>,
    /// The renderer that draws to the surface.
    pub renderer: RendererModel<F>,
}

impl<F, A> TargetModel<F, A> {
    /// Whether the renderer draws in the format of the surface and its camera
    /// shows the dimensions that the surface was last configured with.
    pub open spec fn agrees(self) -> bool {
        &&& self.renderer.format == self.config.format
        &&& self.renderer.camera == (CameraUniform {
            width: self.config.width,
            height: self.config.height,
        })
    }

    /// The render target for `window`, whose surface has the given size and
    /// offers `formats` and `alpha_modes`, on `adapter`.
    ///
    /// Without an adapter, or with one that cannot draw to the surface, there
    /// is `AdapterUnavailable`; with one that lacks a required feature,
    /// `DeviceCreationFailed`.
    pub open spec fn create(
        window: u64,
        adapter: Option<Adapter>,
        formats: Seq<F>,
        alpha_modes: Seq<A>,
        width: u32,
        height: u32,
    ) -> Result<TargetModel<F, A>, RendererError> {
        match (adapter, SurfaceConfiguration::preferred(formats, alpha_modes, width, height)) {
            (Some(adapter), Some(config)) => {
                if adapter.features.includes(Features::required_features()) {
                    Ok(
                        TargetModel {
                            window,
                            config,
                            renderer: RendererModel::initial(config.format).update_camera(
                                width,
                                height,
                            ),
                        },
                    )
                } else {
                    Err(RendererError::DeviceCreationFailed)
                }
            },
            _ => Err(RendererError::AdapterUnavailable),
        }
    }

    /// What the host has to do to bring the surface to a size.
    pub open spec fn configure(self, width: u32, height: u32, redraw: bool) -> ConfigureModel<
        F,
        A,
    > {
        ConfigureModel {
            config: self.config.resized(width, height),
            camera: camera_write(CameraUniform { width, height }),
            redraw,
        }
    }

    /// The render target after its surface has been brought to a size.
    pub open spec fn resize(self, width: u32, height: u32) -> TargetModel<F, A> {
        TargetModel {
            config: self.config.resized(width, height),
            renderer: self.renderer.update_camera(width, height),
            ..self
        }
    }

    /// What a tick does with the render target, given what came of acquiring a
    /// texture and the size of the window at that moment.
    pub open spec fn step(self, acquired: Result<(), SurfaceError>, width: u32, height: u32)
        -> Result<StepModel<F, A>, RendererError> {
        match acquired {
            Ok(_) => Ok(StepModel::Render(self.renderer.frame())),
            Err(SurfaceError::Lost) => Ok(
                StepModel::Reconfigure(self.configure(width, height, true)),
            ),
            Err(SurfaceError::OutOfMemory) => Err(RendererError::SurfaceOutOfMemory),
            Err(SurfaceError::Outdated) => Ok(StepModel::Skip(RendererError::SurfaceOutdated)),
            Err(SurfaceError::Timeout) => Ok(StepModel::Skip(RendererError::SurfaceTimeout)),
        }
    }

    /// The render target after a tick.
    pub open spec fn after(self, acquired: Result<(), SurfaceError>, width: u32, height: u32)
        -> TargetModel<F, A> {
        match acquired {
            Err(SurfaceError::Lost) => self.resize(width, height),
            _ => self,
        }
    }
}

/// One window with its surface and its renderer.
pub struct RenderTarget<F, A> {
    window: u64,
    present_mode: PresentMode,
    alpha_mode: A,
    latency: u32,
    renderer: Renderer<F>,
}

impl<F, A> View for RenderTarget<F, A> {
    type V = TargetModel<F, A>;

    closed spec fn view(&self) -> TargetModel<F, A> {
        TargetModel {
            window: self.window,
            config: SurfaceConfiguration {
                format: self.renderer@.format,
                width: self.renderer@.camera.width,
                height: self.renderer@.camera.height,
                present_mode: self.present_mode,
                alpha_mode: self.alpha_mode,
                desired_maximum_frame_latency: self.latency,
            },
            renderer: self.renderer@,
        }
    }
}

impl<F: Copy, A: Copy> RenderTarget<F, A> {
    /// The renderer of every render target draws in the format of the surface,
    /// and its camera shows the dimensions that the surface was last
    /// configured with.
    pub proof fn lemma_camera_shows_surface(self)
        ensures
            self@.agrees(),
    {
    }

    /// A render target for `window`, whose surface has the given size and
    /// capabilities, on `adapter`, together with what the host has to do to
    /// configure the surface.
    pub fn new(
        window: u64,
        adapter: Option<&Adapter>,
        capabilities: &SurfaceCapabilities<F, A>,
        width: u32,
        height: u32,
    ) -> (out: Result<(RenderTarget<F, A>, Configure<F, A>), RendererError>)
        ensures
            ({
                let model = TargetModel::create(
                    window,
                    match adapter {
                        Some(adapter) => Some(*adapter),
                        None => None,
                    },
                    capabilities.formats@,
                    capabilities.alpha_modes@,
                    width,
                    height,
                );
                match out {
                    Ok((target, configure)) => {
                        &&& model == Ok::<TargetModel<F, A>, RendererError>(target@)
                        &&& configure@ == target@.configure(width, height, false)
                        &&& target@.renderer.wf()
                    },
                    Err(error) => model == Err::<TargetModel<F, A>, RendererError>(error),
                }
            }),
    {
        let adapter = match adapter {
            Some(adapter) => adapter,
            None => {
                return Err(RendererError::AdapterUnavailable);
            },
        };
        let config = match SurfaceConfiguration::new(capabilities, width, height) {
            Some(config) => config,
            None => {
                return Err(RendererError::AdapterUnavailable);
            },
        };
        let mut renderer = match Renderer::new(adapter, config.format) {
            Ok(renderer) => renderer,
            Err(error) => {
                return Err(error);
            },
        };
        let camera = renderer.update_camera(width, height);
        let target = RenderTarget {
            window,
            present_mode: config.present_mode,
            alpha_mode: config.alpha_mode,
            latency: config.desired_maximum_frame_latency,
            renderer,
        };
        Ok((target, Configure { config, camera, redraw: false }))
    }

    /// The window that the surface belongs to.
    pub fn window(&self) -> (out: u64)
        ensures
            out == self@.window,
    {
        self.window
    }

    /// How the surface was last configured.
    pub fn config(&self) -> (out: SurfaceConfiguration<F, A>)
        ensures
            out == self@.config,
    {
        let camera = self.renderer.camera();
        SurfaceConfiguration {
            format: self.renderer.format(),
            width: camera.width,
            height: camera.height,
            present_mode: self.present_mode,
            alpha_mode: self.alpha_mode,
            desired_maximum_frame_latency: self.latency,
        }
    }

    /// The renderer that draws to the surface.
    pub fn renderer(&self) -> (out: &Renderer<F>)
        ensures
            out@ == self@.renderer,
    {
        &self.renderer
    }

    /// Brings the surface to a new size: sets the camera, and hands back the
    /// configuration to apply, the write for the camera buffer, and the request
    /// to draw the window again.
    pub fn resize(&mut self, width: u32, height: u32) -> (out: Configure<F, A>)
        ensures
            final(self)@ == old(self)@.resize(width, height),
            out@ == old(self)@.configure(width, height, true),
    {
        let camera = self.renderer.update_camera(width, height);
        Configure { config: self.config(), camera, redraw: true }
    }

    /// Sets the time of the renderer.
    pub fn update_time(&mut self, elapsed_ms: u32) -> (out: BufferWrite)
        ensures
            final(self)@ == (TargetModel {
                renderer: old(self)@.renderer.update_time(elapsed_ms),
                ..old(self)@
            }),
            out@ == time_write(TimeUniform { elapsed_ms }),
    {
        self.renderer.update_time(elapsed_ms)
    }

    /// Hands a scene to the renderer.
    pub fn update_spheres(&mut self, spheres: &[Sphere]) -> (out: Result<
        ObjectsUpdate,
        RendererError,
    >)
        ensures
            final(self)@ == (TargetModel {
                renderer: old(self)@.renderer.update_spheres(spheres@),
                ..old(self)@
            }),
            update_view(out) == old(self)@.renderer.objects.staged_update(spheres@),
    {
        self.renderer.update_spheres(spheres)
    }

    /// Takes the host's report on the object buffer that the last update asked
    /// for.
    pub fn finish_allocation(&mut self, allocated: bool) -> (out: Result<
        Option<Swap>,
        RendererError,
    >)
        ensures
            final(self)@ == (TargetModel {
                renderer: old(self)@.renderer.finish_allocation(allocated),
                ..old(self)@
            }),
            out == old(self)@.renderer.objects.installed(allocated),
    {
        self.renderer.finish_allocation(allocated)
    }

    /// Does one tick for the render target, given what came of acquiring the
    /// next texture of the surface and the size of the window at that moment.
    ///
    /// With a texture in hand the frame is drawn. A lost surface is brought to
    /// the size of the window and nothing is drawn. A surface that is outdated
    /// or timed out is left alone and nothing is drawn. Only a surface that is
    /// out of memory is a failure: `SurfaceOutOfMemory`.
    pub fn render(&mut self, acquired: Result<(), SurfaceError>, width: u32, height: u32) -> (out:
        Result<FrameStep<F, A>, RendererError>)
        ensures
            final(self)@ == old(self)@.after(acquired, width, height),
            step_view(out) == old(self)@.step(acquired, width, height),
    {
        match acquired {
            Ok(_) => Ok(FrameStep::Render(self.renderer.render())),
            Err(SurfaceError::Lost) => Ok(FrameStep::Reconfigure(self.resize(width, height))),
            Err(SurfaceError::OutOfMemory) => Err(RendererError::SurfaceOutOfMemory),
            Err(SurfaceError::Outdated) => Ok(FrameStep::Skip(RendererError::SurfaceOutdated)),
            Err(SurfaceError::Timeout) => Ok(FrameStep::Skip(RendererError::SurfaceTimeout)),
        }
    }
}

/// Every acquisition is answered in exactly one of four ways, the one that the
/// failure calls for: a texture is drawn to; a lost surface is configured
/// again and the frame skipped; a surface that is outdated or timed out is
/// skipped and tried again; a surface out of memory ends the session.
pub proof fn lemma_step_follows_recovery<F, A>(
    target: TargetModel<F, A>,
    acquired: Result<(), SurfaceError>,
    width: u32,
    height: u32,
)
    ensures
        acquired is Ok <==> target.step(acquired, width, height) matches Ok(StepModel::Render(_)),
        match acquired {
            Ok(_) => true,
            Err(error) => match RendererError::of_surface(error).recovery_of() {
                crate::error::Recovery::ReconfigureAndSkip => target.step(
                    acquired,
                    width,
                    height,
                ) matches Ok(StepModel::Reconfigure(_)),
                crate::error::Recovery::SkipAndRetry => target.step(acquired, width, height)
                    == Ok::<StepModel<F, A>, RendererError>(
                    StepModel::Skip(RendererError::of_surface(error)),
                ),
                crate::error::Recovery::Abort => target.step(acquired, width, height) == Err::<
                    StepModel<F, A>,
                    RendererError,
                >(RendererError::of_surface(error)),
                crate::error::Recovery::SkipUpload => false,
            },
        },
{
}

/// A lost surface is configured again, at the size of the window, before the
/// tick returns, and the camera is brought to the same size.
pub proof fn lemma_lost_surface_is_reconfigured<F, A>(
    target: TargetModel<F, A>,
    width: u32,
    height: u32,
)
    ensures
        ({
            let lost = Err::<(), SurfaceError>(SurfaceError::Lost);
            let after = target.after(lost, width, height);
            &&& target.step(lost, width, height) == Ok::<StepModel<F, A>, RendererError>(
                StepModel::Reconfigure(target.configure(width, height, true)),
            )
            &&& target.configure(width, height, true).config == after.config
            &&& after.config.width == width
            &&& after.config.height == height
            &&& after.config.format == target.config.format
            &&& after.renderer.camera == (CameraUniform { width, height })
            &&& target.agrees() ==> after.agrees()
        }),
{
}

/// A tick that does not find the surface lost leaves the render target as it
/// was: after a transient failure the next tick starts from the same state.
pub proof fn lemma_other_ticks_change_nothing<F, A>(
    target: TargetModel<F, A>,
    acquired: Result<(), SurfaceError>,
    width: u32,
    height: u32,
)
    requires
        acquired != Err::<(), SurfaceError>(SurfaceError::Lost),
    ensures
        target.after(acquired, width, height) == target,
{
}

} // verus!
