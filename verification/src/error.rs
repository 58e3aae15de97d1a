//! What can go wrong, and what the host does about it.

use vstd::prelude::*;

verus! {

/// Why the surface did not hand out a texture for the next frame.
#[derive(Clone, Copy, Debug, PartialEq, Eq)]
pub enum SurfaceError {
    /// The surface did not answer in time.
    Timeout,
    /// The surface has changed under its configuration.
    Outdated,
    /// The surface is gone and has to be configured anew.
    Lost,
    /// No memory is left for another frame.
    OutOfMemory,
}

/// Every failure the renderer reports.
#[derive(Clone, Copy, Debug, PartialEq, Eq)]
pub enum RendererError {
    /// No adapter can draw to the surface.
    AdapterUnavailable,
    /// The adapter lacks a feature the pipeline needs.
    DeviceCreationFailed,
    /// The device has no room for the object buffer.
    ResourceAllocationFailed,
    /// The surface is gone and has to be configured anew.
    SurfaceLost,
    /// The surface has changed under its configuration.
    SurfaceOutdated,
    /// The surface did not answer in time.
    SurfaceTimeout,
    /// No memory is left for another frame.
    SurfaceOutOfMemory,
}

/// What the host does after a failure.
#[derive(Clone, Copy, Debug, PartialEq, Eq)]
pub enum Recovery {
    /// Give up: report the failure and end the session.
    Abort,
    /// Keep the objects of the previous frame and go on.
    SkipUpload,
    /// Configure the surface again, draw nothing this tick.
    ReconfigureAndSkip,
    /// Draw nothing this tick and try again on the next.
    SkipAndRetry,
}

impl RendererError {
    /// The failure that a failed acquisition stands for.
    pub open spec fn of_surface(error: SurfaceError) -> RendererError {
        match error {
            SurfaceError::Timeout => RendererError::SurfaceTimeout,
            SurfaceError::Outdated => RendererError::SurfaceOutdated,
            SurfaceError::Lost => RendererError::SurfaceLost,
            SurfaceError::OutOfMemory => RendererError::SurfaceOutOfMemory,
        }
    }

    /// What the host does after this failure.
    pub open spec fn recovery_of(self) -> Recovery {
        match self {
            RendererError::AdapterUnavailable => Recovery::Abort,
            RendererError::DeviceCreationFailed => Recovery::Abort,
            RendererError::ResourceAllocationFailed => Recovery::SkipUpload,
            RendererError::SurfaceLost => Recovery::ReconfigureAndSkip,
            RendererError::SurfaceOutdated => Recovery::SkipAndRetry,
            RendererError::SurfaceTimeout => Recovery::SkipAndRetry,
            RendererError::SurfaceOutOfMemory => Recovery::Abort,
        }
    }

    /// Names a failed acquisition as a failure of the renderer.
    pub fn from_surface(error: SurfaceError) -> (out: RendererError)
        ensures
            out == RendererError::of_surface(error),
    {
        match error {
            SurfaceError::Timeout => RendererError::SurfaceTimeout,
            SurfaceError::Outdated => RendererError::SurfaceOutdated,
            SurfaceError::Lost => RendererError::SurfaceLost,
            SurfaceError::OutOfMemory => RendererError::SurfaceOutOfMemory,
        }
    }

    /// What the host does after this failure.
    pub fn recovery(&self) -> (out: Recovery)
        ensures
            out == self.recovery_of(),
    {
        match self {
            RendererError::AdapterUnavailable => Recovery::Abort,
            RendererError::DeviceCreationFailed => Recovery::Abort,
            RendererError::ResourceAllocationFailed => Recovery::SkipUpload,
            RendererError::SurfaceLost => Recovery::ReconfigureAndSkip,
            RendererError::SurfaceOutdated => Recovery::SkipAndRetry,
            RendererError::SurfaceTimeout => Recovery::SkipAndRetry,
            RendererError::SurfaceOutOfMemory => Recovery::Abort,
        }
    }

    /// Whether the session ends with this failure.
    pub fn is_fatal(&self) -> (out: bool)
        ensures
            out == (self.recovery_of() == Recovery::Abort),
    {
        match self {
            RendererError::AdapterUnavailable => true,
            RendererError::DeviceCreationFailed => true,
            RendererError::SurfaceOutOfMemory => true,
            _ => false,
        }
    }
}

} // verus!
