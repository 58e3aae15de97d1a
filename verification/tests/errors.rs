use sphere_renderer::error::Recovery;
use sphere_renderer::error::RendererError;
use sphere_renderer::error::SurfaceError;
use sphere_renderer::frame::clear_color;
use sphere_renderer::frame::pass_commands;
use sphere_renderer::frame::Pacer;
use sphere_renderer::frame::PassCommand;
use sphere_renderer::frame::UPDATE_INTERVAL;
use sphere_renderer::store::ObjectBuffer;

#[test]
fn start_up_failures_abort() {
    assert_eq!(RendererError::AdapterUnavailable.recovery(), Recovery::Abort);
    assert_eq!(RendererError::DeviceCreationFailed.recovery(), Recovery::Abort);
    assert!(RendererError::AdapterUnavailable.is_fatal());
    assert!(RendererError::DeviceCreationFailed.is_fatal());
}

#[test]
fn failed_allocation_skips_the_upload() {
    assert_eq!(RendererError::ResourceAllocationFailed.recovery(), Recovery::SkipUpload);
    assert!(!RendererError::ResourceAllocationFailed.is_fatal());
}

#[test]
fn surface_failures_are_named_and_answered() {
    let cases = [
        (SurfaceError::Lost, RendererError::SurfaceLost, Recovery::ReconfigureAndSkip, false),
        (SurfaceError::Outdated, RendererError::SurfaceOutdated, Recovery::SkipAndRetry, false),
        (SurfaceError::Timeout, RendererError::SurfaceTimeout, Recovery::SkipAndRetry, false),
        (SurfaceError::OutOfMemory, RendererError::SurfaceOutOfMemory, Recovery::Abort, true),
    ];
    for (surface, error, recovery, fatal) in cases {
        assert_eq!(RendererError::from_surface(surface), error);
        assert_eq!(error.recovery(), recovery);
        assert_eq!(error.is_fatal(), fatal);
    }
}

#[test]
fn background_is_opaque_magenta() {
    let color = clear_color();
    assert_eq!(f64::from_bits(color.r), 1.0);
    assert_eq!(f64::from_bits(color.g), 0.0);
    assert_eq!(f64::from_bits(color.b), 1.0);
    assert_eq!(f64::from_bits(color.a), 1.0);
}

#[test]
fn pass_has_seven_commands_and_one_draw() {
    let commands = pass_commands(Some(ObjectBuffer { id: 3, capacity: 32 }));
    assert_eq!(commands.len(), 7);
    let draws = commands.iter().filter(|c| matches!(c, PassCommand::DrawIndexed { .. })).count();
    assert_eq!(draws, 1);
    assert!(matches!(commands[6], PassCommand::DrawIndexed { .. }));
    assert_eq!(commands[0], PassCommand::SetPipeline);
}

#[test]
fn pass_without_objects_has_no_command() {
    assert_eq!(pass_commands(None), vec![]);
}

#[test]
fn update_is_due_after_the_interval() {
    assert_eq!(UPDATE_INTERVAL, 10_000_000);
    let mut pacer = Pacer::new(1_000);
    assert!(!pacer.tick(1_000));
    assert!(!pacer.tick(10_000_999));
    assert_eq!(pacer, Pacer { redraw_requested: false, last_update: 1_000 });
    assert!(pacer.tick(10_001_000));
    assert_eq!(pacer, Pacer { redraw_requested: false, last_update: 10_001_000 });
    assert!(!pacer.tick(10_001_001));
}

#[test]
fn update_is_due_when_a_redraw_is_requested() {
    let mut pacer = Pacer::new(0);
    pacer.request_redraw();
    assert_eq!(pacer, Pacer { redraw_requested: true, last_update: 0 });
    assert!(pacer.tick(5));
    assert_eq!(pacer, Pacer { redraw_requested: false, last_update: 5 });
    assert!(!pacer.tick(6));
}

#[test]
fn clock_that_went_back_counts_as_no_time() {
    let mut pacer = Pacer::new(50_000_000);
    assert!(!pacer.tick(1));
    assert_eq!(pacer.last_update, 50_000_000);
    assert!(pacer.tick(60_000_000));
}
