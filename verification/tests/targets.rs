use sphere_renderer::error::RendererError;
use sphere_renderer::layout::CameraUniform;
use sphere_renderer::pipeline::Adapter;
use sphere_renderer::pipeline::Features;
use sphere_renderer::surface::SurfaceCapabilities;
use sphere_renderer::targets::RenderTargets;

fn adapter() -> Adapter {
    Adapter { features: Features { buffer_binding_array: true, storage_resource_binding_array: true } }
}

fn capabilities() -> SurfaceCapabilities<u32, u8> {
    SurfaceCapabilities { formats: vec![44, 45], alpha_modes: vec![1] }
}

fn targets(windows: &[u64]) -> RenderTargets<u32, u8> {
    let mut out = RenderTargets::new();
    for (i, window) in windows.iter().enumerate() {
        let width = 100 * (i as u32 + 1);
        out.add(*window, Some(&adapter()), &capabilities(), width, 50).unwrap();
    }
    out
}

#[test]
fn targets_start_empty() {
    let targets: RenderTargets<u32, u8> = RenderTargets::new();
    assert_eq!(targets.len(), 0);
    assert!(targets.get(1).is_none());
    assert_eq!(targets.windows(), Vec::<u64>::new());
}

#[test]
fn added_target_is_found_by_its_window() {
    let mut targets: RenderTargets<u32, u8> = RenderTargets::new();
    let configure = targets.add(5, Some(&adapter()), &capabilities(), 800, 600).unwrap();
    assert_eq!(configure.config.format, 44);
    assert_eq!(configure.config.alpha_mode, 1);
    assert_eq!(configure.config.width, 800);
    assert_eq!(configure.config.height, 600);
    assert!(!configure.redraw);
    assert_eq!(targets.len(), 1);
    let target = targets.get(5).unwrap();
    assert_eq!(target.window(), 5);
    assert_eq!(target.renderer().camera(), CameraUniform { width: 800, height: 600 });
    assert!(targets.get(6).is_none());
}

#[test]
fn target_that_cannot_be_made_is_not_added() {
    let mut targets = targets(&[1]);
    assert_eq!(
        targets.add(2, None, &capabilities(), 800, 600).err(),
        Some(RendererError::AdapterUnavailable)
    );
    let weak = Adapter {
        features: Features { buffer_binding_array: true, storage_resource_binding_array: false },
    };
    assert_eq!(
        targets.add(2, Some(&weak), &capabilities(), 800, 600).err(),
        Some(RendererError::DeviceCreationFailed)
    );
    assert_eq!(targets.len(), 1);
    assert_eq!(targets.windows(), vec![1]);
}

#[test]
fn targets_stand_in_the_order_they_were_added() {
    let targets = targets(&[9, 3, 7]);
    assert_eq!(targets.len(), 3);
    assert_eq!(targets.windows(), vec![9, 3, 7]);
    assert_eq!(targets.get(3).unwrap().config().width, 200);
}

#[test]
fn first_target_for_a_window_is_the_one_found() {
    let mut targets = targets(&[4, 8, 4]);
    assert_eq!(targets.get(4).unwrap().config().width, 100);
    targets.get_mut(4).unwrap().resize(1, 2);
    assert_eq!(targets.get(4).unwrap().config().width, 1);
    assert_eq!(targets.get(8).unwrap().config().width, 200);
    assert_eq!(targets.windows(), vec![4, 8, 4]);
}

#[test]
fn target_is_changed_in_place() {
    let mut targets = targets(&[1, 2]);
    assert!(targets.get_mut(3).is_none());
    let target = targets.get_mut(2).unwrap();
    target.update_time(5.0f32.to_bits());
    target.resize(640, 480);
    assert_eq!(targets.get(2).unwrap().config().width, 640);
    assert_eq!(targets.get(2).unwrap().renderer().time().elapsed_ms, 5.0f32.to_bits());
    assert_eq!(targets.get(1).unwrap().config().width, 100);
    assert_eq!(targets.len(), 2);
}

#[test]
fn remove_takes_every_target_of_the_window() {
    let mut targets = targets(&[4, 8, 4, 6]);
    targets.remove(4);
    assert_eq!(targets.windows(), vec![8, 6]);
    assert_eq!(targets.get(8).unwrap().config().width, 200);
    assert_eq!(targets.get(6).unwrap().config().width, 400);
    targets.remove(5);
    assert_eq!(targets.len(), 2);
    targets.remove(6);
    assert_eq!(targets.windows(), vec![8]);
}

#[test]
fn removing_the_last_target_leaves_none() {
    let mut targets = targets(&[1, 2]);
    targets.remove(1);
    assert_eq!(targets.len(), 1);
    targets.remove(2);
    assert_eq!(targets.len(), 0);
    assert!(targets.get(2).is_none());
    targets.remove(2);
    assert_eq!(targets.len(), 0);
}

#[test]
fn resized_window_has_its_surface_configured() {
    let mut targets = targets(&[1, 2]);
    let configure = targets.resized(2, 320, 240).unwrap();
    assert_eq!(configure.config.width, 320);
    assert_eq!(configure.config.height, 240);
    assert_eq!(configure.config.format, 44);
    assert_eq!(configure.camera.data, vec![0x40, 0x01, 0, 0, 0xf0, 0, 0, 0]);
    assert!(configure.redraw);
    assert_eq!(targets.get(2).unwrap().config().height, 240);
    assert_eq!(targets.get(1).unwrap().config().height, 50);
    assert!(targets.resized(3, 320, 240).is_none());
}
