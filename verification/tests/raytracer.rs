use raytracer::app::{window_event_action, EventAction, WindowEventKind};
use raytracer::compute::ShaderParams;
use raytracer::graphics::{
    dispatch_size, workgroup_count, FrameAction, GpuState, SurfaceSize, SurfaceStatus,
    WORKGROUP_SIZE,
};

fn native(x: u32) -> Vec<u8> {
    x.to_ne_bytes().to_vec()
}

#[test]
fn shader_params_start_at_frame_zero() {
    let params = ShaderParams::new();
    assert_eq!(params.frame_count(), 0);
}

#[test]
fn increment_frame_count_adds_one() {
    let mut params = ShaderParams::new();
    params.increment_frame_count();
    assert_eq!(params.frame_count(), 1);
    params.increment_frame_count();
    params.increment_frame_count();
    assert_eq!(params.frame_count(), 3);
}

#[test]
fn uniform_bytes_of_fresh_params_are_zero() {
    assert_eq!(ShaderParams::new().uniform_bytes(), vec![0u8, 0, 0, 0]);
}

#[test]
fn uniform_bytes_are_native_order_frame_count() {
    let mut params = ShaderParams::new();
    for _ in 0..0x0102 {
        params.increment_frame_count();
    }
    let bytes = params.uniform_bytes();
    assert_eq!(bytes, native(0x0102));
    assert!(bytes == vec![0x02u8, 0x01, 0, 0] || bytes == vec![0u8, 0, 0x01, 0x02]);
}

#[test]
fn surface_size_new_keeps_sides() {
    let size = SurfaceSize::new(640, 480);
    assert_eq!(size.width, 640);
    assert_eq!(size.height, 480);
}

#[test]
fn at_least_one_pixel_raises_zero_sides() {
    assert_eq!(SurfaceSize::new(0, 0).at_least_one_pixel(), SurfaceSize::new(1, 1));
    assert_eq!(SurfaceSize::new(0, 7).at_least_one_pixel(), SurfaceSize::new(1, 7));
    assert_eq!(SurfaceSize::new(9, 0).at_least_one_pixel(), SurfaceSize::new(9, 1));
}

#[test]
fn at_least_one_pixel_keeps_nonzero_sizes() {
    let size = SurfaceSize::new(1920, 1080);
    assert_eq!(size.at_least_one_pixel(), size);
    let once = SurfaceSize::new(0, 3).at_least_one_pixel();
    assert_eq!(once.at_least_one_pixel(), once);
}

#[test]
fn workgroup_count_rounds_up() {
    assert_eq!(WORKGROUP_SIZE, 8);
    assert_eq!(workgroup_count(0), 0);
    assert_eq!(workgroup_count(1), 1);
    assert_eq!(workgroup_count(7), 1);
    assert_eq!(workgroup_count(8), 1);
    assert_eq!(workgroup_count(9), 2);
    assert_eq!(workgroup_count(1920), 240);
    assert_eq!(workgroup_count(1081), 136);
    assert_eq!(workgroup_count(u32::MAX), 536_870_912);
}

#[test]
fn dispatch_covers_every_pixel() {
    for width in 0u32..40 {
        let (x, y, z) = dispatch_size(SurfaceSize::new(width, 17));
        assert_eq!(z, 1);
        assert_eq!(y, 3);
        assert!(x * WORKGROUP_SIZE >= width);
        if x > 0 {
            assert!((x - 1) * WORKGROUP_SIZE < width);
        }
    }
}

#[test]
fn new_gpu_state_keeps_window_size() {
    let state = GpuState::new(SurfaceSize::new(0, 600));
    assert_eq!(state.size(), SurfaceSize::new(0, 600));
    assert_eq!(state.shader_params().frame_count(), 0);
}

#[test]
fn resize_raises_zero_sides_and_keeps_frame_count() {
    let mut state = GpuState::new(SurfaceSize::new(800, 600));
    let _ = state.render(SurfaceStatus::Success);
    state.resize(SurfaceSize::new(0, 0));
    assert_eq!(state.size(), SurfaceSize::new(1, 1));
    assert_eq!(state.shader_params().frame_count(), 1);
    state.resize(SurfaceSize::new(1024, 768));
    assert_eq!(state.size(), SurfaceSize::new(1024, 768));
}

#[test]
fn render_success_draws_and_counts_the_frame() {
    let mut state = GpuState::new(SurfaceSize::new(1920, 1081));
    match state.render(SurfaceStatus::Success) {
        FrameAction::Draw(cmd) => {
            assert_eq!(cmd.workgroups, (240, 136, 1));
            assert_eq!(cmd.uniform, native(1));
        }
        other => panic!("expected a drawn frame, got {:?}", other),
    }
    assert_eq!(state.shader_params().frame_count(), 1);
    assert_eq!(state.size(), SurfaceSize::new(1920, 1081));
}

#[test]
fn render_without_texture_changes_nothing() {
    let mut state = GpuState::new(SurfaceSize::new(64, 64));
    assert!(matches!(state.render(SurfaceStatus::Timeout), FrameAction::Skip));
    assert!(matches!(state.render(SurfaceStatus::Occluded), FrameAction::Skip));
    assert!(matches!(state.render(SurfaceStatus::Suboptimal), FrameAction::Reconfigure));
    assert!(matches!(state.render(SurfaceStatus::Outdated), FrameAction::Reconfigure));
    assert!(matches!(state.render(SurfaceStatus::Lost), FrameAction::RecreateSurface));
    assert_eq!(state.shader_params().frame_count(), 0);
    assert_eq!(state.size(), SurfaceSize::new(64, 64));
}

#[test]
fn frame_count_counts_drawn_frames() {
    let statuses = [
        SurfaceStatus::Success,
        SurfaceStatus::Timeout,
        SurfaceStatus::Success,
        SurfaceStatus::Outdated,
        SurfaceStatus::Lost,
        SurfaceStatus::Success,
        SurfaceStatus::Occluded,
    ];
    let mut state = GpuState::new(SurfaceSize::new(8, 8));
    let mut last_uniform = Vec::new();
    for status in statuses {
        if let FrameAction::Draw(cmd) = state.render(status) {
            last_uniform = cmd.uniform;
        }
    }
    assert_eq!(state.shader_params().frame_count(), 3);
    assert_eq!(last_uniform, native(3));
}

#[test]
fn events_are_ignored_before_the_gpu_exists() {
    let size = SurfaceSize::new(3, 4);
    for event in [
        WindowEventKind::Resized(size),
        WindowEventKind::CloseRequested,
        WindowEventKind::RedrawRequested,
        WindowEventKind::Other,
    ] {
        assert_eq!(window_event_action(false, event), EventAction::Ignore);
    }
}

#[test]
fn events_are_routed_once_the_gpu_exists() {
    let size = SurfaceSize::new(3, 4);
    assert_eq!(
        window_event_action(true, WindowEventKind::Resized(size)),
        EventAction::Resize(size)
    );
    assert_eq!(window_event_action(true, WindowEventKind::CloseRequested), EventAction::Exit);
    assert_eq!(window_event_action(true, WindowEventKind::RedrawRequested), EventAction::Redraw);
    assert_eq!(window_event_action(true, WindowEventKind::Other), EventAction::Ignore);
}
