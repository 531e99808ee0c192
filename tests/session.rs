use frug::driver::{Action, Driver, LoopEvent, SurfaceError};
use frug::geometry::{
    check_indices, index_buffer_contents, indices, vertex_layout, INDEX_COUNT, VERTEX_COUNT,
};
use frug::session::FrugInstance;
use frug::surface::{configure_for, select_format, PhysicalSize};

fn black() -> wgpu::Color {
    wgpu::Color { r: 0.0, g: 0.0, b: 0.0, a: 1.0 }
}

fn session(width: u32, height: u32) -> FrugInstance {
    FrugInstance::new_instance(
        PhysicalSize::new(width, height),
        &vec![wgpu::TextureFormat::Rgba8Unorm, wgpu::TextureFormat::Bgra8UnormSrgb],
        &vec![wgpu::PresentMode::Fifo],
        &vec![wgpu::CompositeAlphaMode::Opaque],
        black(),
    )
}

#[test]
fn static_indices_name_existing_vertices() {
    let idx = indices();
    assert_eq!(idx, vec![0u16, 1, 4, 1, 2, 4, 2, 3, 4]);
    assert_eq!(idx.len() as u32, INDEX_COUNT);
    assert!(check_indices(&idx, VERTEX_COUNT));
    assert!(idx.iter().all(|&i| (i as u32) < VERTEX_COUNT));
}

#[test]
fn out_of_range_index_is_caught() {
    assert!(!check_indices(&vec![0u16, 1, 5], 5));
    assert!(check_indices(&vec![0u16, 1, 4], 5));
    assert!(check_indices(&vec![], 0));
}

#[test]
fn index_buffer_holds_each_index_in_machine_order() {
    let bytes = index_buffer_contents();
    assert_eq!(bytes.len(), 18);
    let mut expected: Vec<u8> = Vec::new();
    for i in [0u16, 1, 4, 1, 2, 4, 2, 3, 4] {
        expected.extend_from_slice(&i.to_ne_bytes());
    }
    assert_eq!(bytes, expected);
}

#[test]
fn vertex_layout_packs_position_then_color() {
    let layout = vertex_layout();
    assert_eq!(layout.array_stride, 24);
    assert_eq!(layout.attributes.len(), 2);
    assert_eq!(layout.attributes[0].offset, 0);
    assert_eq!(layout.attributes[0].shader_location, 0);
    assert_eq!(layout.attributes[0].format, wgpu::VertexFormat::Float32x3);
    assert_eq!(layout.attributes[1].offset, 12);
    assert_eq!(layout.attributes[1].shader_location, 1);
    assert_eq!(layout.attributes[1].format, wgpu::VertexFormat::Float32x3);
}

#[test]
fn first_srgb_format_is_preferred() {
    let formats = vec![
        wgpu::TextureFormat::Rgba8Unorm,
        wgpu::TextureFormat::Bgra8UnormSrgb,
        wgpu::TextureFormat::Rgba8UnormSrgb,
    ];
    assert_eq!(select_format(&formats), wgpu::TextureFormat::Bgra8UnormSrgb);
}

#[test]
fn first_format_without_srgb() {
    let formats = vec![wgpu::TextureFormat::Bgra8Unorm, wgpu::TextureFormat::Rgba8Unorm];
    assert_eq!(select_format(&formats), wgpu::TextureFormat::Bgra8Unorm);
}

#[test]
fn configuration_takes_size_and_first_modes() {
    let config = configure_for(
        PhysicalSize::new(640, 480),
        &vec![wgpu::TextureFormat::Rgba8UnormSrgb],
        &vec![wgpu::PresentMode::Mailbox, wgpu::PresentMode::Fifo],
        &vec![wgpu::CompositeAlphaMode::PreMultiplied, wgpu::CompositeAlphaMode::Opaque],
    );
    assert_eq!(config.width, 640);
    assert_eq!(config.height, 480);
    assert_eq!(config.format, wgpu::TextureFormat::Rgba8UnormSrgb);
    assert_eq!(config.present_mode, wgpu::PresentMode::Mailbox);
    assert_eq!(config.alpha_mode, wgpu::CompositeAlphaMode::PreMultiplied);
}

#[test]
fn zero_sized_resize_changes_nothing() {
    let mut s = session(800, 600);
    assert!(!s.resize(PhysicalSize::new(0, 300)));
    assert!(!s.resize(PhysicalSize::new(300, 0)));
    assert!(!s.resize(PhysicalSize::new(0, 0)));
    assert_eq!(s.size(), PhysicalSize::new(800, 600));
    assert_eq!(s.config().width, 800);
    assert_eq!(s.config().height, 600);
}

#[test]
fn resize_sets_configuration_extent() {
    let mut s = session(800, 600);
    assert!(s.resize(PhysicalSize::new(1024, 1)));
    assert_eq!(s.size(), PhysicalSize::new(1024, 1));
    assert_eq!(s.config().width, 1024);
    assert_eq!(s.config().height, 1);
    assert_eq!(s.config().format, wgpu::TextureFormat::Bgra8UnormSrgb);
    assert!(s.resize(PhysicalSize::new(u32::MAX, u32::MAX)));
    assert_eq!(s.config().width, u32::MAX);
}

#[test]
fn background_color_reaches_the_frame() {
    let mut s = session(800, 600);
    assert_eq!(s.frame_plan().clear_color, black());
    let c = wgpu::Color { r: 0.2, g: 0.3, b: 0.4, a: 1.0 };
    s.set_background_color(c);
    assert_eq!(s.background_color(), c);
    assert_eq!(s.frame_plan().clear_color, c);
}

#[test]
fn one_redraw_draws_nine_indices_once() {
    let mut d = Driver::new(session(800, 600));
    match d.handle_event(LoopEvent::RedrawRequested) {
        Action::Draw(plan) => {
            assert_eq!(plan.first_index, 0);
            assert_eq!(plan.index_count, 9);
            assert_eq!(plan.instance_count, 1);
            assert_eq!(plan.clear_color, black());
        }
        _ => panic!("a redraw must draw"),
    }
    assert!(matches!(d.handle_frame_result(Ok(())), Action::Idle));
    assert!(d.running);
}

#[test]
fn lost_surface_is_configured_at_last_size() {
    let mut d = Driver::new(session(800, 600));
    assert!(matches!(d.handle_event(LoopEvent::Resized(PhysicalSize::new(300, 200))), Action::Configure));
    assert!(matches!(d.handle_frame_result(Err(SurfaceError::Lost)), Action::Configure));
    assert_eq!(d.session.size(), PhysicalSize::new(300, 200));
    assert_eq!(d.session.config().width, 300);
    assert_eq!(d.session.config().height, 200);
    assert!(d.running);
    assert!(matches!(d.handle_event(LoopEvent::RedrawRequested), Action::Draw(_)));
}

#[test]
fn lost_surface_of_zero_size_is_left_alone() {
    let mut d = Driver::new(session(0, 0));
    assert!(matches!(d.handle_frame_result(Err(SurfaceError::Lost)), Action::Idle));
    assert_eq!(d.session.size(), PhysicalSize::new(0, 0));
}

#[test]
fn out_of_memory_ends_the_loop() {
    let mut d = Driver::new(session(800, 600));
    assert!(matches!(d.handle_frame_result(Err(SurfaceError::OutOfMemory)), Action::Exit));
    assert!(!d.running);
    assert!(matches!(d.handle_event(LoopEvent::RedrawRequested), Action::Idle));
    assert!(matches!(d.handle_event(LoopEvent::MainEventsCleared), Action::Idle));
    assert!(matches!(d.handle_frame_result(Err(SurfaceError::Lost)), Action::Idle));
}

#[test]
fn transient_errors_are_reported() {
    let mut d = Driver::new(session(800, 600));
    assert!(matches!(
        d.handle_frame_result(Err(SurfaceError::Timeout)),
        Action::Report(SurfaceError::Timeout)
    ));
    assert!(matches!(
        d.handle_frame_result(Err(SurfaceError::Outdated)),
        Action::Report(SurfaceError::Outdated)
    ));
    assert!(d.running);
}

#[test]
fn close_request_exits() {
    let mut d = Driver::new(session(800, 600));
    assert!(matches!(d.handle_event(LoopEvent::MainEventsCleared), Action::RequestRedraw));
    assert!(matches!(d.handle_event(LoopEvent::Other), Action::Idle));
    assert!(matches!(d.handle_event(LoopEvent::CloseRequested), Action::Exit));
    assert!(!d.running);
    assert!(matches!(d.handle_event(LoopEvent::Resized(PhysicalSize::new(5, 5))), Action::Idle));
    assert_eq!(d.session.size(), PhysicalSize::new(800, 600));
}

#[test]
fn scale_factor_change_resizes() {
    let mut d = Driver::new(session(800, 600));
    assert!(matches!(
        d.handle_event(LoopEvent::ScaleFactorChanged(PhysicalSize::new(1600, 1200))),
        Action::Configure
    ));
    assert_eq!(d.session.config().width, 1600);
    assert!(matches!(
        d.handle_event(LoopEvent::ScaleFactorChanged(PhysicalSize::new(0, 1200))),
        Action::Idle
    ));
    assert_eq!(d.session.config().width, 1600);
}
