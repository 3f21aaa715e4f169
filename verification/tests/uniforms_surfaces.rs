//! Dynamic uniform offsets and the surface lifecycle.
use flat::idmap::IdMap;
use flat::surface::{
    configure_surface, destroy_window_surface, prepare_windows, AcquireOutcome, DepthTextures,
    PreparedWindow, SurfaceState,
};
use flat::pipeline::TextureFormatModel;
use flat::uniform::{rebuild_component_uniforms, DynamicUniforms, UniformBuffer};
use flat::window::{AlphaModeModel, PresentModeModel, Window, WindowDescriptor, WindowId, Windows};

#[test]
fn single_instance_uniform_updates_byte_exactly() {
    let mut buffer = UniformBuffer::new_init(vec![0; 4]);
    buffer.update(&vec![9, 8, 7, 6]);
    assert_eq!(buffer.data, vec![9, 8, 7, 6]);
}

#[test]
fn dynamic_uniform_offsets_address_their_records() {
    let mut uniforms = DynamicUniforms::new(256);
    let records: Vec<(u64, Vec<u8>)> = vec![
        (100, vec![1, 2, 3, 4]),
        (200, vec![5, 6]),
        (300, vec![7]),
    ];
    let ids = rebuild_component_uniforms(&mut uniforms, &records);
    assert_eq!(ids, vec![(100, 0), (200, 256), (300, 512)]);
    // read-back through each offset reproduces the record's bytes
    assert_eq!(uniforms.read_at(0, 4), vec![1, 2, 3, 4]);
    assert_eq!(uniforms.read_at(256, 2), vec![5, 6]);
    assert_eq!(uniforms.read_at(512, 1), vec![7]);
    // offsets are distinct per entity
    assert!(ids[0].1 != ids[1].1 && ids[1].1 != ids[2].1);

    // the rebuild replaces last frame's batch wholesale
    let ids = rebuild_component_uniforms(&mut uniforms, &vec![(400, vec![9])]);
    assert_eq!(ids, vec![(400, 0)]);
    assert_eq!(uniforms.read_at(0, 1), vec![9]);
    assert_eq!(uniforms.data.len(), 256);
}

fn prepared(width: u32, height: u32, size_changed: bool) -> PreparedWindow {
    PreparedWindow {
        id: WindowId::primary(),
        physical_width: width,
        physical_height: height,
        present_mode: PresentModeModel::Fifo,
        alpha_mode: AlphaModeModel::Auto,
        has_surface_texture: false,
        size_changed,
        present_mode_changed: false,
    }
}

#[test]
fn surface_configures_and_depth_texture_follows() {
    let mut surfaces: IdMap<SurfaceState> = IdMap::new();
    let mut depths = DepthTextures::new();
    let mut window = prepared(800, 600, false);
    configure_surface(
        &mut surfaces,
        &mut depths,
        &mut window,
        TextureFormatModel::Bgra8UnormSrgb,
        AcquireOutcome::Acquired,
        AcquireOutcome::Acquired,
    );
    let state = surfaces.get(0).expect("surface");
    let config = state.configured.expect("configured");
    assert_eq!((config.width, config.height), (800, 600));
    assert_eq!(config.format, TextureFormatModel::Bgra8UnormSrgb);
    let depth = depths.get(&flat::camera::RenderTarget::Window(WindowId::primary())).unwrap();
    assert_eq!((depth.width, depth.height), (800, 600));
    assert!(window.has_surface_texture);
}

#[test]
fn reconfiguring_twice_with_same_size_changes_nothing() {
    let mut surfaces: IdMap<SurfaceState> = IdMap::new();
    let mut depths = DepthTextures::new();
    let mut window = prepared(800, 600, false);
    configure_surface(
        &mut surfaces,
        &mut depths,
        &mut window,
        TextureFormatModel::Bgra8UnormSrgb,
        AcquireOutcome::Acquired,
        AcquireOutcome::Acquired,
    );
    let config_before = surfaces.get(0).unwrap().configured;
    let depth_before = *depths.get(&flat::camera::RenderTarget::Window(WindowId::primary())).unwrap();

    // same (width, height) again: the stored configuration is untouched and
    // the depth texture is not recreated
    let mut window = prepared(800, 600, false);
    configure_surface(
        &mut surfaces,
        &mut depths,
        &mut window,
        TextureFormatModel::Bgra8UnormSrgb,
        AcquireOutcome::Acquired,
        AcquireOutcome::Acquired,
    );
    assert_eq!(surfaces.get(0).unwrap().configured, config_before);
    let depth_after = depths.get(&flat::camera::RenderTarget::Window(WindowId::primary())).unwrap();
    assert_eq!((depth_after.width, depth_after.height), (depth_before.width, depth_before.height));
    assert!(window.has_surface_texture);
}

#[test]
fn zero_size_resize_is_a_no_op() {
    let mut surfaces: IdMap<SurfaceState> = IdMap::new();
    let mut depths = DepthTextures::new();
    let mut window = prepared(800, 600, false);
    configure_surface(
        &mut surfaces,
        &mut depths,
        &mut window,
        TextureFormatModel::Bgra8UnormSrgb,
        AcquireOutcome::Acquired,
        AcquireOutcome::Acquired,
    );
    let config_before = surfaces.get(0).unwrap().configured;

    // minimized: width and height are zero; the configuration must not move
    let mut window = prepared(0, 0, true);
    configure_surface(
        &mut surfaces,
        &mut depths,
        &mut window,
        TextureFormatModel::Bgra8UnormSrgb,
        AcquireOutcome::Acquired,
        AcquireOutcome::Acquired,
    );
    assert_eq!(surfaces.get(0).unwrap().configured, config_before);
    assert!(!window.has_surface_texture);
}

#[test]
fn outdated_surface_reconfigures_and_retries_once() {
    let mut surfaces: IdMap<SurfaceState> = IdMap::new();
    let mut depths = DepthTextures::new();
    let mut window = prepared(800, 600, false);
    configure_surface(
        &mut surfaces,
        &mut depths,
        &mut window,
        TextureFormatModel::Bgra8UnormSrgb,
        AcquireOutcome::Acquired,
        AcquireOutcome::Acquired,
    );

    let mut window = prepared(800, 600, false);
    configure_surface(
        &mut surfaces,
        &mut depths,
        &mut window,
        TextureFormatModel::Bgra8UnormSrgb,
        AcquireOutcome::Outdated,
        AcquireOutcome::Acquired,
    );
    assert!(window.has_surface_texture);

    // a lost surface skips the window for the frame, never panics
    let mut window = prepared(800, 600, false);
    configure_surface(
        &mut surfaces,
        &mut depths,
        &mut window,
        TextureFormatModel::Bgra8UnormSrgb,
        AcquireOutcome::Lost,
        AcquireOutcome::Acquired,
    );
    assert!(!window.has_surface_texture);
}

#[test]
fn window_close_destroys_surface_then_depth() {
    let mut surfaces: IdMap<SurfaceState> = IdMap::new();
    let mut depths = DepthTextures::new();
    let mut window = prepared(800, 600, false);
    configure_surface(
        &mut surfaces,
        &mut depths,
        &mut window,
        TextureFormatModel::Bgra8UnormSrgb,
        AcquireOutcome::Acquired,
        AcquireOutcome::Acquired,
    );
    destroy_window_surface(&mut surfaces, &mut depths, WindowId::primary());
    assert!(surfaces.get(0).is_none());
    assert!(depths.get(&flat::camera::RenderTarget::Window(WindowId::primary())).is_none());
}

#[test]
fn prepare_windows_detects_size_changes() {
    let mut windows = Windows::new();
    windows.add(Window::new(WindowId::primary(), &WindowDescriptor::default(), 800, 600));
    let mut prepared_map: IdMap<PreparedWindow> = IdMap::new();
    prepare_windows(&windows.map, &mut prepared_map);
    let p = prepared_map.get(0).unwrap();
    assert!(!p.size_changed);
    assert_eq!((p.physical_width, p.physical_height), (800, 600));

    windows.add(Window::new(WindowId::primary(), &WindowDescriptor::default(), 400, 300));
    prepare_windows(&windows.map, &mut prepared_map);
    let p = prepared_map.get(0).unwrap();
    assert!(p.size_changed);
    assert_eq!((p.physical_width, p.physical_height), (400, 300));
}
