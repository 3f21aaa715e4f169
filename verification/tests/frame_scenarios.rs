//! Whole-frame scenarios: one window, one camera, one mesh entity through a
//! full tick; a resize propagating into the camera and depth texture; and a
//! removed asset degrading to per-frame draw failures.
use flat::assets::{AssetEvent, RenderAssetStore};
use flat::buffer::{vertex_tex3_layout, IndexFormatModel, Indices};
use flat::camera::{
    update_projections_on_window_resize, visibility_system, AspectRatio, Camera, EntityVisibility,
    PerspectiveProjection, RenderTarget, VisibleEntities,
};
use flat::core_pipeline::{CommonBindGroups, PipelineCommons};
use flat::dispatch::{
    render_system, BindGroupRef, CameraPhase, DrawCommand, DrawEntity, DrawKind, DrawResources,
    RenderFunctionId, RenderFunctions, RenderResult,
};
use flat::events::WindowResized;
use flat::idmap::IdMap;
use flat::mesh::Mesh;
use flat::mesh3d::{
    create_mesh3d_bind_groups, init_mesh_pipeline, MeshBindGroups, MeshPipelineKey,
    MESH_RENDER_FUNCTION, MESH_SHADER_HANDLE,
};
use flat::pipeline::{PipelineCache, PrimitiveTopologyModel, TextureFormatModel};
use flat::shader::Shader;
use flat::specialized::Specialized;
use flat::sprite::{CircleBindGroups, CirclePipeline, SpritePipeline, TriangleBindGroups, TrianglePipeline};
use flat::surface::{
    configure_surface, prepare_windows, AcquireOutcome, DepthTextures, PreparedWindow, SurfaceState,
};
use flat::uniform::{rebuild_component_uniforms, DynamicUniforms};
use flat::window::{Window, WindowDescriptor, WindowId, Windows};

const CAMERA_ENTITY: u64 = 1;
const MESH_ENTITY: u64 = 42;
const MESH_ASSET: u64 = 77;

struct World {
    cache: PipelineCache,
    specialized: Specialized<flat::mesh3d::MeshPipeline>,
    mesh_pipeline: flat::mesh3d::MeshPipeline,
    sprite_pipeline: SpritePipeline,
    circle_pipeline: CirclePipeline,
    triangle_pipeline: TrianglePipeline,
    mesh_store: RenderAssetStore<Mesh>,
    mesh_assets: IdMap<Mesh>,
    model_uniforms: DynamicUniforms,
    view_uniforms: DynamicUniforms,
    mesh_groups: MeshBindGroups,
    common: CommonBindGroups,
    circle_groups: CircleBindGroups,
    triangle_groups: TriangleBindGroups,
    render_functions: RenderFunctions,
    entities: IdMap<DrawEntity>,
    cameras: Vec<Camera>,
    windows: Windows,
    prepared: IdMap<PreparedWindow>,
    surfaces: IdMap<SurfaceState>,
    depths: DepthTextures,
}

fn unit_mesh() -> Mesh {
    Mesh::new_with(
        PrimitiveTopologyModel::TriangleList,
        vertex_tex3_layout(),
        vec![0u8; 120],
        Some(Indices::U16(vec![0, 1, 2])),
    )
}

/// Assembles one window at 800x600, one camera on it, and one mesh entity.
fn setup() -> World {
    let mut cache = PipelineCache::new();
    let mut specialized = Specialized::new();
    let mesh_pipeline = init_mesh_pipeline(&mut cache, &mut specialized);
    let commons = PipelineCommons::new();
    let sprite_pipeline = SpritePipeline::new(&mut cache, &commons);
    let circle_pipeline = CirclePipeline::new(&mut cache, &commons);
    let triangle_pipeline = TrianglePipeline::new(&mut cache, &commons);

    // the mesh shader is loaded, so the prepare pass compiles the pipeline
    let mut shaders: IdMap<Shader> = IdMap::new();
    shaders.insert(MESH_SHADER_HANDLE, Shader::from_wgsl("fn vs_main() {} fn fs_main() {}"));
    cache.create_available_in_waiting(&shaders);

    let mut mesh_store: RenderAssetStore<Mesh> = RenderAssetStore::new();
    let mut mesh_assets: IdMap<Mesh> = IdMap::new();
    mesh_assets.insert(MESH_ASSET, unit_mesh());
    mesh_store.prepare_render_assets(&mesh_assets, &vec![AssetEvent::Created { id: MESH_ASSET }]);

    let mut model_uniforms = DynamicUniforms::new(256);
    let model_ids = rebuild_component_uniforms(&mut model_uniforms, &vec![(MESH_ENTITY, vec![0; 64])]);
    let mut view_uniforms = DynamicUniforms::new(256);
    let view_ids = rebuild_component_uniforms(&mut view_uniforms, &vec![(CAMERA_ENTITY, vec![0; 192])]);
    assert_eq!(view_ids, vec![(CAMERA_ENTITY, 0)]);

    let mut mesh_groups = MeshBindGroups::new();
    create_mesh3d_bind_groups(&mut mesh_groups, &model_uniforms, &view_uniforms);

    let mut render_functions = RenderFunctions::new();
    render_functions.add(RenderFunctionId(MESH_RENDER_FUNCTION), DrawKind::Mesh);

    let mut entities: IdMap<DrawEntity> = IdMap::new();
    entities.insert(
        MESH_ENTITY,
        DrawEntity {
            entity: MESH_ENTITY,
            render_function: Some(RenderFunctionId(MESH_RENDER_FUNCTION)),
            mesh: Some(MESH_ASSET),
            texture: None,
            image_array: None,
            pipeline_key: Some(MeshPipelineKey { texture_count: 6 }),
            model_offset: Some(model_ids[0].1),
            radius_offset: None,
            color_offset: None,
        },
    );

    let mut cameras = vec![Camera {
        render_target: RenderTarget::Window(WindowId::primary()),
        is_active: true,
        visible_entities: VisibleEntities::new(),
        projection: PerspectiveProjection::default(),
        layers: None,
        view_record: vec![0; 192],
    }];
    let entity_vis = vec![EntityVisibility { entity: MESH_ENTITY, visible: true, layers: None }];
    visibility_system(&mut cameras, &entity_vis);

    let mut windows = Windows::new();
    windows.add(Window::new(WindowId::primary(), &WindowDescriptor::default(), 800, 600));
    let mut prepared: IdMap<PreparedWindow> = IdMap::new();
    prepare_windows(&windows.map, &mut prepared);
    let mut surfaces: IdMap<SurfaceState> = IdMap::new();
    let mut depths = DepthTextures::new();
    let mut window = *prepared.get(0).unwrap();
    configure_surface(
        &mut surfaces,
        &mut depths,
        &mut window,
        TextureFormatModel::Bgra8UnormSrgb,
        AcquireOutcome::Acquired,
        AcquireOutcome::Acquired,
    );
    prepared.insert(0, window);

    World {
        cache,
        specialized,
        mesh_pipeline,
        sprite_pipeline,
        circle_pipeline,
        triangle_pipeline,
        mesh_store,
        mesh_assets,
        model_uniforms,
        view_uniforms,
        mesh_groups,
        common: CommonBindGroups::new(),
        circle_groups: CircleBindGroups::new(),
        triangle_groups: TriangleBindGroups::new(),
        render_functions,
        entities,
        cameras,
        windows,
        prepared,
        surfaces,
        depths,
    }
}

fn run_frame(world: &mut World) -> flat::dispatch::FrameOutput {
    let empty_groups: IdMap<flat::bind::BindGroupModel> = IdMap::new();
    let empty_arr_groups: IdMap<flat::bind::BindGroupModel> = IdMap::new();
    let ctx = DrawResources {
        pipeline_cache: &world.cache,
        sprite_pipeline: &world.sprite_pipeline,
        circle_pipeline: &world.circle_pipeline,
        triangle_pipeline: &world.triangle_pipeline,
        mesh_pipeline: &world.mesh_pipeline,
        specialized_mesh: &world.specialized,
        gpu_meshes: &world.mesh_store.render_assets,
        texture_bind_groups: &empty_groups,
        texture_array_bind_groups: &empty_arr_groups,
        common: &world.common,
        mesh_groups: &world.mesh_groups,
        circle_groups: &world.circle_groups,
        triangle_groups: &world.triangle_groups,
        render_functions: &world.render_functions,
    };
    let cameras = vec![CameraPhase {
        camera_entity: CAMERA_ENTITY,
        target: RenderTarget::Window(WindowId::primary()),
        visible: world.cameras[0].visible_entities.entities.clone(),
        view_offset: 0,
    }];
    render_system(&ctx, &world.entities, &cameras, &world.depths, &mut world.prepared)
}

#[test]
fn one_window_one_camera_one_mesh_draws_once() {
    let mut world = setup();
    let out = run_frame(&mut world);

    // exactly one pass, against the window's surface, color- and depth-cleared
    assert_eq!(out.passes.len(), 1);
    let pass = &out.passes[0];
    assert_eq!(pass.target, RenderTarget::Window(WindowId::primary()));
    assert!(!pass.clear_black);
    assert_eq!(pass.depth, Some(flat::surface::DepthTextureModel { width: 800, height: 600 }));
    assert_eq!(pass.results, vec![(MESH_ENTITY, RenderResult::Success)]);

    // the depth texture matches the surface
    let depth = world.depths.get(&RenderTarget::Window(WindowId::primary())).unwrap();
    assert_eq!((depth.width, depth.height), (800, 600));

    // one draw call, vertex and index buffers bound, instance count 1
    let mesh_pipeline_id = *world.specialized.pipelines.get(6).unwrap();
    assert_eq!(
        pass.commands,
        vec![
            DrawCommand::SetPipeline(mesh_pipeline_id),
            DrawCommand::SetBindGroup {
                slot: 0,
                group: BindGroupRef::MeshModel,
                dynamic_offset: Some(0),
            },
            DrawCommand::SetBindGroup {
                slot: 1,
                group: BindGroupRef::MeshView,
                dynamic_offset: Some(0),
            },
            DrawCommand::SetBindGroup {
                slot: 2,
                group: BindGroupRef::DummyTextureArray,
                dynamic_offset: None,
            },
            DrawCommand::SetVertexBuffer { slot: 0, mesh: MESH_ASSET },
            DrawCommand::SetIndexBuffer { mesh: MESH_ASSET, format: IndexFormatModel::Uint16 },
            DrawCommand::DrawIndexed { index_count: 3, instances: 1 },
        ],
    );
    let draws = pass
        .commands
        .iter()
        .filter(|c| matches!(c, DrawCommand::DrawIndexed { .. } | DrawCommand::Draw { .. }))
        .count();
    assert_eq!(draws, 1);

    // the window's surface texture is presented and given up
    assert_eq!(out.presented, vec![0]);
    assert!(!world.prepared.get(0).unwrap().has_surface_texture);
}

#[test]
fn resize_updates_aspect_and_depth_before_the_next_draw() {
    let mut world = setup();

    // the window reports 400x300
    world.windows.add(Window::new(WindowId::primary(), &WindowDescriptor::default(), 400, 300));
    let events = vec![WindowResized { id: WindowId::primary(), width: 400, height: 300 }];
    update_projections_on_window_resize(&mut world.cameras, &events);
    assert_eq!(world.cameras[0].projection.aspect, AspectRatio { width: 400, height: 300 });

    prepare_windows(&world.windows.map, &mut world.prepared);
    let mut window = *world.prepared.get(0).unwrap();
    assert!(window.size_changed);
    configure_surface(
        &mut world.surfaces,
        &mut world.depths,
        &mut window,
        TextureFormatModel::Bgra8UnormSrgb,
        AcquireOutcome::Acquired,
        AcquireOutcome::Acquired,
    );
    world.prepared.insert(0, window);
    let depth = world.depths.get(&RenderTarget::Window(WindowId::primary())).unwrap();
    assert_eq!((depth.width, depth.height), (400, 300));

    // the frame still draws the mesh, into a pass that clears the new depth
    let out = run_frame(&mut world);
    assert_eq!(out.passes[0].results, vec![(MESH_ENTITY, RenderResult::Success)]);
    assert_eq!(
        out.passes[0].depth,
        Some(flat::surface::DepthTextureModel { width: 400, height: 300 }),
    );
}

#[test]
fn one_failing_entity_does_not_stop_the_next() {
    let mut world = setup();

    // a second entity whose mesh asset never loaded, placed BEFORE the good
    // one in visibility order
    const BROKEN_ENTITY: u64 = 43;
    world.entities.insert(
        BROKEN_ENTITY,
        DrawEntity {
            entity: BROKEN_ENTITY,
            render_function: Some(RenderFunctionId(MESH_RENDER_FUNCTION)),
            mesh: Some(999),
            texture: None,
            image_array: None,
            pipeline_key: Some(MeshPipelineKey { texture_count: 6 }),
            model_offset: Some(0),
            radius_offset: None,
            color_offset: None,
        },
    );
    world.cameras[0].visible_entities.entities = vec![BROKEN_ENTITY, MESH_ENTITY];
    // bypass the visibility pass: feed the camera order directly
    let empty_groups: IdMap<flat::bind::BindGroupModel> = IdMap::new();
    let empty_arr_groups: IdMap<flat::bind::BindGroupModel> = IdMap::new();
    let ctx = DrawResources {
        pipeline_cache: &world.cache,
        sprite_pipeline: &world.sprite_pipeline,
        circle_pipeline: &world.circle_pipeline,
        triangle_pipeline: &world.triangle_pipeline,
        mesh_pipeline: &world.mesh_pipeline,
        specialized_mesh: &world.specialized,
        gpu_meshes: &world.mesh_store.render_assets,
        texture_bind_groups: &empty_groups,
        texture_array_bind_groups: &empty_arr_groups,
        common: &world.common,
        mesh_groups: &world.mesh_groups,
        circle_groups: &world.circle_groups,
        triangle_groups: &world.triangle_groups,
        render_functions: &world.render_functions,
    };
    let cameras = vec![CameraPhase {
        camera_entity: CAMERA_ENTITY,
        target: RenderTarget::Window(WindowId::primary()),
        visible: vec![BROKEN_ENTITY, MESH_ENTITY],
        view_offset: 0,
    }];
    let out = render_system(&ctx, &world.entities, &cameras, &world.depths, &mut world.prepared);
    // the first entity's failure leaves the second one drawn
    assert_eq!(
        out.passes[0].results,
        vec![
            (BROKEN_ENTITY, RenderResult::Failure),
            (MESH_ENTITY, RenderResult::Success),
        ],
    );
    let draws = out.passes[0]
        .commands
        .iter()
        .filter(|c| matches!(c, DrawCommand::DrawIndexed { .. } | DrawCommand::Draw { .. }))
        .count();
    assert_eq!(draws, 1);
}

#[test]
fn removed_mesh_asset_fails_the_draw_until_reassigned() {
    let mut world = setup();

    // the mesh asset disappears while its entity lives on
    world.mesh_assets.remove(MESH_ASSET);
    world
        .mesh_store
        .prepare_render_assets(&world.mesh_assets, &vec![AssetEvent::Removed { id: MESH_ASSET }]);

    let out = run_frame(&mut world);
    assert_eq!(out.passes[0].results, vec![(MESH_ENTITY, RenderResult::Failure)]);
    // the pipeline was bound before the mesh lookup failed; no draw was issued
    let draws = out.passes[0]
        .commands
        .iter()
        .filter(|c| matches!(c, DrawCommand::DrawIndexed { .. } | DrawCommand::Draw { .. }))
        .count();
    assert_eq!(draws, 0);

    // a failure in one frame is not fatal: restoring the asset restores the draw
    world.mesh_assets.insert(MESH_ASSET, unit_mesh());
    world
        .mesh_store
        .prepare_render_assets(&world.mesh_assets, &vec![AssetEvent::Created { id: MESH_ASSET }]);
    // the presented texture was taken last frame; acquire a fresh one
    let mut window = *world.prepared.get(0).unwrap();
    window.has_surface_texture = true;
    world.prepared.insert(0, window);
    let out = run_frame(&mut world);
    assert_eq!(out.passes[0].results, vec![(MESH_ENTITY, RenderResult::Success)]);
}
