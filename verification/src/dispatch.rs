//! Draw-function registration and dispatch: the render system looks each
//! visible entity's draw function up by id and runs it against the frame's
//! resources, recording the commands it issues; a failure from one entity
//! never stops the entities after it.
use vstd::prelude::*;
use crate::buffer::IndexFormatModel;
use crate::camera::RenderTarget;
use crate::core_pipeline::CommonBindGroups;
use crate::idmap::IdMap;
use crate::mesh::{GpuMesh, GpuMeshAssembly};
use crate::mesh3d::{mesh_key, MeshBindGroups, MeshPipeline, MeshPipelineKey};
use crate::pipeline::{PipelineCache, RenderPipelineId};
use crate::specialized::Specialized;
use crate::sprite::{CircleBindGroups, CirclePipeline, SpritePipeline, TriangleBindGroups, TrianglePipeline, BASE_QUAD_HANDLE};

verus! {

/// Names a draw function in the draw-function registry.
#[derive(Clone, Copy, PartialEq, Eq, Structural, Debug, Hash, PartialOrd, Ord)]
pub struct DrawFunctionId(pub usize);

/// Names a render function in the render-function registry.
#[derive(Clone, Copy, PartialEq, Eq, Structural, Debug, Hash, PartialOrd, Ord)]
pub struct RenderFunctionId(pub usize);

/// What one draw-function invocation reports: failure means "skip this
/// entity this frame", most often a GPU asset still mid-load, never an error
/// to surface.
#[derive(Clone, Copy, PartialEq, Eq, Structural, Debug)]
pub enum RenderResult {
    Success,
    Failure,
}

/// The built-in draw functions.
#[derive(Clone, Copy, PartialEq, Eq, Structural, Debug)]
pub enum DrawKind {
    Sprite,
    Mesh,
    Circle,
    Triangle,
}

/// The draw-function registry: at most one registration per id; registering
/// an id twice would make dispatch ambiguous and is a wiring error, so it is
/// ruled out up front.
pub struct RenderFunctions {
    pub id_to_ind: IdMap<usize>,
    pub functions: Vec<DrawKind>,
}

impl RenderFunctions {
    pub open spec fn wf(&self) -> bool {
        &&& self.id_to_ind.wf()
        &&& forall|i: int| 0 <= i < self.id_to_ind.entries_spec().len()
            ==> (#[trigger] self.id_to_ind.entries_spec()[i]).1 < self.functions@.len()
    }

    pub open spec fn spec_get(&self, id: RenderFunctionId) -> Option<DrawKind> {
        if self.id_to_ind@.dom().contains(id.0 as u64) && self.id_to_ind@[id.0 as u64]
            < self.functions@.len() {
            Some(self.functions@[self.id_to_ind@[id.0 as u64] as int])
        } else {
            None
        }
    }

    pub fn new() -> (r: Self)
        ensures
            r.wf(),
            r.id_to_ind@ == Map::<u64, usize>::empty(),
            r.functions@ == Seq::<DrawKind>::empty(),
    {
        let r = RenderFunctions { id_to_ind: IdMap::new(), functions: Vec::new() };
        proof {
            assert(r.functions@ =~= Seq::<DrawKind>::empty());
        }
        r
    }

    /// Registers a draw function under a fresh id.
    pub fn add(&mut self, id: RenderFunctionId, render: DrawKind)
        requires
            old(self).wf(),
            !old(self).id_to_ind@.dom().contains(id.0 as u64),
        ensures
            final(self).wf(),
            final(self).spec_get(id) == Some(render),
            forall|other: RenderFunctionId| other.0 != id.0
                ==> final(self).spec_get(other) == old(self).spec_get(other),
    {
        self.functions.push(render);
        let ind = self.functions.len() - 1;
        self.id_to_ind.insert(id.0 as u64, ind);
    }

    pub fn get(&self, index: &RenderFunctionId) -> (r: Option<&DrawKind>)
        requires
            self.wf(),
        ensures
            match r {
                Some(k) => self.spec_get(*index) == Some(*k),
                None => self.spec_get(*index) is None,
            },
    {
        match self.id_to_ind.get(index.0 as u64) {
            Some(ind) => {
                let i = *ind;
                if i < self.functions.len() {
                    Some(&self.functions[i])
                } else {
                    None
                }
            },
            None => None,
        }
    }
}

/// What the render pass is told to bind at a slot.
#[derive(Clone, Copy, PartialEq, Eq, Structural, Debug)]
pub enum BindGroupRef {
    CommonModel,
    CommonView,
    MeshModel,
    MeshView,
    Texture(u64),
    TextureArray(u64),
    DummyTexture,
    DummyTextureArray,
    CircleRadius,
    CircleColor,
    TriangleColor,
}

/// One command issued against the live render pass, in issue order.
#[derive(Clone, Copy, PartialEq, Eq, Structural, Debug)]
pub enum DrawCommand {
    SetPipeline(RenderPipelineId),
    SetBindGroup { slot: u32, group: BindGroupRef, dynamic_offset: Option<u32> },
    SetVertexBuffer { slot: u32, mesh: u64 },
    SetIndexBuffer { mesh: u64, format: IndexFormatModel },
    DrawIndexed { index_count: u32, instances: u32 },
    Draw { vertex_count: u32, instances: u32 },
}

/// What the render world reads of one drawable entity.
#[derive(Clone, Copy, PartialEq, Eq, Structural, Debug)]
pub struct DrawEntity {
    pub entity: u64,
    pub render_function: Option<RenderFunctionId>,
    pub mesh: Option<u64>,
    pub texture: Option<u64>,
    pub image_array: Option<u64>,
    pub pipeline_key: Option<MeshPipelineKey>,
    pub model_offset: Option<u32>,
    pub radius_offset: Option<u32>,
    pub color_offset: Option<u32>,
}

/// Everything a draw function reads: pipelines, prepared assets and the bind
/// groups of the frame.
pub struct DrawResources<'a> {
    pub pipeline_cache: &'a PipelineCache,
    pub sprite_pipeline: &'a SpritePipeline,
    pub circle_pipeline: &'a CirclePipeline,
    pub triangle_pipeline: &'a TrianglePipeline,
    pub mesh_pipeline: &'a MeshPipeline,
    pub specialized_mesh: &'a Specialized<MeshPipeline>,
    pub gpu_meshes: &'a IdMap<GpuMesh>,
    pub texture_bind_groups: &'a IdMap<crate::bind::BindGroupModel>,
    pub texture_array_bind_groups: &'a IdMap<crate::bind::BindGroupModel>,
    pub common: &'a CommonBindGroups,
    pub mesh_groups: &'a MeshBindGroups,
    pub circle_groups: &'a CircleBindGroups,
    pub triangle_groups: &'a TriangleBindGroups,
    pub render_functions: &'a RenderFunctions,
}

impl<'a> DrawResources<'a> {
    pub open spec fn wf(&self) -> bool {
        &&& self.pipeline_cache.wf()
        &&& self.specialized_mesh.wf()
        &&& self.gpu_meshes.wf()
        &&& self.texture_bind_groups.wf()
        &&& self.texture_array_bind_groups.wf()
        &&& self.render_functions.wf()
    }
}

/// The fixed tail of every draw: vertex buffer at slot 0, then the indexed or
/// non-indexed draw of one instance.
pub open spec fn spec_mesh_tail(mesh_id: u64, gm: GpuMesh) -> Seq<DrawCommand> {
    seq![DrawCommand::SetVertexBuffer { slot: 0, mesh: mesh_id }] + match gm.assembly {
        GpuMeshAssembly::Indexed { index_count, index_format } => seq![
            DrawCommand::SetIndexBuffer { mesh: mesh_id, format: index_format },
            DrawCommand::DrawIndexed { index_count: index_count as u32, instances: 1 },
        ],
        GpuMeshAssembly::NonIndexed { vertex_count } => seq![
            DrawCommand::Draw { vertex_count: vertex_count as u32, instances: 1 },
        ],
    }
}

/// What the sprite draw function does: pipeline, mesh, model and view groups
/// at slots 0 and 1, the sprite's texture (or the fallback) at slot 2, then
/// the mesh buffers and one draw. A missing pipeline or mesh fails the draw,
/// leaving the commands issued so far in the pass.
pub open spec fn spec_render_sprite(ctx: DrawResources, e: DrawEntity, view_offset: u32) -> (
    RenderResult,
    Seq<DrawCommand>,
) {
    if ctx.pipeline_cache.spec_get(ctx.sprite_pipeline.pipeline_id) is None {
        (RenderResult::Failure, Seq::empty())
    } else {
        let cmds0 = seq![DrawCommand::SetPipeline(ctx.sprite_pipeline.pipeline_id)];
        match e.mesh {
            None => (RenderResult::Failure, cmds0),
            Some(mesh_id) => {
                if !ctx.gpu_meshes@.dom().contains(mesh_id) {
                    (RenderResult::Failure, cmds0)
                } else {
                    let gm = ctx.gpu_meshes@[mesh_id];
                    let tex = match e.texture {
                        Some(t) => if ctx.texture_bind_groups@.dom().contains(t) {
                            BindGroupRef::Texture(t)
                        } else {
                            BindGroupRef::DummyTexture
                        },
                        None => BindGroupRef::DummyTexture,
                    };
                    (
                        RenderResult::Success,
                        cmds0 + seq![
                            DrawCommand::SetBindGroup {
                                slot: 0,
                                group: BindGroupRef::CommonModel,
                                dynamic_offset: Some(e.model_offset.unwrap()),
                            },
                            DrawCommand::SetBindGroup {
                                slot: 1,
                                group: BindGroupRef::CommonView,
                                dynamic_offset: Some(view_offset),
                            },
                            DrawCommand::SetBindGroup { slot: 2, group: tex, dynamic_offset: None },
                        ] + spec_mesh_tail(mesh_id, gm),
                    )
                }
            },
        }
    }
}

/// What conditions the wiring must meet before a draw of this kind runs; a
/// hole here is a mistake in assembly code, not a runtime condition.
pub open spec fn dispatch_ok(ctx: DrawResources, kind: DrawKind, e: DrawEntity) -> bool {
    &&& e.model_offset is Some
    &&& match kind {
        DrawKind::Sprite => {
            &&& ctx.common.model_bind_group is Some
            &&& ctx.common.view_bind_group is Some
        },
        DrawKind::Mesh => {
            &&& ctx.mesh_groups.model_bind_group is Some
            &&& ctx.mesh_groups.view_bind_group is Some
        },
        DrawKind::Circle => {
            &&& ctx.common.model_bind_group is Some
            &&& ctx.common.view_bind_group is Some
            &&& ctx.circle_groups.radius_bind_group is Some
            &&& ctx.circle_groups.color_bind_group is Some
            &&& e.radius_offset is Some
            &&& e.color_offset is Some
        },
        DrawKind::Triangle => {
            &&& ctx.common.model_bind_group is Some
            &&& ctx.common.view_bind_group is Some
            &&& ctx.triangle_groups.color_bind_group is Some
            &&& e.color_offset is Some
        },
    }
}

/// Draws one textured sprite.
pub fn render_sprite(
    ctx: &DrawResources,
    e: &DrawEntity,
    view_offset: u32,
    commands: &mut Vec<DrawCommand>,
) -> (r: RenderResult)
    requires
        ctx.wf(),
        dispatch_ok(*ctx, DrawKind::Sprite, *e),
    ensures
        (r, final(commands)@) == {
            let (sr, sc) = spec_render_sprite(*ctx, *e, view_offset);
            (sr, old(commands)@ + sc)
        },
{
    let pipeline = ctx.pipeline_cache.get(&ctx.sprite_pipeline.pipeline_id);
    if pipeline.is_none() {
        proof {
            assert(old(commands)@ + Seq::<DrawCommand>::empty() =~= old(commands)@);
        }
        return RenderResult::Failure;
    }
    commands.push(DrawCommand::SetPipeline(ctx.sprite_pipeline.pipeline_id));
    proof {
        assert(commands@ =~= old(commands)@ + seq![
            DrawCommand::SetPipeline(ctx.sprite_pipeline.pipeline_id),
        ]);
    }
    let mesh_id = match &e.mesh {
        Some(m) => *m,
        None => {
            return RenderResult::Failure;
        },
    };
    let gm = match ctx.gpu_meshes.get(mesh_id) {
        Some(g) => *g,
        None => {
            return RenderResult::Failure;
        },
    };
    let tex = match &e.texture {
        Some(t) => {
            if ctx.texture_bind_groups.contains_key(*t) {
                BindGroupRef::Texture(*t)
            } else {
                BindGroupRef::DummyTexture
            }
        },
        None => BindGroupRef::DummyTexture,
    };
    let model_offset = match &e.model_offset {
        Some(o) => *o,
        None => {
            proof {
                assert(false);
            }
            0
        },
    };
    commands.push(
        DrawCommand::SetBindGroup {
            slot: 0,
            group: BindGroupRef::CommonModel,
            dynamic_offset: Some(model_offset),
        },
    );
    commands.push(
        DrawCommand::SetBindGroup {
            slot: 1,
            group: BindGroupRef::CommonView,
            dynamic_offset: Some(view_offset),
        },
    );
    commands.push(DrawCommand::SetBindGroup { slot: 2, group: tex, dynamic_offset: None });
    push_mesh_tail(commands, mesh_id, gm);
    proof {
        let (sr, sc) = spec_render_sprite(*ctx, *e, view_offset);
        assert(commands@ =~= old(commands)@ + sc);
    }
    RenderResult::Success
}

/// Issues the mesh buffers and the draw itself.
fn push_mesh_tail(commands: &mut Vec<DrawCommand>, mesh_id: u64, gm: GpuMesh)
    ensures
        final(commands)@ == old(commands)@ + spec_mesh_tail(mesh_id, gm),
{
    commands.push(DrawCommand::SetVertexBuffer { slot: 0, mesh: mesh_id });
    match gm.assembly {
        GpuMeshAssembly::Indexed { index_count, index_format } => {
            commands.push(DrawCommand::SetIndexBuffer { mesh: mesh_id, format: index_format });
            #[verifier::truncate]
            let c = index_count as u32;
            commands.push(DrawCommand::DrawIndexed { index_count: c, instances: 1 });
        },
        GpuMeshAssembly::NonIndexed { vertex_count } => {
            #[verifier::truncate]
            let c = vertex_count as u32;
            commands.push(DrawCommand::Draw { vertex_count: c, instances: 1 });
        },
    }
    proof {
        assert(commands@ =~= old(commands)@ + spec_mesh_tail(mesh_id, gm));
    }
}

/// What the 3D mesh draw function does: the pipeline specialized for the
/// entity's key, mesh-pipeline model and view groups, the entity's texture
/// array (or the fallback) at slot 2, then the mesh buffers and one draw. A
/// missing key, unspecialized key, uncompiled pipeline or missing mesh fails
/// the draw.
pub open spec fn spec_render_mesh(ctx: DrawResources, e: DrawEntity, view_offset: u32) -> (
    RenderResult,
    Seq<DrawCommand>,
) {
    match e.pipeline_key {
        None => (RenderResult::Failure, Seq::empty()),
        Some(key) => {
            if !ctx.specialized_mesh.pipelines@.dom().contains(mesh_key(key)) {
                (RenderResult::Failure, Seq::empty())
            } else {
                let id = ctx.specialized_mesh.pipelines@[mesh_key(key)];
                if ctx.pipeline_cache.spec_get(id) is None {
                    (RenderResult::Failure, Seq::empty())
                } else {
                    let cmds0 = seq![DrawCommand::SetPipeline(id)];
                    match e.mesh {
                        None => (RenderResult::Failure, cmds0),
                        Some(mesh_id) => {
                            if !ctx.gpu_meshes@.dom().contains(mesh_id) {
                                (RenderResult::Failure, cmds0)
                            } else {
                                let gm = ctx.gpu_meshes@[mesh_id];
                                let tex = match e.image_array {
                                    Some(t) => if ctx.texture_array_bind_groups@.dom().contains(t) {
                                        BindGroupRef::TextureArray(t)
                                    } else {
                                        BindGroupRef::DummyTextureArray
                                    },
                                    None => BindGroupRef::DummyTextureArray,
                                };
                                (
                                    RenderResult::Success,
                                    cmds0 + seq![
                                        DrawCommand::SetBindGroup {
                                            slot: 0,
                                            group: BindGroupRef::MeshModel,
                                            dynamic_offset: Some(e.model_offset.unwrap()),
                                        },
                                        DrawCommand::SetBindGroup {
                                            slot: 1,
                                            group: BindGroupRef::MeshView,
                                            dynamic_offset: Some(view_offset),
                                        },
                                        DrawCommand::SetBindGroup {
                                            slot: 2,
                                            group: tex,
                                            dynamic_offset: None,
                                        },
                                    ] + spec_mesh_tail(mesh_id, gm),
                                )
                            }
                        },
                    }
                }
            }
        },
    }
}

/// Draws one 3D mesh with its texture array.
pub fn render_mesh(
    ctx: &DrawResources,
    e: &DrawEntity,
    view_offset: u32,
    commands: &mut Vec<DrawCommand>,
) -> (r: RenderResult)
    requires
        ctx.wf(),
        dispatch_ok(*ctx, DrawKind::Mesh, *e),
    ensures
        (r, final(commands)@) == {
            let (sr, sc) = spec_render_mesh(*ctx, *e, view_offset);
            (sr, old(commands)@ + sc)
        },
{
    proof {
        assert(old(commands)@ + Seq::<DrawCommand>::empty() =~= old(commands)@);
    }
    let key = match &e.pipeline_key {
        Some(k) => *k,
        None => {
            return RenderResult::Failure;
        },
    };
    let id = match ctx.specialized_mesh.pipelines.get(key.texture_count as u64) {
        Some(i) => *i,
        None => {
            return RenderResult::Failure;
        },
    };
    let pipeline = ctx.pipeline_cache.get(&id);
    if pipeline.is_none() {
        return RenderResult::Failure;
    }
    commands.push(DrawCommand::SetPipeline(id));
    proof {
        assert(commands@ =~= old(commands)@ + seq![DrawCommand::SetPipeline(id)]);
    }
    let mesh_id = match &e.mesh {
        Some(m) => *m,
        None => {
            return RenderResult::Failure;
        },
    };
    let gm = match ctx.gpu_meshes.get(mesh_id) {
        Some(g) => *g,
        None => {
            return RenderResult::Failure;
        },
    };
    let tex = match &e.image_array {
        Some(t) => {
            if ctx.texture_array_bind_groups.contains_key(*t) {
                BindGroupRef::TextureArray(*t)
            } else {
                BindGroupRef::DummyTextureArray
            }
        },
        None => BindGroupRef::DummyTextureArray,
    };
    let model_offset = match &e.model_offset {
        Some(o) => *o,
        None => {
            proof {
                assert(false);
            }
            0
        },
    };
    commands.push(
        DrawCommand::SetBindGroup {
            slot: 0,
            group: BindGroupRef::MeshModel,
            dynamic_offset: Some(model_offset),
        },
    );
    commands.push(
        DrawCommand::SetBindGroup {
            slot: 1,
            group: BindGroupRef::MeshView,
            dynamic_offset: Some(view_offset),
        },
    );
    commands.push(DrawCommand::SetBindGroup { slot: 2, group: tex, dynamic_offset: None });
    push_mesh_tail(commands, mesh_id, gm);
    proof {
        let (sr, sc) = spec_render_mesh(*ctx, *e, view_offset);
        assert(commands@ =~= old(commands)@ + sc);
    }
    RenderResult::Success
}

/// What the circle draw function does: its own pipeline, the shared quad
/// mesh, model and view groups, then the radius group at slot 2 and the
/// color group at slot 3.
pub open spec fn spec_render_circle(ctx: DrawResources, e: DrawEntity, view_offset: u32) -> (
    RenderResult,
    Seq<DrawCommand>,
) {
    if ctx.pipeline_cache.spec_get(ctx.circle_pipeline.pipeline_id) is None {
        (RenderResult::Failure, Seq::empty())
    } else {
        let cmds0 = seq![DrawCommand::SetPipeline(ctx.circle_pipeline.pipeline_id)];
        if !ctx.gpu_meshes@.dom().contains(BASE_QUAD_HANDLE) {
            (RenderResult::Failure, cmds0)
        } else {
            let gm = ctx.gpu_meshes@[BASE_QUAD_HANDLE];
            (
                RenderResult::Success,
                cmds0 + seq![
                    DrawCommand::SetBindGroup {
                        slot: 0,
                        group: BindGroupRef::CommonModel,
                        dynamic_offset: Some(e.model_offset.unwrap()),
                    },
                    DrawCommand::SetBindGroup {
                        slot: 1,
                        group: BindGroupRef::CommonView,
                        dynamic_offset: Some(view_offset),
                    },
                    DrawCommand::SetBindGroup {
                        slot: 2,
                        group: BindGroupRef::CircleRadius,
                        dynamic_offset: Some(e.radius_offset.unwrap()),
                    },
                    DrawCommand::SetBindGroup {
                        slot: 3,
                        group: BindGroupRef::CircleColor,
                        dynamic_offset: Some(e.color_offset.unwrap()),
                    },
                ] + spec_mesh_tail(BASE_QUAD_HANDLE, gm),
            )
        }
    }
}

/// Draws one circle on the shared unit quad.
pub fn render_circle(
    ctx: &DrawResources,
    e: &DrawEntity,
    view_offset: u32,
    commands: &mut Vec<DrawCommand>,
) -> (r: RenderResult)
    requires
        ctx.wf(),
        dispatch_ok(*ctx, DrawKind::Circle, *e),
    ensures
        (r, final(commands)@) == {
            let (sr, sc) = spec_render_circle(*ctx, *e, view_offset);
            (sr, old(commands)@ + sc)
        },
{
    proof {
        assert(old(commands)@ + Seq::<DrawCommand>::empty() =~= old(commands)@);
    }
    let pipeline = ctx.pipeline_cache.get(&ctx.circle_pipeline.pipeline_id);
    if pipeline.is_none() {
        return RenderResult::Failure;
    }
    commands.push(DrawCommand::SetPipeline(ctx.circle_pipeline.pipeline_id));
    proof {
        assert(commands@ =~= old(commands)@ + seq![
            DrawCommand::SetPipeline(ctx.circle_pipeline.pipeline_id),
        ]);
    }
    let gm = match ctx.gpu_meshes.get(BASE_QUAD_HANDLE) {
        Some(g) => *g,
        None => {
            return RenderResult::Failure;
        },
    };
    let (model_offset, radius_offset, color_offset) = match (
        &e.model_offset,
        &e.radius_offset,
        &e.color_offset,
    ) {
        (Some(m), Some(ra), Some(c)) => (*m, *ra, *c),
        _ => {
            proof {
                assert(false);
            }
            (0, 0, 0)
        },
    };
    commands.push(
        DrawCommand::SetBindGroup {
            slot: 0,
            group: BindGroupRef::CommonModel,
            dynamic_offset: Some(model_offset),
        },
    );
    commands.push(
        DrawCommand::SetBindGroup {
            slot: 1,
            group: BindGroupRef::CommonView,
            dynamic_offset: Some(view_offset),
        },
    );
    commands.push(
        DrawCommand::SetBindGroup {
            slot: 2,
            group: BindGroupRef::CircleRadius,
            dynamic_offset: Some(radius_offset),
        },
    );
    commands.push(
        DrawCommand::SetBindGroup {
            slot: 3,
            group: BindGroupRef::CircleColor,
            dynamic_offset: Some(color_offset),
        },
    );
    push_mesh_tail(commands, BASE_QUAD_HANDLE, gm);
    proof {
        let (sr, sc) = spec_render_circle(*ctx, *e, view_offset);
        assert(commands@ =~= old(commands)@ + sc);
    }
    RenderResult::Success
}

/// What the triangle draw function does: its own pipeline, the entity's
/// mesh, model and view groups, then the color group at slot 2.
pub open spec fn spec_render_triangle(ctx: DrawResources, e: DrawEntity, view_offset: u32) -> (
    RenderResult,
    Seq<DrawCommand>,
) {
    if ctx.pipeline_cache.spec_get(ctx.triangle_pipeline.pipeline_id) is None {
        (RenderResult::Failure, Seq::empty())
    } else {
        let cmds0 = seq![DrawCommand::SetPipeline(ctx.triangle_pipeline.pipeline_id)];
        match e.mesh {
            None => (RenderResult::Failure, cmds0),
            Some(mesh_id) => {
                if !ctx.gpu_meshes@.dom().contains(mesh_id) {
                    (RenderResult::Failure, cmds0)
                } else {
                    let gm = ctx.gpu_meshes@[mesh_id];
                    (
                        RenderResult::Success,
                        cmds0 + seq![
                            DrawCommand::SetBindGroup {
                                slot: 0,
                                group: BindGroupRef::CommonModel,
                                dynamic_offset: Some(e.model_offset.unwrap()),
                            },
                            DrawCommand::SetBindGroup {
                                slot: 1,
                                group: BindGroupRef::CommonView,
                                dynamic_offset: Some(view_offset),
                            },
                            DrawCommand::SetBindGroup {
                                slot: 2,
                                group: BindGroupRef::TriangleColor,
                                dynamic_offset: Some(e.color_offset.unwrap()),
                            },
                        ] + spec_mesh_tail(mesh_id, gm),
                    )
                }
            },
        }
    }
}

/// Draws one colored triangle.
pub fn render_triangle(
    ctx: &DrawResources,
    e: &DrawEntity,
    view_offset: u32,
    commands: &mut Vec<DrawCommand>,
) -> (r: RenderResult)
    requires
        ctx.wf(),
        dispatch_ok(*ctx, DrawKind::Triangle, *e),
    ensures
        (r, final(commands)@) == {
            let (sr, sc) = spec_render_triangle(*ctx, *e, view_offset);
            (sr, old(commands)@ + sc)
        },
{
    proof {
        assert(old(commands)@ + Seq::<DrawCommand>::empty() =~= old(commands)@);
    }
    let pipeline = ctx.pipeline_cache.get(&ctx.triangle_pipeline.pipeline_id);
    if pipeline.is_none() {
        return RenderResult::Failure;
    }
    commands.push(DrawCommand::SetPipeline(ctx.triangle_pipeline.pipeline_id));
    proof {
        assert(commands@ =~= old(commands)@ + seq![
            DrawCommand::SetPipeline(ctx.triangle_pipeline.pipeline_id),
        ]);
    }
    let mesh_id = match &e.mesh {
        Some(m) => *m,
        None => {
            return RenderResult::Failure;
        },
    };
    let gm = match ctx.gpu_meshes.get(mesh_id) {
        Some(g) => *g,
        None => {
            return RenderResult::Failure;
        },
    };
    let (model_offset, color_offset) = match (&e.model_offset, &e.color_offset) {
        (Some(m), Some(c)) => (*m, *c),
        _ => {
            proof {
                assert(false);
            }
            (0, 0)
        },
    };
    commands.push(
        DrawCommand::SetBindGroup {
            slot: 0,
            group: BindGroupRef::CommonModel,
            dynamic_offset: Some(model_offset),
        },
    );
    commands.push(
        DrawCommand::SetBindGroup {
            slot: 1,
            group: BindGroupRef::CommonView,
            dynamic_offset: Some(view_offset),
        },
    );
    commands.push(
        DrawCommand::SetBindGroup {
            slot: 2,
            group: BindGroupRef::TriangleColor,
            dynamic_offset: Some(color_offset),
        },
    );
    push_mesh_tail(commands, mesh_id, gm);
    proof {
        let (sr, sc) = spec_render_triangle(*ctx, *e, view_offset);
        assert(commands@ =~= old(commands)@ + sc);
    }
    RenderResult::Success
}

/// Dispatches one entity to its draw function by kind.
pub open spec fn spec_dispatch(ctx: DrawResources, kind: DrawKind, e: DrawEntity, view_offset: u32) -> (
    RenderResult,
    Seq<DrawCommand>,
) {
    match kind {
        DrawKind::Sprite => spec_render_sprite(ctx, e, view_offset),
        DrawKind::Mesh => spec_render_mesh(ctx, e, view_offset),
        DrawKind::Circle => spec_render_circle(ctx, e, view_offset),
        DrawKind::Triangle => spec_render_triangle(ctx, e, view_offset),
    }
}

/// One camera's pass over its visible entities, in visibility order: each
/// entity carrying a draw-function id is dispatched and its result recorded;
/// entities without one are passed over. Each entity's result and commands
/// are a function of that entity and the shared frame resources alone.
pub open spec fn spec_camera_pass(
    ctx: DrawResources,
    entities: Map<u64, DrawEntity>,
    visible: Seq<u64>,
    view_offset: u32,
) -> (Seq<(u64, RenderResult)>, Seq<DrawCommand>)
    decreases visible.len(),
{
    if visible.len() == 0 {
        (Seq::empty(), Seq::empty())
    } else {
        let prev = spec_camera_pass(ctx, entities, visible.drop_last(), view_offset);
        let id = visible.last();
        if !entities.dom().contains(id) {
            prev
        } else {
            let e = entities[id];
            match e.render_function {
                None => prev,
                Some(fid) => match ctx.render_functions.spec_get(fid) {
                    None => prev,
                    Some(kind) => {
                        let step = spec_dispatch(ctx, kind, e, view_offset);
                        (prev.0.push((id, step.0)), prev.1 + step.1)
                    },
                },
            }
        }
    }
}

/// Every visible entity that will dispatch has its wiring in place: its draw
/// function registered and the resources that function relies on present.
pub open spec fn camera_dispatch_ok(
    ctx: DrawResources,
    entities: Map<u64, DrawEntity>,
    visible: Seq<u64>,
) -> bool {
    forall|i: int| 0 <= i < visible.len() && entities.dom().contains(#[trigger] visible[i])
        && entities[visible[i]].render_function is Some ==> {
        let e = entities[visible[i]];
        let fid = e.render_function.unwrap();
        &&& ctx.render_functions.spec_get(fid) is Some
        &&& dispatch_ok(ctx, ctx.render_functions.spec_get(fid).unwrap(), e)
    }
}

/// Draw-function failure isolation: a camera pass over two runs of visible
/// entities, one after the other, records exactly the results and commands of
/// the two runs taken separately. One entity's outcome — a failure included —
/// can therefore never change what is drawn for the entities after it.
pub proof fn lemma_draw_failure_isolation(
    ctx: DrawResources,
    entities: Map<u64, DrawEntity>,
    vs1: Seq<u64>,
    vs2: Seq<u64>,
    view_offset: u32,
)
    ensures
        spec_camera_pass(ctx, entities, vs1 + vs2, view_offset).0 == spec_camera_pass(
            ctx,
            entities,
            vs1,
            view_offset,
        ).0 + spec_camera_pass(ctx, entities, vs2, view_offset).0,
        spec_camera_pass(ctx, entities, vs1 + vs2, view_offset).1 == spec_camera_pass(
            ctx,
            entities,
            vs1,
            view_offset,
        ).1 + spec_camera_pass(ctx, entities, vs2, view_offset).1,
    decreases vs2.len(),
{
    let whole = spec_camera_pass(ctx, entities, vs1 + vs2, view_offset);
    let p1 = spec_camera_pass(ctx, entities, vs1, view_offset);
    let p2 = spec_camera_pass(ctx, entities, vs2, view_offset);
    if vs2.len() == 0 {
        assert(vs1 + vs2 =~= vs1);
        assert(whole.0 =~= p1.0 + p2.0);
        assert(whole.1 =~= p1.1 + p2.1);
    } else {
        lemma_draw_failure_isolation(ctx, entities, vs1, vs2.drop_last(), view_offset);
        assert((vs1 + vs2).drop_last() =~= vs1 + vs2.drop_last());
        assert((vs1 + vs2).last() == vs2.last());
        let prev = spec_camera_pass(ctx, entities, vs1 + vs2.drop_last(), view_offset);
        let prev2 = spec_camera_pass(ctx, entities, vs2.drop_last(), view_offset);
        let id = vs2.last();
        if entities.dom().contains(id) && entities[id].render_function is Some
            && ctx.render_functions.spec_get(entities[id].render_function.unwrap()) is Some {
            let kind = ctx.render_functions.spec_get(entities[id].render_function.unwrap()).unwrap();
            let step = spec_dispatch(ctx, kind, entities[id], view_offset);
            assert(whole.0 =~= p1.0 + p2.0);
            assert(whole.1 =~= p1.1 + p2.1);
        } else {
            assert(whole.0 =~= p1.0 + p2.0);
            assert(whole.1 =~= p1.1 + p2.1);
        }
    }
}

/// Runs one camera's pass, dispatching every visible entity in order.
#[verifier::loop_isolation(false)]
pub fn run_camera_pass(
    ctx: &DrawResources,
    entities: &IdMap<DrawEntity>,
    visible: &Vec<u64>,
    view_offset: u32,
) -> (r: (Vec<(u64, RenderResult)>, Vec<DrawCommand>))
    requires
        ctx.wf(),
        entities.wf(),
        camera_dispatch_ok(*ctx, entities@, visible@),
    ensures
        (r.0@, r.1@) == spec_camera_pass(*ctx, entities@, visible@, view_offset),
{
    let mut results: Vec<(u64, RenderResult)> = Vec::new();
    let mut commands: Vec<DrawCommand> = Vec::new();
    let n = visible.len();
    proof {
        assert(visible@.subrange(0, 0) =~= Seq::<u64>::empty());
        assert(results@ =~= spec_camera_pass(*ctx, entities@, visible@.subrange(0, 0), view_offset).0);
        assert(commands@ =~= spec_camera_pass(*ctx, entities@, visible@.subrange(0, 0), view_offset).1);
    }
    for i in 0..n
        invariant
            n == visible@.len(),
            (results@, commands@) == spec_camera_pass(
                *ctx,
                entities@,
                visible@.subrange(0, i as int),
                view_offset,
            ),
    {
        proof {
            assert(visible@.subrange(0, i + 1).drop_last() =~= visible@.subrange(0, i as int));
            assert(visible@.subrange(0, i + 1).last() == visible@[i as int]);
        }
        let id = visible[i];
        match entities.get(id) {
            None => {},
            Some(e) => {
                let e = *e;
                match &e.render_function {
                    None => {},
                    Some(fid) => {
                        let fid = *fid;
                        let kind = match ctx.render_functions.get(&fid) {
                            Some(k) => *k,
                            None => {
                                proof {
                                    assert(false);
                                }
                                DrawKind::Sprite
                            },
                        };
                        let result = match kind {
                            DrawKind::Sprite => render_sprite(ctx, &e, view_offset, &mut commands),
                            DrawKind::Mesh => render_mesh(ctx, &e, view_offset, &mut commands),
                            DrawKind::Circle => render_circle(ctx, &e, view_offset, &mut commands),
                            DrawKind::Triangle => render_triangle(
                                ctx,
                                &e,
                                view_offset,
                                &mut commands,
                            ),
                        };
                        results.push((id, result));
                    },
                }
            },
        }
    }
    proof {
        assert(visible@.subrange(0, n as int) =~= visible@);
    }
    (results, commands)
}

/// One camera's inputs to the render system: where it draws, what it sees,
/// and the dynamic offset of its view uniform.
pub struct CameraPhase {
    pub camera_entity: u64,
    pub target: RenderTarget,
    pub visible: Vec<u64>,
    pub view_offset: u32,
}

/// One recorded render pass: its target, its clear color, the depth texture
/// bound and cleared with it (when its target has one), and everything the
/// draw functions issued into it with each entity's outcome.
pub struct RenderPassRecord {
    pub target: RenderTarget,
    pub clear_black: bool,
    pub depth: Option<crate::surface::DepthTextureModel>,
    pub commands: Vec<DrawCommand>,
    pub results: Vec<(u64, RenderResult)>,
}

/// What one frame's render stage produced: the passes in submission order and
/// the windows whose surface texture was presented.
pub struct FrameOutput {
    pub passes: Vec<RenderPassRecord>,
    pub presented: Vec<u64>,
}

/// Whether some camera draws to the window under `key`.
pub open spec fn camera_covers_window(cameras: Seq<CameraPhase>, key: u64) -> bool {
    exists|c: int| 0 <= c < cameras.len() && ((#[trigger] cameras[c]).target
        matches RenderTarget::Window(wid) && crate::window::window_key(wid) == key)
}

/// The windows that get a bare clear pass: those no camera draws to, which
/// still have a surface texture this frame, in tracking order.
pub open spec fn uncovered_windows(
    entries: Seq<(u64, crate::surface::PreparedWindow)>,
    cameras: Seq<CameraPhase>,
) -> Seq<u64>
    decreases entries.len(),
{
    if entries.len() == 0 {
        Seq::empty()
    } else {
        uncovered_windows(entries.drop_last(), cameras) + {
            let (key, w) = entries.last();
            if !camera_covers_window(cameras, key) && w.has_surface_texture {
                seq![key]
            } else {
                Seq::empty()
            }
        }
    }
}

/// The windows whose texture is presented: every window holding one, in
/// tracking order.
pub open spec fn presentable_windows(entries: Seq<(u64, crate::surface::PreparedWindow)>) -> Seq<
    u64,
>
    decreases entries.len(),
{
    if entries.len() == 0 {
        Seq::empty()
    } else {
        presentable_windows(entries.drop_last()) + {
            let (key, w) = entries.last();
            if w.has_surface_texture {
                seq![key]
            } else {
                Seq::empty()
            }
        }
    }
}

/// The render stage of one frame. Per camera, in order: one pass against the
/// camera's target, color-cleared and, when the target has a depth texture,
/// depth-cleared, drawing every visible entity through its draw function; a
/// failed draw skips its entity and nothing else. Then one bare clear pass
/// for each window no camera draws to. The window list is a point-in-time
/// snapshot: a window disappearing mid-frame takes effect next frame.
/// Finally every window holding a surface texture presents it and gives the
/// texture up.
#[verifier::loop_isolation(false)]
pub fn render_system(
    ctx: &DrawResources,
    entities: &IdMap<DrawEntity>,
    cameras: &Vec<CameraPhase>,
    depth_textures: &crate::surface::DepthTextures,
    windows: &mut IdMap<crate::surface::PreparedWindow>,
) -> (out: FrameOutput)
    requires
        ctx.wf(),
        entities.wf(),
        depth_textures.wf(),
        old(windows).wf(),
        forall|c: int| 0 <= c < cameras@.len() ==> camera_dispatch_ok(
            *ctx,
            entities@,
            (#[trigger] cameras@[c]).visible@,
        ),
    ensures
        final(windows).wf(),
        out.passes@.len() == cameras@.len() + uncovered_windows(
            old(windows).entries_spec(),
            cameras@,
        ).len(),
        forall|c: int| 0 <= c < cameras@.len() ==> {
            let p = #[trigger] out.passes@[c];
            &&& p.target == cameras@[c].target
            &&& !p.clear_black
            &&& p.depth == depth_textures.spec_get(cameras@[c].target)
            &&& (p.results@, p.commands@) == spec_camera_pass(
                *ctx,
                entities@,
                cameras@[c].visible@,
                cameras@[c].view_offset,
            )
        },
        forall|w: int| 0 <= w < uncovered_windows(old(windows).entries_spec(), cameras@).len()
            ==> {
            let p = #[trigger] out.passes@[cameras@.len() + w];
            let target = RenderTarget::Window(
                crate::window::WindowId(
                    uncovered_windows(old(windows).entries_spec(), cameras@)[w] as usize,
                ),
            );
            &&& p.target == target
            &&& p.clear_black
            &&& p.depth == depth_textures.spec_get(target)
            &&& p.commands@.len() == 0
            &&& p.results@.len() == 0
        },
        out.presented@ == presentable_windows(old(windows).entries_spec()),
        final(windows).entries_spec().len() == old(windows).entries_spec().len(),
        forall|i: int| 0 <= i < old(windows).entries_spec().len()
            ==> #[trigger] final(windows).entries_spec()[i] == (
            old(windows).entries_spec()[i].0,
            crate::surface::PreparedWindow {
                has_surface_texture: false,
                ..old(windows).entries_spec()[i].1
            },
        ),
{
    let mut passes: Vec<RenderPassRecord> = Vec::new();
    let ncam = cameras.len();
    for c in 0..ncam
        invariant
            ncam == cameras@.len(),
            passes@.len() == c,
            forall|k: int| 0 <= k < c ==> {
                let p = #[trigger] passes@[k];
                &&& p.target == cameras@[k].target
                &&& !p.clear_black
                &&& p.depth == depth_textures.spec_get(cameras@[k].target)
                &&& (p.results@, p.commands@) == spec_camera_pass(
                    *ctx,
                    entities@,
                    cameras@[k].visible@,
                    cameras@[k].view_offset,
                )
            },
    {
        let cam = &cameras[c];
        let (results, commands) = run_camera_pass(ctx, entities, &cam.visible, cam.view_offset);
        let depth = match depth_textures.get(&cam.target) {
            Some(d) => Some(*d),
            None => None,
        };
        passes.push(
            RenderPassRecord { target: cam.target, clear_black: false, depth, commands, results },
        );
    }

    // bare clear passes for windows no camera touched, from this frame's
    // snapshot of the window list
    let nwin = windows.len();
    proof {
        assert(windows.entries_spec().subrange(0, 0) =~= Seq::<(
            u64,
            crate::surface::PreparedWindow,
        )>::empty());
    }
    for i in 0..nwin
        invariant
            ncam == cameras@.len(),
            nwin == windows.entries_spec().len(),
            windows.entries_spec() == old(windows).entries_spec(),
            windows.wf(),
            passes@.len() == ncam + uncovered_windows(
                windows.entries_spec().subrange(0, i as int),
                cameras@,
            ).len(),
            forall|k: int| 0 <= k < ncam ==> {
                let p = #[trigger] passes@[k];
                &&& p.target == cameras@[k].target
                &&& !p.clear_black
                &&& p.depth == depth_textures.spec_get(cameras@[k].target)
                &&& (p.results@, p.commands@) == spec_camera_pass(
                    *ctx,
                    entities@,
                    cameras@[k].visible@,
                    cameras@[k].view_offset,
                )
            },
            forall|w: int| 0 <= w < uncovered_windows(
                windows.entries_spec().subrange(0, i as int),
                cameras@,
            ).len() ==> {
                let p = #[trigger] passes@[ncam + w];
                let target = RenderTarget::Window(
                    crate::window::WindowId(
                        uncovered_windows(
                            windows.entries_spec().subrange(0, i as int),
                            cameras@,
                        )[w] as usize,
                    ),
                );
                &&& p.target == target
                &&& p.clear_black
                &&& p.depth == depth_textures.spec_get(target)
                &&& p.commands@.len() == 0
                &&& p.results@.len() == 0
            },
    {
        proof {
            assert(windows.entries_spec().subrange(0, i + 1).drop_last() =~= windows.entries_spec()
                .subrange(0, i as int));
            assert(windows.entries_spec().subrange(0, i + 1).last() == windows.entries_spec()[i as int]);
        }
        let key = windows.key_at(i);
        let has_texture = windows.value_at(i).has_surface_texture;
        let mut covered = false;
        for c in 0..ncam
            invariant
                ncam == cameras@.len(),
                covered == exists|k: int| 0 <= k < c && ((#[trigger] cameras@[k]).target
                    matches RenderTarget::Window(wid) && crate::window::window_key(wid) == key),
        {
            let is_window = match &cameras[c].target {
                RenderTarget::Window(wid) => wid.0 as u64 == key,
                RenderTarget::Image(_) => false,
            };
            if is_window {
                covered = true;
                proof {
                    assert(((cameras@[c as int]).target matches RenderTarget::Window(wid)
                        && crate::window::window_key(wid) == key));
                }
            }
        }
        if !covered && has_texture {
            let wid = crate::window::WindowId(key as usize);
            let target = RenderTarget::Window(wid);
            let depth = match depth_textures.get(&target) {
                Some(d) => Some(*d),
                None => None,
            };
            passes.push(
                RenderPassRecord {
                    target,
                    clear_black: true,
                    depth,
                    commands: Vec::new(),
                    results: Vec::new(),
                },
            );
        }
    }
    proof {
        assert(windows.entries_spec().subrange(0, nwin as int) =~= windows.entries_spec());
    }

    // present: every window holding a texture gives it up to the screen
    let mut presented: Vec<u64> = Vec::new();
    proof {
        assert(presentable_windows(old(windows).entries_spec().subrange(0, 0)) =~= Seq::<
            u64,
        >::empty());
        assert(presented@ =~= presentable_windows(old(windows).entries_spec().subrange(0, 0)));
    }
    for i in 0..nwin
        invariant
            nwin == windows.entries_spec().len(),
            windows.wf(),
            presented@ == presentable_windows(old(windows).entries_spec().subrange(0, i as int)),
            forall|k: int| i <= k < nwin ==> #[trigger] windows.entries_spec()[k] == old(
                windows,
            ).entries_spec()[k],
            forall|k: int| 0 <= k < i ==> #[trigger] windows.entries_spec()[k] == (
                old(windows).entries_spec()[k].0,
                crate::surface::PreparedWindow {
                    has_surface_texture: false,
                    ..old(windows).entries_spec()[k].1
                },
            ),
    {
        proof {
            assert(old(windows).entries_spec().subrange(0, i + 1).drop_last() =~= old(
                windows,
            ).entries_spec().subrange(0, i as int));
            assert(old(windows).entries_spec().subrange(0, i + 1).last() == old(
                windows,
            ).entries_spec()[i as int]);
        }
        let key = windows.key_at(i);
        let w = *windows.value_at(i);
        if w.has_surface_texture {
            presented.push(key);
        }
        windows.set_value_at(
            i,
            crate::surface::PreparedWindow { has_surface_texture: false, ..w },
        );
    }
    proof {
        assert(old(windows).entries_spec().subrange(0, nwin as int) =~= old(
            windows,
        ).entries_spec());
    }
    FrameOutput { passes, presented }
}

} // verus!
