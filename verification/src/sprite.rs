//! The sprite, circle and triangle pipelines: each queues one descriptor at
//! startup against the shared model and view layouts, plus its own bindings
//! — a sampled texture for sprites, dynamic radius and color uniforms for
//! circles, a dynamic color uniform for triangles.
use vstd::prelude::*;
use crate::bind::{
    BindGroupLayoutEntryModel, BindGroupModel, BindingResourceModel, BindingSetLayoutDescriptor,
    BindingTypeModel, ShaderStagesModel, TextureViewDimensionModel,
};
use crate::buffer::{vertex_base_layout, vertex_c_layout};
use crate::core_pipeline::{
    build_usual_descriptor, dynamic_uniform_bind_group, dynamic_uniform_entry,
    texture_bind_group_entries, usual_descriptor_matches, PipelineCommons, COLOR_UNIFORM_BUFFER,
    RADIUS_UNIFORM_BUFFER,
};
use crate::pipeline::{PipelineCache, RenderPipelineId};
use crate::texture::GpuTexture;
use crate::uniform::{DynamicUniforms, COLOR_UNIFORM_SIZE, RADIUS_UNIFORM_SIZE};

verus! {

/// The draw-function ids the built-in pipelines register under.
pub const SPRITE_RENDER_FUNCTION: usize = 1;

pub const CIRCLE_RENDER_FUNCTION: usize = 3;

pub const TRIANGLE_RENDER_FUNCTION: usize = 4;

/// The built-in shader assets, under well-known ids.
pub const SPRITE_SHADER_HANDLE: u64 = 45678909876445673;

pub const CIRCLE_SHADER_HANDLE: u64 = 45678909876445674;

pub const TRIANGLE_SHADER_HANDLE: u64 = 45678909876445675;

/// The built-in meshes, under well-known ids.
pub const BASE_QUAD_HANDLE: u64 = 45678909876445676;

pub const BASE_QUAD_COLORED_HANDLE: u64 = 45678909876445677;

pub const BASE_TRIANGLE_HANDLE: u64 = 45678909876445678;

/// The 1x1 white texture sprites fall back to while their own texture is
/// mid-load.
pub const DUMMY_TEXTURE: u64 = 45678909876445679;

/// The sampled 2D texture layout: view at binding 0, sampler at binding 1,
/// both for the fragment stage.
pub open spec fn texture_layout_entries() -> Seq<BindGroupLayoutEntryModel> {
    seq![
        BindGroupLayoutEntryModel {
            binding: 0,
            visibility: ShaderStagesModel::Fragment,
            ty: BindingTypeModel::Texture {
                view_dimension: TextureViewDimensionModel::D2,
                filterable: true,
                multisampled: false,
            },
            count: None,
        },
        BindGroupLayoutEntryModel {
            binding: 1,
            visibility: ShaderStagesModel::Fragment,
            ty: BindingTypeModel::Sampler { filtering: true },
            count: None,
        },
    ]
}

fn build_texture_layout() -> (r: BindingSetLayoutDescriptor)
    ensures
        r.entries@ == texture_layout_entries(),
{
    let mut entries: Vec<BindGroupLayoutEntryModel> = Vec::new();
    entries.push(
        BindGroupLayoutEntryModel {
            binding: 0,
            visibility: ShaderStagesModel::Fragment,
            ty: BindingTypeModel::Texture {
                view_dimension: TextureViewDimensionModel::D2,
                filterable: true,
                multisampled: false,
            },
            count: None,
        },
    );
    entries.push(
        BindGroupLayoutEntryModel {
            binding: 1,
            visibility: ShaderStagesModel::Fragment,
            ty: BindingTypeModel::Sampler { filtering: true },
            count: None,
        },
    );
    let r = BindingSetLayoutDescriptor { entries };
    proof {
        assert(r.entries@ =~= texture_layout_entries());
    }
    r
}

fn clone_layout(layout: &BindingSetLayoutDescriptor) -> (r: BindingSetLayoutDescriptor)
    ensures
        r.entries@ == layout.entries@,
{
    let mut entries: Vec<BindGroupLayoutEntryModel> = Vec::new();
    let n = layout.entries.len();
    for i in 0..n
        invariant
            n == layout.entries@.len(),
            entries@ == layout.entries@.subrange(0, i as int),
    {
        entries.push(layout.entries[i]);
        proof {
            assert(entries@ =~= layout.entries@.subrange(0, i + 1));
        }
    }
    proof {
        assert(layout.entries@.subrange(0, n as int) =~= layout.entries@);
    }
    BindingSetLayoutDescriptor { entries }
}

/// The sprite pipeline: model and view groups, then the sprite's texture.
pub struct SpritePipeline {
    pub pipeline_id: RenderPipelineId,
    pub texture_layout: BindingSetLayoutDescriptor,
    pub dummy_texture: GpuTexture,
    pub dummy_texture_bind_group: BindGroupModel,
}

impl SpritePipeline {
    pub open spec fn wf(&self) -> bool {
        &&& self.texture_layout.entries@ == texture_layout_entries()
        &&& self.dummy_texture_bind_group.entries@ == texture_bind_group_entries(
            DUMMY_TEXTURE,
            false,
        )
    }

    /// Builds the texture layout and the dummy-texture fallback and queues
    /// the sprite pipeline's descriptor.
    pub fn new(cache: &mut PipelineCache, commons: &PipelineCommons) -> (r: Self)
        requires
            old(cache).wf(),
            old(cache).total_spec() < usize::MAX,
            commons.wf(),
        ensures
            r.wf(),
            final(cache).wf(),
            final(cache).total_spec() == old(cache).total_spec() + 1,
            r.pipeline_id.0 == old(cache).total_spec(),
            final(cache).waiting@.len() == old(cache).waiting@.len() + 1,
            final(cache).waiting@ == old(cache).waiting@.push(
                (r.pipeline_id, final(cache).waiting@.last().1),
            ),
            usual_descriptor_matches(
                final(cache).waiting@.last().1,
                SPRITE_SHADER_HANDLE,
                crate::pipeline::VertexBufferLayoutDesc {
                    array_stride: 36,
                    step_instance: false,
                    attribute_count: 3,
                },
                seq![
                    seq![crate::core_pipeline::model_layout_entry()],
                    seq![crate::core_pipeline::view_layout_entry()],
                    texture_layout_entries(),
                ],
            ),
            final(cache).pipelines@ == old(cache).pipelines@,
            final(cache).id_to_ind@ == old(cache).id_to_ind@,
    {
        let texture_layout = build_texture_layout();
        let dummy_texture = GpuTexture {
            width: 1,
            height: 1,
            format: crate::pipeline::TextureFormatModel::Rgba8UnormSrgb,
            array_layers: 1,
        };
        let mut dummy_entries: Vec<(u32, BindingResourceModel)> = Vec::new();
        dummy_entries.push(
            (0u32, BindingResourceModel::TextureView { texture: DUMMY_TEXTURE, array: false }),
        );
        dummy_entries.push((1u32, BindingResourceModel::Sampler { texture: DUMMY_TEXTURE }));
        let dummy_texture_bind_group = BindGroupModel { entries: dummy_entries };
        proof {
            assert(dummy_texture_bind_group.entries@ =~= texture_bind_group_entries(
                DUMMY_TEXTURE,
                false,
            ));
        }

        let mut layouts: Vec<BindingSetLayoutDescriptor> = Vec::new();
        layouts.push(clone_layout(&commons.model_layout));
        layouts.push(clone_layout(&commons.view_layout));
        layouts.push(clone_layout(&texture_layout));
        let desc = build_usual_descriptor(SPRITE_SHADER_HANDLE, vertex_c_layout(), layouts);
        let pipeline_id = cache.queue(desc);
        SpritePipeline { pipeline_id, texture_layout, dummy_texture, dummy_texture_bind_group }
    }
}

/// The circle pipeline: model and view groups, then dynamic radius and color
/// uniforms.
pub struct CirclePipeline {
    pub pipeline_id: RenderPipelineId,
    pub radius_layout: BindingSetLayoutDescriptor,
    pub color_layout: BindingSetLayoutDescriptor,
}

/// The circle's radius layout entry: a dynamic uniform for the fragment
/// stage.
pub open spec fn radius_layout_entry() -> BindGroupLayoutEntryModel {
    dynamic_uniform_entry(ShaderStagesModel::Fragment, RADIUS_UNIFORM_SIZE)
}

/// A color layout entry: a dynamic uniform for the fragment stage.
pub open spec fn color_layout_entry() -> BindGroupLayoutEntryModel {
    dynamic_uniform_entry(ShaderStagesModel::Fragment, COLOR_UNIFORM_SIZE)
}

fn build_fragment_uniform_layout(min_size: u64) -> (r: BindingSetLayoutDescriptor)
    ensures
        r.entries@ == seq![dynamic_uniform_entry(ShaderStagesModel::Fragment, min_size)],
{
    let mut entries: Vec<BindGroupLayoutEntryModel> = Vec::new();
    entries.push(
        BindGroupLayoutEntryModel {
            binding: 0,
            visibility: ShaderStagesModel::Fragment,
            ty: BindingTypeModel::UniformBuffer {
                dynamic_offset: true,
                min_binding_size: Some(min_size),
            },
            count: None,
        },
    );
    let r = BindingSetLayoutDescriptor { entries };
    proof {
        assert(r.entries@ =~= seq![dynamic_uniform_entry(ShaderStagesModel::Fragment, min_size)]);
    }
    r
}

impl CirclePipeline {
    pub open spec fn wf(&self) -> bool {
        &&& self.radius_layout.entries@ == seq![radius_layout_entry()]
        &&& self.color_layout.entries@ == seq![color_layout_entry()]
    }

    pub fn new(cache: &mut PipelineCache, commons: &PipelineCommons) -> (r: Self)
        requires
            old(cache).wf(),
            old(cache).total_spec() < usize::MAX,
            commons.wf(),
        ensures
            r.wf(),
            final(cache).wf(),
            final(cache).total_spec() == old(cache).total_spec() + 1,
            r.pipeline_id.0 == old(cache).total_spec(),
            final(cache).waiting@ == old(cache).waiting@.push(
                (r.pipeline_id, final(cache).waiting@.last().1),
            ),
            usual_descriptor_matches(
                final(cache).waiting@.last().1,
                CIRCLE_SHADER_HANDLE,
                crate::pipeline::VertexBufferLayoutDesc {
                    array_stride: 20,
                    step_instance: false,
                    attribute_count: 2,
                },
                seq![
                    seq![crate::core_pipeline::model_layout_entry()],
                    seq![crate::core_pipeline::view_layout_entry()],
                    seq![radius_layout_entry()],
                    seq![color_layout_entry()],
                ],
            ),
            final(cache).pipelines@ == old(cache).pipelines@,
            final(cache).id_to_ind@ == old(cache).id_to_ind@,
    {
        let radius_layout = build_fragment_uniform_layout(RADIUS_UNIFORM_SIZE);
        let color_layout = build_fragment_uniform_layout(COLOR_UNIFORM_SIZE);
        let mut layouts: Vec<BindingSetLayoutDescriptor> = Vec::new();
        layouts.push(clone_layout(&commons.model_layout));
        layouts.push(clone_layout(&commons.view_layout));
        layouts.push(clone_layout(&radius_layout));
        layouts.push(clone_layout(&color_layout));
        let desc = build_usual_descriptor(
            CIRCLE_SHADER_HANDLE,
            crate::buffer::vertex_layout(),
            layouts,
        );
        let pipeline_id = cache.queue(desc);
        CirclePipeline { pipeline_id, radius_layout, color_layout }
    }
}

/// The triangle pipeline: model and view groups, then a dynamic color
/// uniform.
pub struct TrianglePipeline {
    pub pipeline_id: RenderPipelineId,
    pub color_layout: BindingSetLayoutDescriptor,
}

impl TrianglePipeline {
    pub open spec fn wf(&self) -> bool {
        self.color_layout.entries@ == seq![color_layout_entry()]
    }

    pub fn new(cache: &mut PipelineCache, commons: &PipelineCommons) -> (r: Self)
        requires
            old(cache).wf(),
            old(cache).total_spec() < usize::MAX,
            commons.wf(),
        ensures
            r.wf(),
            final(cache).wf(),
            final(cache).total_spec() == old(cache).total_spec() + 1,
            r.pipeline_id.0 == old(cache).total_spec(),
            final(cache).waiting@ == old(cache).waiting@.push(
                (r.pipeline_id, final(cache).waiting@.last().1),
            ),
            usual_descriptor_matches(
                final(cache).waiting@.last().1,
                TRIANGLE_SHADER_HANDLE,
                crate::pipeline::VertexBufferLayoutDesc {
                    array_stride: 12,
                    step_instance: false,
                    attribute_count: 1,
                },
                seq![
                    seq![crate::core_pipeline::model_layout_entry()],
                    seq![crate::core_pipeline::view_layout_entry()],
                    seq![color_layout_entry()],
                ],
            ),
            final(cache).pipelines@ == old(cache).pipelines@,
            final(cache).id_to_ind@ == old(cache).id_to_ind@,
    {
        let color_layout = build_fragment_uniform_layout(COLOR_UNIFORM_SIZE);
        let mut layouts: Vec<BindingSetLayoutDescriptor> = Vec::new();
        layouts.push(clone_layout(&commons.model_layout));
        layouts.push(clone_layout(&commons.view_layout));
        layouts.push(clone_layout(&color_layout));
        let desc = build_usual_descriptor(
            TRIANGLE_SHADER_HANDLE,
            vertex_base_layout(),
            layouts,
        );
        let pipeline_id = cache.queue(desc);
        TrianglePipeline { pipeline_id, color_layout }
    }
}

/// The circle's per-frame bind groups for its radius and color uniforms.
pub struct CircleBindGroups {
    pub radius_bind_group: Option<BindGroupModel>,
    pub color_bind_group: Option<BindGroupModel>,
}

impl CircleBindGroups {
    pub fn new() -> (r: Self)
        ensures
            r.radius_bind_group is None,
            r.color_bind_group is None,
    {
        CircleBindGroups { radius_bind_group: None, color_bind_group: None }
    }
}

/// Recreates the circle bind groups once both uniform buffers have content;
/// while either is empty, both keep their previous value.
pub fn create_circle_bind_groups(
    groups: &mut CircleBindGroups,
    radius_uniforms: &DynamicUniforms,
    color_uniforms: &DynamicUniforms,
)
    ensures
        radius_uniforms.data@.len() == 0 || color_uniforms.data@.len() == 0 ==> {
            &&& final(groups).radius_bind_group == old(groups).radius_bind_group
            &&& final(groups).color_bind_group == old(groups).color_bind_group
        },
        radius_uniforms.data@.len() > 0 && color_uniforms.data@.len() > 0 ==> {
            &&& final(groups).radius_bind_group is Some
            &&& final(groups).radius_bind_group.unwrap().entries@
                == crate::core_pipeline::dynamic_uniform_group(RADIUS_UNIFORM_BUFFER)
            &&& final(groups).color_bind_group is Some
            &&& final(groups).color_bind_group.unwrap().entries@
                == crate::core_pipeline::dynamic_uniform_group(COLOR_UNIFORM_BUFFER)
        },
{
    if radius_uniforms.data.len() == 0 {
        return ;
    }
    let radius_bind_group = dynamic_uniform_bind_group(RADIUS_UNIFORM_BUFFER);
    if color_uniforms.data.len() == 0 {
        return ;
    }
    let color_bind_group = dynamic_uniform_bind_group(COLOR_UNIFORM_BUFFER);
    groups.radius_bind_group = Some(radius_bind_group);
    groups.color_bind_group = Some(color_bind_group);
}

/// The triangle's per-frame bind group for its color uniform.
pub struct TriangleBindGroups {
    pub color_bind_group: Option<BindGroupModel>,
}

impl TriangleBindGroups {
    pub fn new() -> (r: Self)
        ensures
            r.color_bind_group is None,
    {
        TriangleBindGroups { color_bind_group: None }
    }
}

/// Recreates the triangle color bind group once the color uniforms have
/// content; an empty buffer keeps the previous group.
pub fn create_triangle_bind_groups(
    groups: &mut TriangleBindGroups,
    color_uniforms: &DynamicUniforms,
)
    ensures
        color_uniforms.data@.len() == 0 ==> final(groups).color_bind_group == old(
            groups,
        ).color_bind_group,
        color_uniforms.data@.len() > 0 ==> {
            &&& final(groups).color_bind_group is Some
            &&& final(groups).color_bind_group.unwrap().entries@
                == crate::core_pipeline::dynamic_uniform_group(COLOR_UNIFORM_BUFFER)
        },
{
    if color_uniforms.data.len() == 0 {
        return ;
    }
    groups.color_bind_group = Some(dynamic_uniform_bind_group(COLOR_UNIFORM_BUFFER));
}

/// Gives every prepared image that has none yet a texture bind group.
pub fn create_texture_bind_groups(
    groups: &mut crate::idmap::IdMap<BindGroupModel>,
    render_images: &crate::idmap::IdMap<GpuTexture>,
)
    requires
        old(groups).wf(),
        render_images.wf(),
        crate::core_pipeline::texture_groups_wf(*old(groups), false),
    ensures
        final(groups).wf(),
        crate::core_pipeline::texture_groups_wf(*final(groups), false),
        final(groups)@.dom() == old(groups)@.dom().union(render_images@.dom()),
        forall|k: u64| old(groups)@.dom().contains(k) ==> final(groups)@[k] == old(groups)@[k],
        forall|k: u64| #[trigger] final(groups)@.dom().contains(k)
            ==> final(groups)@[k].entries@ == texture_bind_group_entries(k, false),
{
    crate::core_pipeline::fill_texture_bind_groups(groups, render_images, false);
}

} // verus!
