//! The 3D mesh pipeline, specialized by texture-array length: each distinct
//! key builds its own texture-array layout and queues its own pipeline, at
//! most once per key.
use vstd::prelude::*;
use crate::bind::{
    BindGroupLayoutEntryModel, BindGroupModel, BindingResourceModel, BindingSetLayoutDescriptor,
    BindingTypeModel, ShaderStagesModel, TextureViewDimensionModel,
};
use crate::buffer::vertex_tex3_layout;
use crate::core_pipeline::{
    build_usual_descriptor, dynamic_uniform_bind_group, model_layout_entry,
    texture_bind_group_entries, usual_descriptor_matches, view_layout_entry, MODEL_UNIFORM_BUFFER,
    VIEW_UNIFORM_BUFFER,
};
use crate::idmap::IdMap;
use crate::pipeline::{PipelineCache, RenderPipelineId, VertexBufferLayoutDesc};
use crate::specialized::{PipelineSpecialize, Specialized};
use crate::texture::GpuTexture;
use crate::uniform::DynamicUniforms;

verus! {

/// The draw-function id the mesh pipeline registers under.
pub const MESH_RENDER_FUNCTION: usize = 2;

/// The mesh shader asset's well-known id.
pub const MESH_SHADER_HANDLE: u64 = 15678909876445673;

/// The 1x1 six-layer white texture array meshes fall back to while their own
/// array is mid-load.
pub const DUMMY_TEXTURE_ARRAY: u64 = 15678909876445674;

/// The structural variation of the mesh pipeline: how many layers its
/// texture array binds.
#[derive(Clone, Copy, Hash, PartialEq, Eq, Structural, Debug)]
pub struct MeshPipelineKey {
    pub texture_count: u32,
}

/// How a key indexes the specialization registry.
pub open spec fn mesh_key(k: MeshPipelineKey) -> u64 {
    k.texture_count as u64
}

/// The texture-array layout for `count` layers: the layered view at binding
/// 0, its sampler at binding 1.
pub open spec fn texture_arr_layout_entries(count: u32) -> Seq<BindGroupLayoutEntryModel> {
    seq![
        BindGroupLayoutEntryModel {
            binding: 0,
            visibility: ShaderStagesModel::Fragment,
            ty: BindingTypeModel::Texture {
                view_dimension: TextureViewDimensionModel::D2Array,
                filterable: true,
                multisampled: false,
            },
            count: Some(count),
        },
        BindGroupLayoutEntryModel {
            binding: 1,
            visibility: ShaderStagesModel::Fragment,
            ty: BindingTypeModel::Sampler { filtering: true },
            count: None,
        },
    ]
}

fn build_texture_arr_layout(count: u32) -> (r: BindingSetLayoutDescriptor)
    ensures
        r.entries@ == texture_arr_layout_entries(count),
{
    let mut entries: Vec<BindGroupLayoutEntryModel> = Vec::new();
    entries.push(
        BindGroupLayoutEntryModel {
            binding: 0,
            visibility: ShaderStagesModel::Fragment,
            ty: BindingTypeModel::Texture {
                view_dimension: TextureViewDimensionModel::D2Array,
                filterable: true,
                multisampled: false,
            },
            count: Some(count),
        },
    );
    entries.push(
        BindGroupLayoutEntryModel {
            binding: 1,
            visibility: ShaderStagesModel::Fragment,
            ty: BindingTypeModel::Sampler { filtering: true },
            count: None,
        },
    );
    let r = BindingSetLayoutDescriptor { entries };
    proof {
        assert(r.entries@ =~= texture_arr_layout_entries(count));
    }
    r
}

/// The mesh pipeline: its shared model and view layouts, and the fallback
/// texture array.
pub struct MeshPipeline {
    pub model_layout: BindingSetLayoutDescriptor,
    pub view_layout: BindingSetLayoutDescriptor,
    pub dummy_texture_arr: GpuTexture,
    pub dummy_texture_arr_bind_group: BindGroupModel,
}

impl MeshPipeline {
    pub open spec fn wf(&self) -> bool {
        &&& self.model_layout.entries@ == seq![model_layout_entry()]
        &&& self.view_layout.entries@ == seq![view_layout_entry()]
        &&& self.dummy_texture_arr_bind_group.entries@ == texture_bind_group_entries(
            DUMMY_TEXTURE_ARRAY,
            true,
        )
    }

    pub fn new() -> (r: Self)
        ensures
            r.wf(),
    {
        let mut model_entries: Vec<BindGroupLayoutEntryModel> = Vec::new();
        model_entries.push(
            BindGroupLayoutEntryModel {
                binding: 0,
                visibility: ShaderStagesModel::Vertex,
                ty: BindingTypeModel::UniformBuffer {
                    dynamic_offset: true,
                    min_binding_size: Some(crate::uniform::MODEL_UNIFORM_SIZE),
                },
                count: None,
            },
        );
        let mut view_entries: Vec<BindGroupLayoutEntryModel> = Vec::new();
        view_entries.push(
            BindGroupLayoutEntryModel {
                binding: 0,
                visibility: ShaderStagesModel::VertexFragment,
                ty: BindingTypeModel::UniformBuffer {
                    dynamic_offset: true,
                    min_binding_size: Some(crate::uniform::CAMERA_UNIFORMS_SIZE),
                },
                count: None,
            },
        );
        let dummy_texture_arr = GpuTexture {
            width: 1,
            height: 1,
            format: crate::pipeline::TextureFormatModel::Rgba8UnormSrgb,
            array_layers: 6,
        };
        let mut dummy_entries: Vec<(u32, BindingResourceModel)> = Vec::new();
        dummy_entries.push(
            (0u32, BindingResourceModel::TextureView { texture: DUMMY_TEXTURE_ARRAY, array: true }),
        );
        dummy_entries.push((1u32, BindingResourceModel::Sampler { texture: DUMMY_TEXTURE_ARRAY }));
        let r = MeshPipeline {
            model_layout: BindingSetLayoutDescriptor { entries: model_entries },
            view_layout: BindingSetLayoutDescriptor { entries: view_entries },
            dummy_texture_arr,
            dummy_texture_arr_bind_group: BindGroupModel { entries: dummy_entries },
        };
        proof {
            assert(r.model_layout.entries@ =~= seq![model_layout_entry()]);
            assert(r.view_layout.entries@ =~= seq![view_layout_entry()]);
            assert(r.dummy_texture_arr_bind_group.entries@ =~= texture_bind_group_entries(
                DUMMY_TEXTURE_ARRAY,
                true,
            ));
        }
        r
    }
}

impl PipelineSpecialize for MeshPipeline {
    /// The specialized descriptor: the usual shape over the mesh shader and
    /// the texture-array vertex layout, binding model, view and a texture
    /// array sized by the key.
    open spec fn descriptor_spec(
        &self,
        key: u64,
        desc: crate::pipeline::RenderPipelineDescriptor,
    ) -> bool {
        usual_descriptor_matches(
            desc,
            MESH_SHADER_HANDLE,
            VertexBufferLayoutDesc { array_stride: 40, step_instance: false, attribute_count: 3 },
            seq![
                self.model_layout.entries@,
                self.view_layout.entries@,
                texture_arr_layout_entries(key as u32),
            ],
        )
    }

    fn specialize(&self, key: u64) -> (r: crate::pipeline::RenderPipelineDescriptor)
        ensures
            self.descriptor_spec(key, r),
    {
        #[verifier::truncate]
        let count = key as u32;
        let texture_arr_layout = build_texture_arr_layout(count);
        let mut layouts: Vec<BindingSetLayoutDescriptor> = Vec::new();
        let mut model_entries: Vec<BindGroupLayoutEntryModel> = Vec::new();
        let nm = self.model_layout.entries.len();
        for i in 0..nm
            invariant
                nm == self.model_layout.entries@.len(),
                model_entries@ == self.model_layout.entries@.subrange(0, i as int),
        {
            model_entries.push(self.model_layout.entries[i]);
            proof {
                assert(model_entries@ =~= self.model_layout.entries@.subrange(0, i + 1));
            }
        }
        proof {
            assert(self.model_layout.entries@.subrange(0, nm as int) =~= self.model_layout.entries@);
        }
        let mut view_entries: Vec<BindGroupLayoutEntryModel> = Vec::new();
        let nv = self.view_layout.entries.len();
        for i in 0..nv
            invariant
                nv == self.view_layout.entries@.len(),
                view_entries@ == self.view_layout.entries@.subrange(0, i as int),
        {
            view_entries.push(self.view_layout.entries[i]);
            proof {
                assert(view_entries@ =~= self.view_layout.entries@.subrange(0, i + 1));
            }
        }
        proof {
            assert(self.view_layout.entries@.subrange(0, nv as int) =~= self.view_layout.entries@);
        }
        layouts.push(BindingSetLayoutDescriptor { entries: model_entries });
        layouts.push(BindingSetLayoutDescriptor { entries: view_entries });
        layouts.push(texture_arr_layout);
        build_usual_descriptor(MESH_SHADER_HANDLE, vertex_tex3_layout(), layouts)
    }
}

/// Builds the mesh pipeline and queues its initial specialization, for six
/// texture layers: the registry binds the key to the id of a freshly queued
/// request whose descriptor is the pipeline's own specialization for that
/// key; the cache's compiled pipelines and their index are untouched.
pub fn init_mesh_pipeline(
    cache: &mut PipelineCache,
    specialized: &mut Specialized<MeshPipeline>,
) -> (r: MeshPipeline)
    requires
        old(cache).wf(),
        old(cache).total_spec() < usize::MAX,
        old(specialized).wf(),
    ensures
        r.wf(),
        final(cache).wf(),
        final(specialized).wf(),
        final(specialized).pipelines@.dom().contains(6u64),
        final(specialized).pipelines@ == old(specialized).pipelines@.insert(
            6u64,
            final(specialized).pipelines@[6u64],
        ),
        old(specialized).pipelines@.dom().contains(6u64) ==> {
            &&& final(specialized).pipelines@ == old(specialized).pipelines@
            &&& *final(cache) == *old(cache)
        },
        !old(specialized).pipelines@.dom().contains(6u64) ==> {
            let id = final(specialized).pipelines@[6u64];
            &&& id.0 == old(cache).total_spec()
            &&& final(cache).waiting@ == old(cache).waiting@.push(
                (id, final(cache).waiting@.last().1),
            )
            &&& r.descriptor_spec(6u64, final(cache).waiting@.last().1)
            &&& final(cache).pipelines@ == old(cache).pipelines@
            &&& final(cache).id_to_ind@ == old(cache).id_to_ind@
            &&& final(cache).spec_get(id) is None
        },
{
    let pipeline = MeshPipeline::new();
    let _id = specialized.specialize(&pipeline, cache, 6u64);
    pipeline
}

/// The mesh pipeline's per-frame model and view bind groups.
pub struct MeshBindGroups {
    pub model_bind_group: Option<BindGroupModel>,
    pub view_bind_group: Option<BindGroupModel>,
}

impl MeshBindGroups {
    pub fn new() -> (r: Self)
        ensures
            r.model_bind_group is None,
            r.view_bind_group is None,
    {
        MeshBindGroups { model_bind_group: None, view_bind_group: None }
    }
}

/// Recreates the mesh model and view bind groups once both uniform buffers
/// have content; while either is empty, both keep their previous value.
pub fn create_mesh3d_bind_groups(
    groups: &mut MeshBindGroups,
    model_uniforms: &DynamicUniforms,
    view_uniforms: &DynamicUniforms,
)
    ensures
        model_uniforms.data@.len() == 0 || view_uniforms.data@.len() == 0 ==> {
            &&& final(groups).model_bind_group == old(groups).model_bind_group
            &&& final(groups).view_bind_group == old(groups).view_bind_group
        },
        model_uniforms.data@.len() > 0 && view_uniforms.data@.len() > 0 ==> {
            &&& final(groups).model_bind_group is Some
            &&& final(groups).model_bind_group.unwrap().entries@
                == crate::core_pipeline::dynamic_uniform_group(MODEL_UNIFORM_BUFFER)
            &&& final(groups).view_bind_group is Some
            &&& final(groups).view_bind_group.unwrap().entries@
                == crate::core_pipeline::dynamic_uniform_group(VIEW_UNIFORM_BUFFER)
        },
{
    if model_uniforms.data.len() == 0 {
        return ;
    }
    let model_bind_group = dynamic_uniform_bind_group(MODEL_UNIFORM_BUFFER);
    if view_uniforms.data.len() == 0 {
        return ;
    }
    let view_bind_group = dynamic_uniform_bind_group(VIEW_UNIFORM_BUFFER);
    groups.model_bind_group = Some(model_bind_group);
    groups.view_bind_group = Some(view_bind_group);
}

/// Gives every prepared image array that has none yet a layered texture bind
/// group.
pub fn create_texture_arr_bind_groups(
    groups: &mut IdMap<BindGroupModel>,
    render_images: &IdMap<GpuTexture>,
)
    requires
        old(groups).wf(),
        render_images.wf(),
        crate::core_pipeline::texture_groups_wf(*old(groups), true),
    ensures
        final(groups).wf(),
        crate::core_pipeline::texture_groups_wf(*final(groups), true),
        final(groups)@.dom() == old(groups)@.dom().union(render_images@.dom()),
        forall|k: u64| old(groups)@.dom().contains(k) ==> final(groups)@[k] == old(groups)@[k],
        forall|k: u64| #[trigger] final(groups)@.dom().contains(k)
            ==> final(groups)@[k].entries@ == texture_bind_group_entries(k, true),
{
    crate::core_pipeline::fill_texture_bind_groups(groups, render_images, true);
}

} // verus!
