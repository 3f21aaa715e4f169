//! The bind group layouts and bind groups every 2D pipeline shares: the
//! per-entity model uniform at group 0 and the per-camera view uniform at
//! group 1, both served through one dynamic-offset buffer each.
use vstd::prelude::*;
use crate::bind::{
    BindGroupLayoutEntryModel, BindGroupModel, BindingResourceModel, BindingSetLayoutDescriptor,
    BindingTypeModel, ShaderStagesModel,
};
use crate::idmap::IdMap;
use crate::texture::GpuTexture;
use crate::uniform::{DynamicUniforms, CAMERA_UNIFORMS_SIZE, MODEL_UNIFORM_SIZE};

verus! {

/// The logical buffer the model uniforms live in.
pub const MODEL_UNIFORM_BUFFER: u64 = 1;

/// The logical buffer the camera uniforms live in.
pub const VIEW_UNIFORM_BUFFER: u64 = 2;

/// The logical buffer the radius uniforms live in.
pub const RADIUS_UNIFORM_BUFFER: u64 = 3;

/// The logical buffer the color uniforms live in.
pub const COLOR_UNIFORM_BUFFER: u64 = 4;

/// A dynamic-offset uniform buffer binding at binding index 0.
pub open spec fn dynamic_uniform_entry(
    visibility: ShaderStagesModel,
    min_size: u64,
) -> BindGroupLayoutEntryModel {
    BindGroupLayoutEntryModel {
        binding: 0,
        visibility,
        ty: BindingTypeModel::UniformBuffer {
            dynamic_offset: true,
            min_binding_size: Some(min_size),
        },
        count: None,
    }
}

/// The model layout: one dynamic uniform visible to the vertex stage.
pub open spec fn model_layout_entry() -> BindGroupLayoutEntryModel {
    dynamic_uniform_entry(ShaderStagesModel::Vertex, MODEL_UNIFORM_SIZE)
}

/// The view layout: one dynamic uniform visible to both stages.
pub open spec fn view_layout_entry() -> BindGroupLayoutEntryModel {
    dynamic_uniform_entry(ShaderStagesModel::VertexFragment, CAMERA_UNIFORMS_SIZE)
}

/// The bind group serving a dynamic uniform buffer at binding 0.
pub open spec fn dynamic_uniform_group(buffer: u64) -> Seq<(u32, BindingResourceModel)> {
    seq![(0u32, BindingResourceModel::Buffer { buffer, dynamic_offsets: true })]
}

/// The layouts shared by the 2D pipelines.
pub struct PipelineCommons {
    pub model_layout: BindingSetLayoutDescriptor,
    pub view_layout: BindingSetLayoutDescriptor,
}

impl PipelineCommons {
    pub open spec fn wf(&self) -> bool {
        &&& self.model_layout.entries@ == seq![model_layout_entry()]
        &&& self.view_layout.entries@ == seq![view_layout_entry()]
    }

    pub fn new() -> (r: Self)
        ensures
            r.wf(),
    {
        let mut model_entries: Vec<BindGroupLayoutEntryModel> = Vec::new();
        model_entries.push(
            BindGroupLayoutEntryModel {
                binding: 0,
                visibility: ShaderStagesModel::Vertex,
                ty: BindingTypeModel::UniformBuffer {
                    dynamic_offset: true,
                    min_binding_size: Some(MODEL_UNIFORM_SIZE),
                },
                count: None,
            },
        );
        let mut view_entries: Vec<BindGroupLayoutEntryModel> = Vec::new();
        view_entries.push(
            BindGroupLayoutEntryModel {
                binding: 0,
                visibility: ShaderStagesModel::VertexFragment,
                ty: BindingTypeModel::UniformBuffer {
                    dynamic_offset: true,
                    min_binding_size: Some(CAMERA_UNIFORMS_SIZE),
                },
                count: None,
            },
        );
        let r = PipelineCommons {
            model_layout: BindingSetLayoutDescriptor { entries: model_entries },
            view_layout: BindingSetLayoutDescriptor { entries: view_entries },
        };
        proof {
            assert(r.model_layout.entries@ =~= seq![model_layout_entry()]);
            assert(r.view_layout.entries@ =~= seq![view_layout_entry()]);
        }
        r
    }
}

/// The shared model and view bind groups, rebuilt whenever the uniform
/// buffers they serve have content.
pub struct CommonBindGroups {
    pub model_bind_group: Option<BindGroupModel>,
    pub view_bind_group: Option<BindGroupModel>,
}

impl CommonBindGroups {
    pub fn new() -> (r: Self)
        ensures
            r.model_bind_group is None,
            r.view_bind_group is None,
    {
        CommonBindGroups { model_bind_group: None, view_bind_group: None }
    }
}

/// Builds one bind group serving a dynamic uniform buffer at binding 0.
pub fn dynamic_uniform_bind_group(buffer: u64) -> (r: BindGroupModel)
    ensures
        r.entries@ == dynamic_uniform_group(buffer),
{
    let mut entries: Vec<(u32, BindingResourceModel)> = Vec::new();
    entries.push((0u32, BindingResourceModel::Buffer { buffer, dynamic_offsets: true }));
    let r = BindGroupModel { entries };
    proof {
        assert(r.entries@ =~= dynamic_uniform_group(buffer));
    }
    r
}

/// Recreates the shared model and view bind groups once both uniform buffers
/// have this frame's content; while either is still empty, both groups keep
/// their previous value.
pub fn create_common_bind_groups(
    groups: &mut CommonBindGroups,
    model_uniforms: &DynamicUniforms,
    view_uniforms: &DynamicUniforms,
)
    ensures
        model_uniforms.data@.len() == 0 || view_uniforms.data@.len() == 0 ==> {
            &&& final(groups).model_bind_group == old(groups).model_bind_group
            &&& final(groups).view_bind_group == old(groups).view_bind_group
        },
        model_uniforms.data@.len() > 0 && view_uniforms.data@.len() > 0 ==> {
            &&& final(groups).model_bind_group is Some
            &&& final(groups).model_bind_group.unwrap().entries@ == dynamic_uniform_group(
                MODEL_UNIFORM_BUFFER,
            )
            &&& final(groups).view_bind_group is Some
            &&& final(groups).view_bind_group.unwrap().entries@ == dynamic_uniform_group(
                VIEW_UNIFORM_BUFFER,
            )
        },
{
    if model_uniforms.data.len() == 0 {
        return ;
    }
    let model_bind_group = dynamic_uniform_bind_group(MODEL_UNIFORM_BUFFER);
    if view_uniforms.data.len() == 0 {
        return ;
    }
    let view_bind_group = dynamic_uniform_bind_group(VIEW_UNIFORM_BUFFER);
    groups.model_bind_group = Some(model_bind_group);
    groups.view_bind_group = Some(view_bind_group);
}

/// The bind group serving one sampled texture: its view at binding 0 and its
/// sampler at binding 1.
pub open spec fn texture_bind_group_entries(texture: u64, array: bool) -> Seq<(
    u32,
    BindingResourceModel,
)> {
    seq![
        (0u32, BindingResourceModel::TextureView { texture, array }),
        (1u32, BindingResourceModel::Sampler { texture }),
    ]
}

/// Whether every group in the map serves its texture's view and sampler.
pub open spec fn texture_groups_wf(groups: IdMap<BindGroupModel>, array: bool) -> bool {
    forall|i: int| 0 <= i < groups.entries_spec().len()
        ==> (#[trigger] groups.entries_spec()[i]).1.entries@ == texture_bind_group_entries(
            groups.entries_spec()[i].0,
            array,
        )
}

/// Gives every prepared texture that has none yet a bind group of its view
/// and sampler; existing groups are kept, not recreated.
#[verifier::loop_isolation(false)]
pub fn fill_texture_bind_groups(
    groups: &mut IdMap<BindGroupModel>,
    images: &IdMap<GpuTexture>,
    array: bool,
)
    requires
        old(groups).wf(),
        images.wf(),
        texture_groups_wf(*old(groups), array),
    ensures
        final(groups).wf(),
        texture_groups_wf(*final(groups), array),
        final(groups)@.dom() == old(groups)@.dom().union(images@.dom()),
        forall|k: u64| old(groups)@.dom().contains(k) ==> final(groups)@[k]
            == old(groups)@[k],
        forall|k: u64| #[trigger] final(groups)@.dom().contains(k)
            ==> final(groups)@[k].entries@ == texture_bind_group_entries(k, array),
{
    let n = images.len();
    proof {
        assert forall|k: u64| old(groups)@.dom().contains(k) implies #[trigger] old(
            groups,
        )@[k].entries@ == texture_bind_group_entries(k, array) by {
            old(groups).lemma_index_of_entry(k);
        }
    }
    for i in 0..n
        invariant
            n == images.entries_spec().len(),
            groups.wf(),
            forall|k: u64| old(groups)@.dom().contains(k) ==> {
                &&& #[trigger] groups@.dom().contains(k)
                &&& groups@[k] == old(groups)@[k]
            },
            forall|k: u64| #[trigger] groups@.dom().contains(k) ==> old(groups)@.dom().contains(k)
                || exists|j: int| 0 <= j < i && (#[trigger] images.entries_spec()[j]).0 == k,
            forall|j: int| 0 <= j < i ==> groups@.dom().contains(
                (#[trigger] images.entries_spec()[j]).0,
            ),
            forall|k: u64| #[trigger] groups@.dom().contains(k) ==> groups@[k].entries@
                == texture_bind_group_entries(k, array),
    {
        let key = images.key_at(i);
        let texture = *images.value_at(i);
        let present = groups.contains_key(key);
        if !present {
            let mut entries: Vec<(u32, BindingResourceModel)> = Vec::new();
            entries.push((0u32, BindingResourceModel::TextureView { texture: key, array }));
            entries.push((1u32, BindingResourceModel::Sampler { texture: key }));
            let group = BindGroupModel { entries };
            proof {
                assert(group.entries@ =~= texture_bind_group_entries(key, array));
            }
            groups.insert(key, group);
        }
    }
    proof {
        assert forall|k: u64| #[trigger] groups@.dom().contains(k) implies old(
            groups,
        )@.dom().contains(k) || images@.dom().contains(k) by {
            if !old(groups)@.dom().contains(k) {
                let j = choose|j: int| 0 <= j < n && (#[trigger] images.entries_spec()[j]).0 == k;
                images.lemma_entry_at(j);
            }
        }
        assert forall|k: u64| images@.dom().contains(k) implies #[trigger] groups@.dom().contains(
            k,
        ) by {
            images.lemma_index_of_entry(k);
        }
        assert(groups@.dom() =~= old(groups)@.dom().union(images@.dom()));
        assert forall|i: int| 0 <= i < groups.entries_spec().len() implies (#[trigger] groups.entries_spec()[i]).1.entries@
            == texture_bind_group_entries(groups.entries_spec()[i].0, array) by {
            groups.lemma_entry_at(i);
        }
    }
}

/// The descriptor shape every built-in pipeline shares: both stages from one
/// shader at the default entry points, one vertex buffer, one alpha-blended
/// color target at the engine's surface format, back-face culling, depth
/// test-and-write at the fixed depth format, and no multisampling.
pub open spec fn usual_descriptor_matches(
    desc: crate::pipeline::RenderPipelineDescriptor,
    shader: u64,
    vertex_layout: crate::pipeline::VertexBufferLayoutDesc,
    groups: Seq<Seq<BindGroupLayoutEntryModel>>,
) -> bool {
    &&& desc.label is None
    &&& desc.layout.label is None
    &&& desc.layout.push_constant_ranges@.len() == 0
    &&& desc.layout.bind_group_layouts@.len() == groups.len()
    &&& forall|i: int| 0 <= i < groups.len()
        ==> (#[trigger] desc.layout.bind_group_layouts@[i]).entries@ == groups[i]
    &&& desc.vertex.shader == shader
    &&& desc.vertex.entry_point@ == crate::shader::VS_ENTRY_DEFAULT@
    &&& desc.vertex.buffers@ == seq![vertex_layout]
    &&& desc.fragment is Some
    &&& desc.fragment.unwrap().shader == shader
    &&& desc.fragment.unwrap().entry_point@ == crate::shader::FS_ENTRY_DEFAULT@
    &&& desc.fragment.unwrap().targets@ == seq![
        Some(
            crate::pipeline::ColorTargetDesc {
                format: crate::pipeline::TextureFormatModel::Bgra8UnormSrgb,
                blend: Some(crate::pipeline::BlendModel::AlphaBlending),
                write_mask: 0xf,
            },
        ),
    ]
    &&& desc.primitive == (crate::pipeline::PrimitiveStateDesc {
        topology: crate::pipeline::PrimitiveTopologyModel::TriangleList,
        front_face_ccw: true,
        cull_back: true,
        polygon_fill: true,
    })
    &&& desc.depth_stencil == Some(
        crate::pipeline::DepthStencilDesc {
            format: crate::pipeline::TextureFormatModel::Depth32Float,
            depth_write_enabled: true,
            compare_less_equal: false,
        },
    )
    &&& desc.multisample == (crate::pipeline::MultisampleDesc {
        count: 1,
        mask: 0xffff_ffff_ffff_ffff,
        alpha_to_coverage_enabled: false,
    })
    &&& desc.multiview is None
}

/// Builds the usual pipeline descriptor for one shader, one vertex layout and
/// the given bind group layouts.
pub fn build_usual_descriptor(
    shader: u64,
    vertex_layout: crate::pipeline::VertexBufferLayoutDesc,
    bind_group_layouts: Vec<BindingSetLayoutDescriptor>,
) -> (r: crate::pipeline::RenderPipelineDescriptor)
    ensures
        usual_descriptor_matches(
            r,
            shader,
            vertex_layout,
            bind_group_layouts@.map(|i: int, g: BindingSetLayoutDescriptor| g.entries@),
        ),
        r.layout.bind_group_layouts@ == bind_group_layouts@,
{
    let mut buffers: Vec<crate::pipeline::VertexBufferLayoutDesc> = Vec::new();
    buffers.push(vertex_layout);
    let mut targets: Vec<Option<crate::pipeline::ColorTargetDesc>> = Vec::new();
    targets.push(
        Some(
            crate::pipeline::ColorTargetDesc {
                format: crate::pipeline::TextureFormatModel::Bgra8UnormSrgb,
                blend: Some(crate::pipeline::BlendModel::AlphaBlending),
                write_mask: 0xf,
            },
        ),
    );
    let r = crate::pipeline::RenderPipelineDescriptor {
        label: None,
        layout: crate::pipeline::PipelineLayoutDescriptor {
            label: None,
            bind_group_layouts,
            push_constant_ranges: Vec::new(),
        },
        vertex: crate::pipeline::VertexState {
            shader,
            entry_point: crate::shader::VS_ENTRY_DEFAULT.to_owned(),
            buffers,
        },
        fragment: Some(
            crate::pipeline::FragmentState {
                shader,
                entry_point: crate::shader::FS_ENTRY_DEFAULT.to_owned(),
                targets,
            },
        ),
        primitive: crate::pipeline::PrimitiveStateDesc {
            topology: crate::pipeline::PrimitiveTopologyModel::TriangleList,
            front_face_ccw: true,
            cull_back: true,
            polygon_fill: true,
        },
        depth_stencil: Some(
            crate::pipeline::DepthStencilDesc {
                format: crate::pipeline::TextureFormatModel::Depth32Float,
                depth_write_enabled: true,
                compare_less_equal: false,
            },
        ),
        multisample: crate::pipeline::MultisampleDesc {
            count: 1,
            mask: 0xffff_ffff_ffff_ffff,
            alpha_to_coverage_enabled: false,
        },
        multiview: None,
    };
    proof {
        assert(r.vertex.buffers@ =~= seq![vertex_layout]);
        assert(r.fragment.unwrap().targets@ =~= seq![
            Some(
                crate::pipeline::ColorTargetDesc {
                    format: crate::pipeline::TextureFormatModel::Bgra8UnormSrgb,
                    blend: Some(crate::pipeline::BlendModel::AlphaBlending),
                    write_mask: 0xf,
                },
            ),
        ]);
    }
    r
}

} // verus!
