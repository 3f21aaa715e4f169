//! The binding layer: declarative descriptions of bind group layouts and of
//! the bind groups created from them. A binding set composes one to six
//! bindings into one layout, assigning binding indices by position, 0-based
//! and never reordered.
use vstd::prelude::*;

verus! {

/// Which shader stages see a binding; a static property of the binding's type.
#[derive(Clone, Copy, PartialEq, Eq, Structural, Debug)]
pub enum ShaderStagesModel {
    Vertex,
    Fragment,
    VertexFragment,
}

#[derive(Clone, Copy, PartialEq, Eq, Structural, Debug)]
pub enum TextureViewDimensionModel {
    D2,
    D2Array,
}

/// What kind of resource a binding slot takes.
#[derive(Clone, Copy, PartialEq, Eq, Structural, Debug)]
pub enum BindingTypeModel {
    UniformBuffer { dynamic_offset: bool, min_binding_size: Option<u64> },
    Texture { view_dimension: TextureViewDimensionModel, filterable: bool, multisampled: bool },
    Sampler { filtering: bool },
}

/// One binding's layout, before it is given its index in a set.
#[derive(Clone, Copy, PartialEq, Eq, Structural, Debug)]
pub struct BindingLayoutEntry {
    pub visibility: ShaderStagesModel,
    pub ty: BindingTypeModel,
    pub count: Option<u32>,
}

/// One binding's layout at its index in a set.
#[derive(Clone, Copy, PartialEq, Eq, Structural, Debug)]
pub struct BindGroupLayoutEntryModel {
    pub binding: u32,
    pub visibility: ShaderStagesModel,
    pub ty: BindingTypeModel,
    pub count: Option<u32>,
}

impl BindingLayoutEntry {
    pub fn with_binding(self, binding: u32) -> (r: BindGroupLayoutEntryModel)
        ensures
            r == (BindGroupLayoutEntryModel {
                binding,
                visibility: self.visibility,
                ty: self.ty,
                count: self.count,
            }),
    {
        BindGroupLayoutEntryModel {
            binding,
            visibility: self.visibility,
            ty: self.ty,
            count: self.count,
        }
    }
}

/// A whole bind group layout: the entries in binding order.
pub struct BindingSetLayoutDescriptor {
    pub entries: Vec<BindGroupLayoutEntryModel>,
}

/// The arity a binding set may have: one to six bindings, by tuple position.
pub const MAX_BINDING_SET_ARITY: usize = 6;

/// Composes individually described bindings into one layout, assigning
/// binding indices by position: 0-based, stable, never reordered.
pub fn binding_set_layout_desc(bindings: &Vec<BindingLayoutEntry>) -> (r: BindingSetLayoutDescriptor)
    requires
        1 <= bindings@.len() <= MAX_BINDING_SET_ARITY,
    ensures
        r.entries@.len() == bindings@.len(),
        forall|i: int| 0 <= i < bindings@.len() ==> #[trigger] r.entries@[i]
            == (BindGroupLayoutEntryModel {
            binding: i as u32,
            visibility: bindings@[i].visibility,
            ty: bindings@[i].ty,
            count: bindings@[i].count,
        }),
{
    let mut entries: Vec<BindGroupLayoutEntryModel> = Vec::new();
    let n = bindings.len();
    for i in 0..n
        invariant
            n == bindings@.len() <= MAX_BINDING_SET_ARITY,
            entries@.len() == i,
            forall|j: int| 0 <= j < i ==> #[trigger] entries@[j] == (BindGroupLayoutEntryModel {
                binding: j as u32,
                visibility: bindings@[j].visibility,
                ty: bindings@[j].ty,
                count: bindings@[j].count,
            }),
    {
        let e = bindings[i];
        entries.push(e.with_binding(i as u32));
    }
    BindingSetLayoutDescriptor { entries }
}

/// Describes a uniform-buffer binding; its stage is a property of the uniform
/// type, except where a type supports being forced to a given stage.
#[derive(Clone, Copy, PartialEq, Eq, Structural, Debug)]
pub struct UniformDesc {
    pub stage: ShaderStagesModel,
}

impl UniformDesc {
    pub fn new(stage: ShaderStagesModel) -> (r: Self)
        ensures
            r.stage == stage,
    {
        UniformDesc { stage }
    }

    pub fn get_layout_entry(&self) -> (r: BindingLayoutEntry)
        ensures
            r == (BindingLayoutEntry {
                visibility: self.stage,
                ty: BindingTypeModel::UniformBuffer {
                    dynamic_offset: false,
                    min_binding_size: None,
                },
                count: None,
            }),
    {
        BindingLayoutEntry {
            visibility: self.stage,
            ty: BindingTypeModel::UniformBuffer { dynamic_offset: false, min_binding_size: None },
            count: None,
        }
    }
}

/// Describes a sampled 2D texture binding, visible to the fragment stage.
#[derive(Clone, Copy, PartialEq, Eq, Structural, Debug)]
pub struct TextureViewDesc {
}

impl TextureViewDesc {
    pub fn get_layout_entry(&self) -> (r: BindingLayoutEntry)
        ensures
            r == (BindingLayoutEntry {
                visibility: ShaderStagesModel::Fragment,
                ty: BindingTypeModel::Texture {
                    view_dimension: TextureViewDimensionModel::D2,
                    filterable: true,
                    multisampled: false,
                },
                count: None,
            }),
    {
        BindingLayoutEntry {
            visibility: ShaderStagesModel::Fragment,
            ty: BindingTypeModel::Texture {
                view_dimension: TextureViewDimensionModel::D2,
                filterable: true,
                multisampled: false,
            },
            count: None,
        }
    }
}

/// Describes a filtering sampler binding, visible to the fragment stage.
#[derive(Clone, Copy, PartialEq, Eq, Structural, Debug)]
pub struct SamplerDesc {
}

impl SamplerDesc {
    pub fn get_layout_entry(&self) -> (r: BindingLayoutEntry)
        ensures
            r == (BindingLayoutEntry {
                visibility: ShaderStagesModel::Fragment,
                ty: BindingTypeModel::Sampler { filtering: true },
                count: None,
            }),
    {
        BindingLayoutEntry {
            visibility: ShaderStagesModel::Fragment,
            ty: BindingTypeModel::Sampler { filtering: true },
            count: None,
        }
    }
}

/// Describes a whole texture binding set: its view, then its sampler.
#[derive(Clone, Copy, PartialEq, Eq, Structural, Debug)]
pub struct TextureDesc {
    pub view: TextureViewDesc,
    pub sampler: SamplerDesc,
}

/// A resource slotted into a bind group; GPU objects are named by the ids the
/// surrounding process gave them.
#[derive(Clone, Copy, PartialEq, Eq, Structural, Debug)]
pub enum BindingResourceModel {
    Buffer { buffer: u64, dynamic_offsets: bool },
    TextureView { texture: u64, array: bool },
    Sampler { texture: u64 },
}

/// A created bind group: which resource sits at each binding index. It stays
/// valid only until a resource it names is recreated, at which point it must
/// be rebuilt.
pub struct BindGroupModel {
    pub entries: Vec<(u32, BindingResourceModel)>,
}

} // verus!
