//! The pipeline cache. A render pipeline is requested by queuing a
//! declarative descriptor; compilation is deferred until every shader asset
//! the descriptor names has loaded. Requests whose shaders are not yet there
//! are re-queued unchanged and retried on a later pass; a request whose
//! vertex and fragment stages name the same shader compiles that shader once
//! and reuses the module for both stages.
use vstd::prelude::*;
use crate::bind::BindingSetLayoutDescriptor;
use crate::idmap::IdMap;
use crate::shader::{Shader, ShaderAssetId};

verus! {

/// A handle into the pipeline cache. Ids rise monotonically and are unique
/// within one cache instance.
#[derive(Clone, Copy, Debug, Hash, PartialEq, Eq, Structural, PartialOrd, Ord)]
pub struct RenderPipelineId(pub usize);

pub open spec fn id_key(id: RenderPipelineId) -> u64 {
    id.0 as u64
}

#[derive(Clone, Copy, PartialEq, Eq, Structural, Debug)]
pub enum TextureFormatModel {
    R8Unorm,
    Rgba8UnormSrgb,
    Bgra8UnormSrgb,
    Depth32Float,
}

#[derive(Clone, Copy, PartialEq, Eq, Structural, Debug)]
pub enum BlendModel {
    Replace,
    AlphaBlending,
}

#[derive(Clone, Copy, PartialEq, Eq, Structural, Debug)]
pub enum PrimitiveTopologyModel {
    PointList,
    LineList,
    LineStrip,
    TriangleList,
    TriangleStrip,
}

/// One vertex buffer slot of a pipeline: its stride, whether it steps per
/// instance rather than per vertex, and how many attributes it feeds, at the
/// shader locations `0..attribute_count`.
#[derive(Clone, Copy, PartialEq, Eq, Structural, Debug)]
pub struct VertexBufferLayoutDesc {
    pub array_stride: u64,
    pub step_instance: bool,
    pub attribute_count: u32,
}

/// The vertex stage: its shader asset, entry point and input buffer layouts.
pub struct VertexState {
    pub shader: ShaderAssetId,
    pub entry_point: String,
    pub buffers: Vec<VertexBufferLayoutDesc>,
}

pub struct ColorTargetDesc {
    pub format: TextureFormatModel,
    pub blend: Option<BlendModel>,
    pub write_mask: u32,
}

/// The fragment stage: its shader asset, entry point and color targets.
pub struct FragmentState {
    pub shader: ShaderAssetId,
    pub entry_point: String,
    pub targets: Vec<Option<ColorTargetDesc>>,
}

pub struct PushConstantRangeDesc {
    pub stages: u32,
    pub start: u32,
    pub end: u32,
}

/// Which bind group layouts the pipeline uses; entry `i` provides the
/// bindings for set `i`.
pub struct PipelineLayoutDescriptor {
    pub label: Option<String>,
    pub bind_group_layouts: Vec<BindingSetLayoutDescriptor>,
    pub push_constant_ranges: Vec<PushConstantRangeDesc>,
}

pub struct PrimitiveStateDesc {
    pub topology: PrimitiveTopologyModel,
    pub front_face_ccw: bool,
    pub cull_back: bool,
    pub polygon_fill: bool,
}

pub struct DepthStencilDesc {
    pub format: TextureFormatModel,
    pub depth_write_enabled: bool,
    pub compare_less_equal: bool,
}

pub struct MultisampleDesc {
    pub count: u32,
    pub mask: u64,
    pub alpha_to_coverage_enabled: bool,
}

/// A declarative description of one render pipeline.
pub struct RenderPipelineDescriptor {
    pub label: Option<String>,
    pub layout: PipelineLayoutDescriptor,
    pub vertex: VertexState,
    pub fragment: Option<FragmentState>,
    pub primitive: PrimitiveStateDesc,
    pub depth_stencil: Option<DepthStencilDesc>,
    pub multisample: MultisampleDesc,
    pub multiview: Option<u32>,
}

/// A materialized pipeline: the descriptor it came from and the shader source
/// of each compiled stage. When the two stages named the same shader, one
/// module was compiled and is reused, recorded by `vf_same`.
pub struct CompiledPipeline {
    pub descriptor: RenderPipelineDescriptor,
    pub vs_source: String,
    pub fs_source: Option<String>,
    pub vf_same: bool,
}

/// Every shader the descriptor needs is present in the shader asset store.
pub open spec fn desc_ready(desc: RenderPipelineDescriptor, shaders: Map<u64, Shader>) -> bool {
    &&& shaders.dom().contains(desc.vertex.shader)
    &&& match desc.fragment {
        Some(f) => f.shader == desc.vertex.shader || shaders.dom().contains(f.shader),
        None => true,
    }
}

/// Whether the fragment stage names the vertex stage's shader.
pub open spec fn fragment_same_shader(desc: RenderPipelineDescriptor) -> bool {
    match desc.fragment {
        Some(f) => f.shader == desc.vertex.shader,
        None => false,
    }
}

/// What materializing `desc` against `shaders` must produce.
pub open spec fn compiled_matches(
    c: CompiledPipeline,
    desc: RenderPipelineDescriptor,
    shaders: Map<u64, Shader>,
) -> bool {
    &&& c.descriptor == desc
    &&& c.vf_same == fragment_same_shader(desc)
    &&& c.vs_source@ == shaders[desc.vertex.shader].raw@
    &&& match desc.fragment {
        None => c.fs_source is None,
        Some(f) => {
            &&& c.fs_source is Some
            &&& if f.shader == desc.vertex.shader {
                c.fs_source.unwrap()@ == shaders[desc.vertex.shader].raw@
            } else {
                c.fs_source.unwrap()@ == shaders[f.shader].raw@
            }
        },
    }
}

/// How many of the queued requests are ready against `shaders`.
pub open spec fn count_ready(
    waiting: Seq<(RenderPipelineId, RenderPipelineDescriptor)>,
    shaders: Map<u64, Shader>,
) -> int
    decreases waiting.len(),
{
    if waiting.len() == 0 {
        0
    } else {
        count_ready(waiting.drop_last(), shaders) + if desc_ready(waiting.last().1, shaders) {
            1int
        } else {
            0int
        }
    }
}

/// The requests that stay queued: the not-yet-ready ones, order kept.
pub open spec fn still_waiting(
    waiting: Seq<(RenderPipelineId, RenderPipelineDescriptor)>,
    shaders: Map<u64, Shader>,
) -> Seq<(RenderPipelineId, RenderPipelineDescriptor)>
    decreases waiting.len(),
{
    if waiting.len() == 0 {
        Seq::empty()
    } else {
        still_waiting(waiting.drop_last(), shaders) + if desc_ready(waiting.last().1, shaders) {
            Seq::empty()
        } else {
            seq![waiting.last()]
        }
    }
}

pub proof fn lemma_count_ready_bounds(
    waiting: Seq<(RenderPipelineId, RenderPipelineDescriptor)>,
    shaders: Map<u64, Shader>,
)
    ensures
        0 <= count_ready(waiting, shaders) <= waiting.len(),
    decreases waiting.len(),
{
    if waiting.len() > 0 {
        lemma_count_ready_bounds(waiting.drop_last(), shaders);
    }
}

/// The pipeline cache: already materialized pipelines, the id of each, and
/// the requests still waiting for their shaders.
pub struct PipelineCache {
    pub id_to_ind: IdMap<usize>,
    pub pipelines: Vec<CompiledPipeline>,
    pub waiting: Vec<(RenderPipelineId, RenderPipelineDescriptor)>,
}

impl PipelineCache {
    /// Ids ever handed out: one per materialized or waiting request.
    pub open spec fn total_spec(&self) -> int {
        self.pipelines@.len() + self.waiting@.len() as int
    }

    pub open spec fn wf(&self) -> bool {
        &&& self.id_to_ind.wf()
        &&& forall|i: int| 0 <= i < self.id_to_ind.entries_spec().len() ==> {
            &&& (#[trigger] self.id_to_ind.entries_spec()[i]).1 < self.pipelines@.len()
            &&& self.id_to_ind.entries_spec()[i].0 < self.total_spec()
        }
        &&& forall|i: int| 0 <= i < self.waiting@.len() ==> {
            &&& (#[trigger] self.waiting@[i]).0.0 < self.total_spec()
            &&& !self.id_to_ind@.dom().contains(id_key(self.waiting@[i].0))
        }
        &&& forall|i: int, j: int| 0 <= i < j < self.waiting@.len()
            ==> (#[trigger] self.waiting@[i]).0 != (#[trigger] self.waiting@[j]).0
    }

    /// What `get` returns for `id`.
    pub open spec fn spec_get(&self, id: RenderPipelineId) -> Option<CompiledPipeline> {
        if self.id_to_ind@.dom().contains(id_key(id)) && self.id_to_ind@[id_key(id)]
            < self.pipelines@.len() {
            Some(self.pipelines@[self.id_to_ind@[id_key(id)] as int])
        } else {
            None
        }
    }

    pub fn new() -> (r: Self)
        ensures
            r.wf(),
            r.pipelines@.len() == 0,
            r.waiting@.len() == 0,
            r.id_to_ind@ == Map::<u64, usize>::empty(),
    {
        PipelineCache { id_to_ind: IdMap::new(), pipelines: Vec::new(), waiting: Vec::new() }
    }

    /// Registers a pipeline request without compiling it. The id handed back
    /// is fresh: it rises monotonically and names no other request.
    pub fn queue(&mut self, desc: RenderPipelineDescriptor) -> (id: RenderPipelineId)
        requires
            old(self).wf(),
            old(self).total_spec() < usize::MAX,
        ensures
            final(self).wf(),
            id.0 == old(self).total_spec(),
            !old(self).id_to_ind@.dom().contains(id_key(id)),
            forall|i: int| 0 <= i < old(self).waiting@.len()
                ==> (#[trigger] old(self).waiting@[i]).0 != id,
            final(self).waiting@ == old(self).waiting@.push((id, desc)),
            final(self).pipelines@ == old(self).pipelines@,
            final(self).id_to_ind@ == old(self).id_to_ind@,
            final(self).spec_get(id) is None,
    {
        let id = RenderPipelineId(self.pipelines.len() + self.waiting.len());
        proof {
            if self.id_to_ind@.dom().contains(id_key(id)) {
                let i = choose|i: int| 0 <= i < self.id_to_ind.entries_spec().len()
                    && (#[trigger] self.id_to_ind.entries_spec()[i]).0 == id_key(id);
                assert(self.id_to_ind.entries_spec()[i].0 < self.total_spec());
            }
        }
        self.waiting.push((id, desc));
        id
    }

    /// Looks a pipeline up; `None` until the request has been materialized,
    /// which callers treat as "skip this draw", never as an error.
    pub fn get(&self, id: &RenderPipelineId) -> (r: Option<&CompiledPipeline>)
        requires
            self.wf(),
        ensures
            match r {
                Some(c) => self.spec_get(*id) == Some(*c),
                None => self.spec_get(*id) is None,
            },
    {
        match self.id_to_ind.get(id.0 as u64) {
            Some(ind) => {
                let i = *ind;
                if i < self.pipelines.len() {
                    Some(&self.pipelines[i])
                } else {
                    None
                }
            },
            None => None,
        }
    }

    /// Records one materialized pipeline under `id`.
    fn create(
        &mut self,
        id: RenderPipelineId,
        desc: RenderPipelineDescriptor,
        vs_source: String,
        fs_source: Option<String>,
        vf_same: bool,
    )
        requires
            old(self).id_to_ind.wf(),
            !old(self).id_to_ind@.dom().contains(id_key(id)),
        ensures
            final(self).pipelines@ == old(self).pipelines@.push(
                CompiledPipeline { descriptor: desc, vs_source, fs_source, vf_same },
            ),
            final(self).id_to_ind@ == old(self).id_to_ind@.insert(
                id_key(id),
                old(self).pipelines@.len() as usize,
            ),
            final(self).id_to_ind.wf(),
            final(self).id_to_ind.entries_spec() == old(self).id_to_ind.entries_spec().push(
                (id_key(id), old(self).pipelines@.len() as usize),
            ),
            final(self).waiting@ == old(self).waiting@,
    {
        let pipeline = CompiledPipeline { descriptor: desc, vs_source, fs_source, vf_same };
        self.pipelines.push(pipeline);
        let ind = self.pipelines.len() - 1;
        self.id_to_ind.insert(id.0 as u64, ind);
    }

    /// One compilation pass, run once per frame: materializes every waiting
    /// request whose shaders have all loaded, in queue order, and re-queues
    /// the rest unchanged, in queue order. A request whose vertex and
    /// fragment stages name the same shader compiles one module for both.
    #[verifier::loop_isolation(false)]
    pub fn create_available_in_waiting(&mut self, shaders: &IdMap<Shader>)
        requires
            old(self).wf(),
            shaders.wf(),
        ensures
            final(self).wf(),
            final(self).total_spec() == old(self).total_spec(),
            final(self).waiting@ == still_waiting(old(self).waiting@, shaders@),
            final(self).pipelines@.len() == old(self).pipelines@.len() + count_ready(
                old(self).waiting@,
                shaders@,
            ),
            forall|i: int| 0 <= i < old(self).pipelines@.len()
                ==> final(self).pipelines@[i] == old(self).pipelines@[i],
            forall|k: u64| #![trigger old(self).id_to_ind@.dom().contains(k)]
                old(self).id_to_ind@.dom().contains(k) ==> {
                &&& final(self).id_to_ind@.dom().contains(k)
                &&& final(self).id_to_ind@[k] == old(self).id_to_ind@[k]
            },
            forall|j: int| 0 <= j < old(self).waiting@.len() && desc_ready(
                (#[trigger] old(self).waiting@[j]).1,
                shaders@,
            ) ==> {
                let key = id_key(old(self).waiting@[j].0);
                let idx = old(self).pipelines@.len() + count_ready(
                    old(self).waiting@.subrange(0, j),
                    shaders@,
                );
                &&& final(self).id_to_ind@.dom().contains(key)
                &&& final(self).id_to_ind@[key] == idx
                &&& compiled_matches(final(self).pipelines@[idx], old(self).waiting@[j].1, shaders@)
            },
            forall|k: u64| final(self).id_to_ind@.dom().contains(k)
                ==> old(self).id_to_ind@.dom().contains(k) || exists|j: int| {
                    &&& 0 <= j < old(self).waiting@.len()
                    &&& desc_ready((#[trigger] old(self).waiting@[j]).1, shaders@)
                    &&& k == id_key(old(self).waiting@[j].0)
                },
    {
        let ghost owaiting = self.waiting@;
        let ghost opipelines = self.pipelines@;
        let ghost omap = self.id_to_ind@;
        let ghost ototal = self.total_spec();
        let ghost n = owaiting.len() as int;

        let mut waiting_take: Vec<(RenderPipelineId, RenderPipelineDescriptor)> = Vec::new();
        core::mem::swap(&mut waiting_take, &mut self.waiting);

        proof {
            assert(owaiting.subrange(0, 0) =~= Seq::empty());
            assert(owaiting.subrange(0, n) =~= owaiting);
            assert(self.waiting@ =~= still_waiting(owaiting.subrange(0, 0), shaders@));
        }

        while waiting_take.len() > 0
            invariant
                shaders.wf(),
                n == owaiting.len(),
                forall|i: int, j: int| 0 <= i < j < n
                    ==> (#[trigger] owaiting[i]).0 != (#[trigger] owaiting[j]).0,
                forall|i: int| 0 <= i < n ==> {
                    &&& (#[trigger] owaiting[i]).0.0 < ototal
                    &&& !omap.dom().contains(id_key(owaiting[i].0))
                },
                waiting_take@.len() <= n,
                waiting_take@ == owaiting.subrange(n - waiting_take@.len(), n),
                self.id_to_ind.wf(),
                forall|i: int| 0 <= i < self.id_to_ind.entries_spec().len() ==> {
                    &&& (#[trigger] self.id_to_ind.entries_spec()[i]).1 < self.pipelines@.len()
                    &&& self.id_to_ind.entries_spec()[i].0 < ototal
                },
                self.pipelines@.len() == opipelines.len() + count_ready(
                    owaiting.subrange(0, n - waiting_take@.len()),
                    shaders@,
                ),
                forall|i: int| 0 <= i < opipelines.len() ==> self.pipelines@[i] == opipelines[i],
                self.waiting@ == still_waiting(owaiting.subrange(0, n - waiting_take@.len()), shaders@),
                forall|k: u64| #![trigger omap.dom().contains(k)] omap.dom().contains(k) ==> {
                    &&& self.id_to_ind@.dom().contains(k)
                    &&& self.id_to_ind@[k] == omap[k]
                },
                forall|j: int| 0 <= j < n - waiting_take@.len() && desc_ready(
                    (#[trigger] owaiting[j]).1,
                    shaders@,
                ) ==> {
                    let key = id_key(owaiting[j].0);
                    let idx = opipelines.len() + count_ready(owaiting.subrange(0, j), shaders@);
                    &&& self.id_to_ind@.dom().contains(key)
                    &&& self.id_to_ind@[key] == idx
                    &&& compiled_matches(self.pipelines@[idx], owaiting[j].1, shaders@)
                },
                forall|k: u64| self.id_to_ind@.dom().contains(k)
                    ==> omap.dom().contains(k) || exists|j: int| {
                        &&& 0 <= j < n - waiting_take@.len()
                        &&& desc_ready((#[trigger] owaiting[j]).1, shaders@)
                        &&& k == id_key(owaiting[j].0)
                    },
                forall|i: int| 0 <= i < self.waiting@.len() ==> {
                    &&& (#[trigger] self.waiting@[i]).0.0 < ototal
                    &&& !self.id_to_ind@.dom().contains(id_key(self.waiting@[i].0))
                },
                forall|i: int, j: int| 0 <= i < j < self.waiting@.len()
                    ==> (#[trigger] self.waiting@[i]).0 != (#[trigger] self.waiting@[j]).0,
                // the unprocessed requests still have fresh, mutually distinct ids
                forall|i: int| 0 <= i < waiting_take@.len() ==> {
                    &&& (#[trigger] waiting_take@[i]).0.0 < ototal
                    &&& !self.id_to_ind@.dom().contains(id_key(waiting_take@[i].0))
                },
                forall|i: int, j: int| 0 <= i < j < waiting_take@.len()
                    ==> (#[trigger] waiting_take@[i]).0 != (#[trigger] waiting_take@[j]).0,
                forall|i: int, j: int| 0 <= i < self.waiting@.len() && 0 <= j < waiting_take@.len()
                    ==> (#[trigger] self.waiting@[i]).0 != (#[trigger] waiting_take@[j]).0,
            decreases waiting_take@.len(),
        {
            let ghost p = n - waiting_take@.len();
            let ghost processed = owaiting.subrange(0, p);
            let ghost pre_take = waiting_take@;
            let (id, desc) = waiting_take.remove(0);
            proof {
                assert(pre_take[0] == (id, desc));
                assert(owaiting[p] == (id, desc));
                assert(!self.id_to_ind@.dom().contains(id_key(id)));
                assert(!omap.dom().contains(id_key(id)));
                assert(waiting_take@ =~= owaiting.subrange(n - waiting_take@.len(), n));
                assert(owaiting.subrange(0, p + 1).drop_last() =~= processed);
                assert(owaiting.subrange(0, p + 1).last() == owaiting[p]);
            }
            let ghost processed1 = owaiting.subrange(0, p + 1);

            let vs_opt = shaders.get(desc.vertex.shader);
            let mut requeue = false;
            let mut vf_same = false;
            let mut fs_source: Option<String> = None;
            let mut vs_source = String::new();
            match vs_opt {
                None => {
                    requeue = true;
                },
                Some(vs) => {
                    vs_source = vs.raw.clone();
                    match &desc.fragment {
                        Some(f) => {
                            if f.shader == desc.vertex.shader {
                                vf_same = true;
                                fs_source = Some(vs.raw.clone());
                            } else {
                                match shaders.get(f.shader) {
                                    Some(fsh) => {
                                        fs_source = Some(fsh.raw.clone());
                                    },
                                    None => {
                                        requeue = true;
                                    },
                                }
                            }
                        },
                        None => {},
                    }
                },
            }

            if requeue {
                proof {
                    assert(!desc_ready(desc, shaders@));
                }
                self.waiting.push((id, desc));
                proof {
                    assert(self.waiting@ =~= still_waiting(processed1, shaders@));
                }
            } else {
                proof {
                    assert(desc_ready(desc, shaders@));
                }
                let ghost pre = *self;
                proof {
                    assert(forall|k: u64| omap.dom().contains(k) ==> pre.id_to_ind@.dom().contains(k)
                        && pre.id_to_ind@[k] == omap[k]);
                    assert(forall|j: int| 0 <= j < p && desc_ready(
                        (#[trigger] owaiting[j]).1,
                        shaders@,
                    ) ==> pre.id_to_ind@.dom().contains(id_key(owaiting[j].0))
                        && pre.id_to_ind@[id_key(owaiting[j].0)] == opipelines.len() + count_ready(
                            owaiting.subrange(0, j), shaders@)
                        && compiled_matches(
                            pre.pipelines@[opipelines.len() + count_ready(owaiting.subrange(0, j), shaders@)],
                            owaiting[j].1,
                            shaders@,
                        ));
                    assert(forall|i: int| 0 <= i < opipelines.len()
                        ==> #[trigger] pre.pipelines@[i] == opipelines[i]);
                }
                let ghost newpipe = CompiledPipeline {
                    descriptor: desc,
                    vs_source: vs_source,
                    fs_source: fs_source,
                    vf_same: vf_same,
                };
                self.create(id, desc, vs_source, fs_source, vf_same);
                proof {
                    lemma_count_ready_bounds(processed, shaders@);
                    assert(pre.pipelines.len() == pre.pipelines@.len());
                    assert(self.pipelines@ == pre.pipelines@.push(newpipe));
                    assert(self.waiting@ =~= still_waiting(processed1, shaders@));
                    let key = id_key(id);
                    assert(self.id_to_ind@ == pre.id_to_ind@.insert(key, pre.pipelines@.len() as usize));
                    assert forall|i: int| 0 <= i < opipelines.len()
                        implies #[trigger] self.pipelines@[i] == opipelines[i] by {
                        assert(pre.pipelines@[i] == opipelines[i]);
                        assert(pre.pipelines@.push(newpipe)[i] == pre.pipelines@[i]);
                        assert(self.pipelines@[i] == pre.pipelines@[i]);
                    }
                    assert forall|k: u64| omap.dom().contains(k) implies {
                        &&& self.id_to_ind@.dom().contains(k)
                        &&& self.id_to_ind@[k] == omap[k]
                    } by {
                        assert(k != key);
                        assert(pre.id_to_ind@.dom().contains(k));
                        assert(pre.id_to_ind@[k] == omap[k]);
                        assert(self.id_to_ind@[k] == pre.id_to_ind@[k]);
                    }
                    let idx = opipelines.len() + count_ready(processed, shaders@);
                    assert(self.pipelines@[idx as int] == CompiledPipeline {
                        descriptor: desc,
                        vs_source: vs_source,
                        fs_source: fs_source,
                        vf_same: vf_same,
                    });
                    assert(compiled_matches(self.pipelines@[idx as int], desc, shaders@));
                    assert forall|j: int| 0 <= j < p + 1 && desc_ready(
                        (#[trigger] owaiting[j]).1,
                        shaders@,
                    ) implies {
                        let key2 = id_key(owaiting[j].0);
                        let idx2 = opipelines.len() + count_ready(owaiting.subrange(0, j), shaders@);
                        &&& self.id_to_ind@.dom().contains(key2)
                        &&& self.id_to_ind@[key2] == idx2
                        &&& compiled_matches(self.pipelines@[idx2], owaiting[j].1, shaders@)
                    } by {
                        if j < p {
                            let key2 = id_key(owaiting[j].0);
                            let idx2 = opipelines.len() + count_ready(
                                owaiting.subrange(0, j),
                                shaders@,
                            );
                            assert(owaiting[j].0 != owaiting[p].0);
                            assert(owaiting[j].0.0 != owaiting[p].0.0);
                            assert(key2 != id_key(id));
                            assert(pre.id_to_ind@.dom().contains(key2));
                            assert(pre.id_to_ind@[key2] == idx2);
                            assert(self.id_to_ind@[key2] == pre.id_to_ind@[key2]);
                            assert(pre.id_to_ind@[key2] == idx2);
                            assert(compiled_matches(pre.pipelines@[idx2], owaiting[j].1, shaders@));
                            lemma_count_ready_bounds(owaiting.subrange(0, j), shaders@);
                            assert(count_ready(owaiting.subrange(0, j), shaders@)
                                <= count_ready(processed, shaders@)) by {
                                lemma_count_ready_prefix(owaiting, shaders@, j, p);
                            }
                            assert(idx2 < pre.pipelines@.len());
                            assert(pre.pipelines@.push(newpipe)[idx2] == pre.pipelines@[idx2]);
                            assert(self.pipelines@[idx2] == pre.pipelines@[idx2]);
                        } else {
                            let key2 = id_key(owaiting[j].0);
                            let idx2 = opipelines.len() + count_ready(
                                owaiting.subrange(0, j),
                                shaders@,
                            );
                            assert(j == p);
                            assert(owaiting.subrange(0, j) =~= processed);
                            assert(owaiting[j].0 == id);
                            assert(key2 == key);
                            assert(pre.id_to_ind@.insert(key, pre.pipelines@.len() as usize)[key]
                                == pre.pipelines@.len() as usize);
                            assert(self.id_to_ind@[key] == pre.pipelines@.len() as usize);
                            assert(count_ready(owaiting.subrange(0, j), shaders@)
                                == count_ready(processed, shaders@));
                            assert(pre.pipelines@.len() == opipelines.len() + count_ready(
                                processed,
                                shaders@,
                            ));
                            assert(idx2 == pre.pipelines@.len());
                            assert(self.id_to_ind@[key2] == idx2);
                        }
                    }
                }
            }
        }
        proof {
            assert(owaiting.subrange(0, n - waiting_take@.len()) =~= owaiting);
            lemma_count_ready_bounds(owaiting, shaders@);
            lemma_still_waiting_len(owaiting, shaders@);
        }
    }
}

/// Readiness counts are monotone over prefixes of the queue.
pub proof fn lemma_count_ready_prefix(
    waiting: Seq<(RenderPipelineId, RenderPipelineDescriptor)>,
    shaders: Map<u64, Shader>,
    a: int,
    b: int,
)
    requires
        0 <= a <= b <= waiting.len(),
    ensures
        count_ready(waiting.subrange(0, a), shaders) <= count_ready(waiting.subrange(0, b), shaders),
    decreases b - a,
{
    if a < b {
        lemma_count_ready_prefix(waiting, shaders, a, b - 1);
        assert(waiting.subrange(0, b).drop_last() =~= waiting.subrange(0, b - 1));
        lemma_count_ready_bounds(waiting.subrange(0, b - 1), shaders);
    }
}

/// Exactly the not-ready requests stay queued.
pub proof fn lemma_still_waiting_len(
    waiting: Seq<(RenderPipelineId, RenderPipelineDescriptor)>,
    shaders: Map<u64, Shader>,
)
    ensures
        still_waiting(waiting, shaders).len() == waiting.len() - count_ready(waiting, shaders),
    decreases waiting.len(),
{
    if waiting.len() > 0 {
        lemma_still_waiting_len(waiting.drop_last(), shaders);
        lemma_count_ready_bounds(waiting.drop_last(), shaders);
    }
}

} // verus!
