//! The pipeline specialization registry: maps a small structural key to the
//! pipeline id that was queued for it, so that each distinct key builds and
//! queues its descriptor at most once. Keys are never evicted.
use vstd::prelude::*;
use crate::idmap::IdMap;
use crate::pipeline::{PipelineCache, RenderPipelineDescriptor, RenderPipelineId};

verus! {

/// A pipeline type that can be specialized: it builds a full descriptor from
/// a key describing the structural variation.
pub trait PipelineSpecialize {
    /// What the built descriptor must look like for `key`.
    spec fn descriptor_spec(&self, key: u64, desc: RenderPipelineDescriptor) -> bool;

    /// Builds the specialized descriptor for `key`.
    fn specialize(&self, key: u64) -> (r: RenderPipelineDescriptor)
        ensures
            self.descriptor_spec(key, r),
    ;
}

/// The memoization registry for one pipeline type.
pub struct Specialized<P: PipelineSpecialize> {
    pub pipelines: IdMap<RenderPipelineId>,
    pub marker: core::marker::PhantomData<P>,
}

impl<P: PipelineSpecialize> Specialized<P> {
    pub open spec fn wf(&self) -> bool {
        self.pipelines.wf()
    }

    pub fn new() -> (r: Self)
        ensures
            r.wf(),
            r.pipelines@ == Map::<u64, RenderPipelineId>::empty(),
    {
        Specialized { pipelines: IdMap::new(), marker: core::marker::PhantomData }
    }

    /// Memoized specialization. The first call for a key invokes the
    /// pipeline type's descriptor builder and queues the result; every later
    /// call with an equal key returns the stored id without rebuilding the
    /// descriptor and leaves the cache untouched.
    pub fn specialize(&mut self, pipeline: &P, cache: &mut PipelineCache, key: u64) -> (id: RenderPipelineId)
        requires
            old(self).wf(),
            old(cache).wf(),
            old(cache).total_spec() < usize::MAX,
        ensures
            final(self).wf(),
            final(cache).wf(),
            final(self).pipelines@ == old(self).pipelines@.insert(key, id),
            final(self).pipelines@.dom().contains(key),
            id == final(self).pipelines@[key],
            old(self).pipelines@.dom().contains(key) ==> {
                &&& id == old(self).pipelines@[key]
                &&& final(self).pipelines@ == old(self).pipelines@
                &&& *final(cache) == *old(cache)
            },
            !old(self).pipelines@.dom().contains(key) ==> {
                &&& id.0 == old(cache).total_spec()
                &&& final(cache).waiting@.len() == old(cache).waiting@.len() + 1
                &&& final(cache).waiting@ == old(cache).waiting@.push(
                    (id, final(cache).waiting@.last().1),
                )
                &&& pipeline.descriptor_spec(key, final(cache).waiting@.last().1)
                &&& final(cache).pipelines@ == old(cache).pipelines@
                &&& final(cache).id_to_ind@ == old(cache).id_to_ind@
                &&& final(cache).spec_get(id) is None
            },
    {
        let cached = self.pipelines.get(key);
        match cached {
            Some(id) => {
                let id = *id;
                proof {
                    assert(old(self).pipelines@.insert(key, id) =~= old(self).pipelines@);
                }
                id
            },
            None => {
                let desc = pipeline.specialize(key);
                let id = cache.queue(desc);
                self.pipelines.insert(key, id);
                id
            },
        }
    }
}

/// Pipeline memoization: once a first request bound `key` to `id1`, a second
/// request against the same registry with an equal key returns the same id
/// and, as `specialize`'s contract states for a key already bound, neither
/// rebuilds the descriptor nor touches the registry or the cache.
pub proof fn lemma_specialize_memoized(
    reg0: Map<u64, RenderPipelineId>,
    reg1: Map<u64, RenderPipelineId>,
    reg2: Map<u64, RenderPipelineId>,
    id1: RenderPipelineId,
    id2: RenderPipelineId,
    k1: u64,
    k2: u64,
)
    requires
        k1 == k2,
        // the first request bound its key:
        reg1 == reg0.insert(k1, id1),
        // the second request found the key bound, so it returned the stored
        // id and changed nothing:
        reg2 == reg1.insert(k2, id2),
        id2 == reg1[k2],
    ensures
        id2 == id1,
        reg2 == reg1,
{
    assert(reg1[k2] == id1);
    assert(reg2 =~= reg1);
}

} // verus!
