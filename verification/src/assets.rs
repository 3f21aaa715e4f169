//! The render-asset preparation pipeline: for every CPU asset type there is a
//! GPU-side prepared counterpart kept in an id-keyed map. Asset change events
//! (created, modified, removed) drive the map; an asset that cannot be
//! prepared yet is queued to be retried before the next frame's events, in
//! arrival order. Events for assets removed before their retry are a benign
//! no-op, and an asset prepared then modified in the same frame is processed
//! in event order, last write wins.
use vstd::prelude::*;
use crate::idmap::IdMap;

verus! {

/// One asset-change event from the asset-loading collaborator.
#[derive(Clone, Copy, PartialEq, Eq, Structural, Debug)]
pub enum AssetEvent {
    Created { id: u64 },
    Modified { id: u64 },
    Removed { id: u64 },
}

pub open spec fn event_id(e: AssetEvent) -> u64 {
    match e {
        AssetEvent::Created { id } => id,
        AssetEvent::Modified { id } => id,
        AssetEvent::Removed { id } => id,
    }
}

/// A CPU asset with a GPU-side prepared counterpart. `prepare` returns `None`
/// while the asset cannot be prepared yet; `should_prepare` is the per-type
/// retry policy, true by default.
pub trait RenderAsset: Sized {
    type Prepared;

    /// What `prepare` returns for this asset value.
    spec fn prepare_spec(&self) -> Option<Self::Prepared>;

    /// Whether a not-yet-preparable asset is retried next frame.
    spec fn should_prepare_spec(&self) -> bool;

    fn prepare(&self) -> (r: Option<Self::Prepared>)
        ensures
            r == self.prepare_spec(),
    ;

    fn should_prepare(&self) -> (r: bool)
        ensures
            r == self.should_prepare_spec(),
    ;
}

/// The GPU-side mirror of one asset type, and the ids to retry next frame.
pub struct RenderAssetStore<A: RenderAsset> {
    pub render_assets: IdMap<A::Prepared>,
    pub try_next_frame: Vec<u64>,
}

/// The effect of draining the retry list: each queued id whose asset exists
/// is prepared into the map or, still unpreparable and on the retry policy,
/// re-queued in order; ids whose asset is gone are silently dropped.
pub open spec fn apply_try<A: RenderAsset>(
    assets: Map<u64, A>,
    gpu: Map<u64, A::Prepared>,
    tries: Seq<u64>,
) -> (Map<u64, A::Prepared>, Seq<u64>)
    decreases tries.len(),
{
    if tries.len() == 0 {
        (gpu, Seq::empty())
    } else {
        let prev = apply_try(assets, gpu, tries.drop_last());
        let id = tries.last();
        if assets.dom().contains(id) {
            match assets[id].prepare_spec() {
                Some(p) => (prev.0.insert(id, p), prev.1),
                None => if assets[id].should_prepare_spec() {
                    (prev.0, prev.1.push(id))
                } else {
                    (prev.0, prev.1)
                },
            }
        } else {
            prev
        }
    }
}

/// The effect of this frame's events, applied in arrival order after the
/// retry drain: created or modified assets are (re)prepared or queued for
/// retry, removed assets leave the map unconditionally.
pub open spec fn apply_events<A: RenderAsset>(
    assets: Map<u64, A>,
    gpu: Map<u64, A::Prepared>,
    tries: Seq<u64>,
    events: Seq<AssetEvent>,
) -> (Map<u64, A::Prepared>, Seq<u64>)
    decreases events.len(),
{
    if events.len() == 0 {
        (gpu, tries)
    } else {
        let prev = apply_events(assets, gpu, tries, events.drop_last());
        match events.last() {
            AssetEvent::Removed { id } => (prev.0.remove(id), prev.1),
            AssetEvent::Created { id } | AssetEvent::Modified { id } => {
                if assets.dom().contains(id) {
                    match assets[id].prepare_spec() {
                        Some(p) => (prev.0.insert(id, p), prev.1),
                        None => if assets[id].should_prepare_spec() {
                            (prev.0, prev.1.push(id))
                        } else {
                            (prev.0, prev.1)
                        },
                    }
                } else {
                    prev
                }
            },
        }
    }
}

/// One whole frame of the preparation pipeline: the retry drain, then the
/// frame's events.
pub open spec fn frame_step<A: RenderAsset>(
    assets: Map<u64, A>,
    gpu: Map<u64, A::Prepared>,
    tries: Seq<u64>,
    events: Seq<AssetEvent>,
) -> (Map<u64, A::Prepared>, Seq<u64>) {
    let drained = apply_try(assets, gpu, tries);
    apply_events(assets, drained.0, drained.1, events)
}

impl<A: RenderAsset> RenderAssetStore<A> {
    pub open spec fn wf(&self) -> bool {
        self.render_assets.wf()
    }

    pub fn new() -> (r: Self)
        ensures
            r.wf(),
            r.render_assets@ == Map::<u64, A::Prepared>::empty(),
            r.try_next_frame@ == Seq::<u64>::empty(),
    {
        let r = RenderAssetStore { render_assets: IdMap::new(), try_next_frame: Vec::new() };
        proof {
            assert(r.try_next_frame@ =~= Seq::<u64>::empty());
        }
        r
    }

    /// Runs one frame of the preparation pipeline against the current CPU
    /// assets and this frame's events.
    #[verifier::loop_isolation(false)]
    pub fn prepare_render_assets(&mut self, assets: &IdMap<A>, events: &Vec<AssetEvent>)
        requires
            old(self).wf(),
            assets.wf(),
        ensures
            final(self).wf(),
            (final(self).render_assets@, final(self).try_next_frame@) == frame_step(
                assets@,
                old(self).render_assets@,
                old(self).try_next_frame@,
                events@,
            ),
    {
        let ghost otries = self.try_next_frame@;
        let ghost ogpu = self.render_assets@;
        let ghost n = otries.len() as int;

        let mut try_take: Vec<u64> = Vec::new();
        core::mem::swap(&mut try_take, &mut self.try_next_frame);
        proof {
            assert(otries.subrange(0, 0) =~= Seq::<u64>::empty());
            assert(otries.subrange(0, n) =~= otries);
            assert(self.try_next_frame@ =~= apply_try(assets@, ogpu, otries.subrange(0, 0)).1);
        }

        while try_take.len() > 0
            invariant
                try_take@.len() <= n,
                try_take@ == otries.subrange(n - try_take@.len(), n),
                self.wf(),
                (self.render_assets@, self.try_next_frame@) == apply_try(
                    assets@,
                    ogpu,
                    otries.subrange(0, n - try_take@.len()),
                ),
            decreases try_take@.len(),
        {
            let ghost p = n - try_take@.len();
            let ghost pre_take = try_take@;
            let id = try_take.remove(0);
            proof {
                assert(pre_take[0] == id);
                assert(otries[p] == id);
                assert(try_take@ =~= otries.subrange(n - try_take@.len(), n));
                assert(otries.subrange(0, p + 1).drop_last() =~= otries.subrange(0, p));
                assert(otries.subrange(0, p + 1).last() == otries[p]);
            }
            match assets.get(id) {
                Some(asset) => {
                    let prepared = asset.prepare();
                    match prepared {
                        Some(render_asset) => {
                            self.render_assets.insert(id, render_asset);
                        },
                        None => {
                            if asset.should_prepare() {
                                self.try_next_frame.push(id);
                            }
                        },
                    }
                },
                None => {},
            }
        }
        proof {
            assert(otries.subrange(0, n - try_take@.len()) =~= otries);
        }

        let ghost drained_gpu = self.render_assets@;
        let ghost drained_tries = self.try_next_frame@;
        let ghost m = events@.len() as int;
        proof {
            assert(events@.subrange(0, 0) =~= Seq::<AssetEvent>::empty());
        }

        let num_events = events.len();
        for k in 0..num_events
            invariant
                num_events == events@.len(),
                self.wf(),
                (self.render_assets@, self.try_next_frame@) == apply_events(
                    assets@,
                    drained_gpu,
                    drained_tries,
                    events@.subrange(0, k as int),
                ),
        {
            proof {
                assert(events@.subrange(0, k + 1).drop_last() =~= events@.subrange(0, k as int));
                assert(events@.subrange(0, k + 1).last() == events@[k as int]);
            }
            let event = events[k];
            match event {
                AssetEvent::Created { id } | AssetEvent::Modified { id } => {
                    match assets.get(id) {
                        Some(asset) => {
                            let prepared = asset.prepare();
                            match prepared {
                                Some(render_asset) => {
                                    self.render_assets.insert(id, render_asset);
                                },
                                None => {
                                    if asset.should_prepare() {
                                        self.try_next_frame.push(id);
                                    }
                                },
                            }
                        },
                        None => {},
                    }
                },
                AssetEvent::Removed { id } => {
                    self.render_assets.remove(id);
                },
            }
        }
        proof {
            assert(events@.subrange(0, m) =~= events@);
        }
    }
}

// --- the retry-convergence law and its helper lemmas ---

/// In one frame, `id`'s asset exists but cannot be prepared yet, stays on the
/// default retry policy, and no event names it.
pub open spec fn frame_pending<A: RenderAsset>(
    assets: Map<u64, A>,
    events: Seq<AssetEvent>,
    id: u64,
) -> bool {
    &&& assets.dom().contains(id)
    &&& assets[id].prepare_spec() is None
    &&& assets[id].should_prepare_spec()
    &&& forall|e: int| 0 <= e < events.len() ==> event_id(#[trigger] events[e]) != id
}

/// In one frame, `id`'s asset exists and has become preparable, and no event
/// names it.
pub open spec fn frame_preparable<A: RenderAsset>(
    assets: Map<u64, A>,
    events: Seq<AssetEvent>,
    id: u64,
) -> bool {
    &&& assets.dom().contains(id)
    &&& assets[id].prepare_spec() is Some
    &&& forall|e: int| 0 <= e < events.len() ==> event_id(#[trigger] events[e]) != id
}

/// The state after the first `k` of a sequence of frames, each a pair of the
/// frame's CPU assets and its events.
pub open spec fn run_frames<A: RenderAsset>(
    gpu: Map<u64, A::Prepared>,
    tries: Seq<u64>,
    frames: Seq<(Map<u64, A>, Seq<AssetEvent>)>,
) -> (Map<u64, A::Prepared>, Seq<u64>)
    decreases frames.len(),
{
    if frames.len() == 0 {
        (gpu, tries)
    } else {
        let prev = run_frames(gpu, tries, frames.drop_last());
        frame_step(frames.last().0, prev.0, prev.1, frames.last().1)
    }
}

proof fn lemma_apply_try_pending<A: RenderAsset>(
    assets: Map<u64, A>,
    gpu: Map<u64, A::Prepared>,
    tries: Seq<u64>,
    id: u64,
)
    requires
        assets.dom().contains(id),
        assets[id].prepare_spec() is None,
        assets[id].should_prepare_spec(),
        !gpu.dom().contains(id),
    ensures
        tries.contains(id) ==> apply_try(assets, gpu, tries).1.contains(id),
        !apply_try(assets, gpu, tries).0.dom().contains(id),
    decreases tries.len(),
{
    if tries.len() > 0 {
        lemma_apply_try_pending(assets, gpu, tries.drop_last(), id);
        if tries.contains(id) {
            if tries.last() == id {
                assert(apply_try(assets, gpu, tries).1.last() == id);
            } else {
                let j = choose|j: int| 0 <= j < tries.len() && tries[j] == id;
                assert(tries.drop_last()[j] == id);
                assert(tries.drop_last().contains(id));
                let prev1 = apply_try(assets, gpu, tries.drop_last()).1;
                let k = choose|k: int| 0 <= k < prev1.len() && prev1[k] == id;
                if apply_try(assets, gpu, tries).1 != prev1 {
                    assert(apply_try(assets, gpu, tries).1[k] == id);
                }
            }
        }
    }
}

proof fn lemma_apply_try_prepared<A: RenderAsset>(
    assets: Map<u64, A>,
    gpu: Map<u64, A::Prepared>,
    tries: Seq<u64>,
    id: u64,
    p: A::Prepared,
)
    requires
        assets.dom().contains(id),
        assets[id].prepare_spec() == Some(p),
        tries.contains(id),
    ensures
        apply_try(assets, gpu, tries).0.dom().contains(id),
        apply_try(assets, gpu, tries).0[id] == p,
    decreases tries.len(),
{
    if tries.len() > 0 {
        if tries.last() == id {
        } else {
            let j = choose|j: int| 0 <= j < tries.len() && tries[j] == id;
            assert(tries.drop_last()[j] == id);
            assert(tries.drop_last().contains(id));
            lemma_apply_try_prepared(assets, gpu, tries.drop_last(), id, p);
        }
    }
}

proof fn lemma_apply_events_untouched<A: RenderAsset>(
    assets: Map<u64, A>,
    gpu: Map<u64, A::Prepared>,
    tries: Seq<u64>,
    events: Seq<AssetEvent>,
    id: u64,
)
    requires
        forall|e: int| 0 <= e < events.len() ==> event_id(#[trigger] events[e]) != id,
    ensures
        apply_events(assets, gpu, tries, events).0.dom().contains(id) == gpu.dom().contains(id),
        gpu.dom().contains(id) ==> apply_events(assets, gpu, tries, events).0[id] == gpu[id],
        apply_events(assets, gpu, tries, events).1.contains(id) == tries.contains(id),
    decreases events.len(),
{
    if events.len() > 0 {
        assert(forall|e: int| 0 <= e < events.drop_last().len()
            ==> event_id(#[trigger] events.drop_last()[e]) != id);
        lemma_apply_events_untouched(assets, gpu, tries, events.drop_last(), id);
        let prev = apply_events(assets, gpu, tries, events.drop_last());
        let cur = apply_events(assets, gpu, tries, events);
        assert(event_id(events.last()) != id);
        if cur.1 != prev.1 {
            // this frame's event queued another id for retry
            let pushed = event_id(events.last());
            assert(cur.1 =~= prev.1.push(pushed));
            if cur.1.contains(id) {
                let k = choose|k: int| 0 <= k < cur.1.len() && cur.1[k] == id;
                if k < prev.1.len() {
                    assert(prev.1[k] == id);
                } else {
                    assert(cur.1[k] == pushed);
                }
            }
            if prev.1.contains(id) {
                let k = choose|k: int| 0 <= k < prev.1.len() && prev.1[k] == id;
                assert(cur.1[k] == id);
            }
        }
    }
}

/// Retry convergence: an asset that starts queued for retry and unprepared,
/// stays pending for every frame before the last, and becomes preparable in
/// the last frame, is absent from the GPU-asset map after every proper prefix
/// of the frames and present, with its prepared value, after the last one.
pub proof fn lemma_retry_convergence<A: RenderAsset>(
    gpu: Map<u64, A::Prepared>,
    tries: Seq<u64>,
    frames: Seq<(Map<u64, A>, Seq<AssetEvent>)>,
    id: u64,
    p: A::Prepared,
)
    requires
        frames.len() >= 1,
        tries.contains(id),
        !gpu.dom().contains(id),
        forall|f: int| 0 <= f < frames.len() - 1 ==> frame_pending(
            (#[trigger] frames[f]).0,
            frames[f].1,
            id,
        ),
        frame_preparable(frames.last().0, frames.last().1, id),
        frames.last().0[id].prepare_spec() == Some(p),
    ensures
        forall|f: int| 0 <= f < frames.len() ==> !(#[trigger] run_frames(
            gpu,
            tries,
            frames.subrange(0, f),
        )).0.dom().contains(id),
        run_frames(gpu, tries, frames).0.dom().contains(id),
        run_frames(gpu, tries, frames).0[id] == p,
    decreases frames.len(),
{
    lemma_retry_pending_prefix(gpu, tries, frames.drop_last(), id);
    assert forall|f: int| 0 <= f < frames.len() implies !(#[trigger] run_frames(
        gpu,
        tries,
        frames.subrange(0, f),
    )).0.dom().contains(id) by {
        assert(frames.subrange(0, f) =~= frames.drop_last().subrange(0, f));
    }
    // after all pending frames, id is still queued and absent
    let st = run_frames(gpu, tries, frames.drop_last());
    assert(frames.drop_last().subrange(0, frames.len() - 1) =~= frames.drop_last());
    // the last frame prepares it during the retry drain and no event touches it
    let assets = frames.last().0;
    let events = frames.last().1;
    lemma_apply_try_prepared(assets, st.0, st.1, id, p);
    let drained = apply_try(assets, st.0, st.1);
    lemma_apply_events_untouched(assets, drained.0, drained.1, events, id);
}

/// After every prefix of a run of pending frames, `id` is still queued for
/// retry and still absent from the GPU-asset map.
proof fn lemma_retry_pending_prefix<A: RenderAsset>(
    gpu: Map<u64, A::Prepared>,
    tries: Seq<u64>,
    frames: Seq<(Map<u64, A>, Seq<AssetEvent>)>,
    id: u64,
)
    requires
        tries.contains(id),
        !gpu.dom().contains(id),
        forall|f: int| 0 <= f < frames.len() ==> frame_pending(
            (#[trigger] frames[f]).0,
            frames[f].1,
            id,
        ),
    ensures
        forall|f: int| 0 <= f <= frames.len() ==> {
            &&& !(#[trigger] run_frames(gpu, tries, frames.subrange(0, f))).0.dom().contains(id)
            &&& run_frames(gpu, tries, frames.subrange(0, f)).1.contains(id)
        },
    decreases frames.len(),
{
    assert(frames.subrange(0, 0) =~= Seq::<(Map<u64, A>, Seq<AssetEvent>)>::empty());
    if frames.len() > 0 {
        assert(forall|f: int| 0 <= f < frames.drop_last().len() ==> frame_pending(
            (#[trigger] frames.drop_last()[f]).0,
            frames.drop_last()[f].1,
            id,
        ));
        lemma_retry_pending_prefix(gpu, tries, frames.drop_last(), id);
        assert forall|f: int| 0 <= f <= frames.len() implies {
            &&& !(#[trigger] run_frames(gpu, tries, frames.subrange(0, f))).0.dom().contains(id)
            &&& run_frames(gpu, tries, frames.subrange(0, f)).1.contains(id)
        } by {
            if f < frames.len() {
                assert(frames.subrange(0, f) =~= frames.drop_last().subrange(0, f));
            } else {
                // one more pending frame on top of the prefix state
                assert(frames.subrange(0, f) =~= frames);
                assert(frames.drop_last().subrange(0, frames.len() - 1) =~= frames.drop_last());
                let st = run_frames(gpu, tries, frames.drop_last());
                let assets = frames.last().0;
                let events = frames.last().1;
                lemma_apply_try_pending(assets, st.0, st.1, id);
                let drained = apply_try(assets, st.0, st.1);
                lemma_apply_events_untouched(assets, drained.0, drained.1, events, id);
            }
        }
    }
}

} // verus!
