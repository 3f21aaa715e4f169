//! Cameras: render targets, per-camera visible-entity sets recomputed every
//! frame, and aspect-ratio propagation into projections on window resize.
use vstd::prelude::*;
use crate::layers::{spec_layers_intersect, RenderLayers};
use crate::window::WindowId;
use crate::events::WindowResized;

verus! {

/// Where a camera renders: an off-screen image asset or a window surface.
#[derive(Clone, Copy, PartialEq, Eq, Structural, Debug, Hash)]
pub enum RenderTarget {
    Image(u64),
    Window(WindowId),
}

impl RenderTarget {
    pub open spec fn spec_get_window(&self) -> Option<WindowId> {
        match *self {
            RenderTarget::Window(id) => Some(id),
            RenderTarget::Image(_) => None,
        }
    }

    pub fn get_window(&self) -> (r: Option<WindowId>)
        ensures
            r == self.spec_get_window(),
    {
        if let RenderTarget::Window(id) = self {
            return Some(*id);
        }
        None
    }

    pub fn holds_image(&self, image_id: u64) -> (r: bool)
        ensures
            r == (*self matches RenderTarget::Image(h) && h == image_id),
    {
        match self {
            RenderTarget::Image(handle) => image_id == *handle,
            RenderTarget::Window(_) => false,
        }
    }

    pub fn holds_window(&self, window_id: WindowId) -> (r: bool)
        ensures
            r == (*self matches RenderTarget::Window(id) && id == window_id),
    {
        match self {
            RenderTarget::Image(_) => false,
            RenderTarget::Window(id) => window_id.0 == id.0,
        }
    }
}

/// A camera's aspect ratio, kept as the exact width/height pair it came from.
#[derive(Clone, Copy, PartialEq, Eq, Structural, Debug)]
pub struct AspectRatio {
    pub width: u32,
    pub height: u32,
}

/// A perspective projection, reduced to what the renderer's logic reads and
/// writes: the aspect ratio propagated from the render target's size.
#[derive(Clone, Copy, PartialEq, Eq, Structural, Debug)]
pub struct PerspectiveProjection {
    pub aspect: AspectRatio,
}

impl Default for PerspectiveProjection {
    /// A fresh projection assumes a square target.
    fn default() -> (r: Self)
        ensures
            r.aspect == (AspectRatio { width: 1, height: 1 }),
    {
        PerspectiveProjection { aspect: AspectRatio { width: 1, height: 1 } }
    }
}

impl PerspectiveProjection {
    /// Adopts the render target's new size as the aspect ratio.
    pub fn update(&mut self, width: u32, height: u32)
        ensures
            final(self).aspect == (AspectRatio { width, height }),
    {
        self.aspect = AspectRatio { width, height };
    }
}

/// The per-camera set of visible entity ids, fully recomputed every frame.
pub struct VisibleEntities {
    pub entities: Vec<u64>,
}

impl VisibleEntities {
    pub fn new() -> (r: Self)
        ensures
            r.entities@ == Seq::<u64>::empty(),
    {
        let r = VisibleEntities { entities: Vec::new() };
        proof {
            assert(r.entities@ =~= Seq::<u64>::empty());
        }
        r
    }

    pub fn clear(&mut self)
        ensures
            final(self).entities@ == Seq::<u64>::empty(),
    {
        self.entities.clear();
        proof {
            assert(self.entities@ =~= Seq::<u64>::empty());
        }
    }
}

/// A camera: its target, whether it draws, its visibility set, its projection
/// and its layer mask.
pub struct Camera {
    pub render_target: RenderTarget,
    pub is_active: bool,
    pub visible_entities: VisibleEntities,
    pub projection: PerspectiveProjection,
    pub layers: Option<RenderLayers>,
    /// This frame's serialized camera uniform record.
    pub view_record: Vec<u8>,
}

/// What the visibility pass reads of one entity.
pub struct EntityVisibility {
    pub entity: u64,
    pub visible: bool,
    pub layers: Option<RenderLayers>,
}

/// The entities a camera with mask `cam_layers` must see, in their iteration
/// order: the visible-flagged ones whose layer mask intersects the camera's.
pub open spec fn visible_for_camera(
    entities: Seq<EntityVisibility>,
    cam_layers: Option<RenderLayers>,
) -> Seq<u64>
    decreases entities.len(),
{
    if entities.len() == 0 {
        Seq::empty()
    } else {
        visible_for_camera(entities.drop_last(), cam_layers) + {
            let e = entities.last();
            if e.visible && spec_layers_intersect(e.layers, cam_layers) {
                seq![e.entity]
            } else {
                Seq::empty()
            }
        }
    }
}

/// Recomputes every camera's visible-entity set from scratch: clears each
/// set, then walks the entities in order and adds each visible one to every
/// camera whose layer mask it intersects.
#[verifier::loop_isolation(false)]
pub fn visibility_system(cameras: &mut Vec<Camera>, entities: &Vec<EntityVisibility>)
    ensures
        final(cameras)@.len() == old(cameras)@.len(),
        forall|c: int| 0 <= c < old(cameras)@.len() ==> {
            &&& (#[trigger] final(cameras)@[c]).visible_entities.entities@ == visible_for_camera(
                entities@,
                old(cameras)@[c].layers,
            )
            &&& final(cameras)@[c].render_target == old(cameras)@[c].render_target
            &&& final(cameras)@[c].is_active == old(cameras)@[c].is_active
            &&& final(cameras)@[c].projection == old(cameras)@[c].projection
            &&& final(cameras)@[c].layers == old(cameras)@[c].layers
            &&& final(cameras)@[c].view_record == old(cameras)@[c].view_record
        },
{
    let ncam = cameras.len();
    for c in 0..ncam
        invariant
            cameras@.len() == ncam,
            forall|k: int| 0 <= k < ncam ==> {
                &&& (#[trigger] cameras@[k]).render_target == old(cameras)@[k].render_target
                &&& cameras@[k].is_active == old(cameras)@[k].is_active
                &&& cameras@[k].projection == old(cameras)@[k].projection
                &&& cameras@[k].layers == old(cameras)@[k].layers
                &&& cameras@[k].view_record == old(cameras)@[k].view_record
            },
            forall|k: int| 0 <= k < c
                ==> (#[trigger] cameras@[k]).visible_entities.entities@ == Seq::<u64>::empty(),
    {
        let cam = &mut cameras[c];
        cam.visible_entities.clear();
    }
    proof {
        assert(entities@.subrange(0, 0) =~= Seq::<EntityVisibility>::empty());
        assert forall|k: int| 0 <= k < ncam implies (#[trigger] cameras@[k]).visible_entities.entities@
            == visible_for_camera(entities@.subrange(0, 0), old(cameras)@[k].layers) by {
            assert(visible_for_camera(entities@.subrange(0, 0), old(cameras)@[k].layers)
                =~= Seq::<u64>::empty());
        }
    }
    let nent = entities.len();
    for i in 0..nent
        invariant
            cameras@.len() == ncam,
            nent == entities@.len(),
            forall|k: int| 0 <= k < ncam ==> {
                &&& (#[trigger] cameras@[k]).render_target == old(cameras)@[k].render_target
                &&& cameras@[k].is_active == old(cameras)@[k].is_active
                &&& cameras@[k].projection == old(cameras)@[k].projection
                &&& cameras@[k].layers == old(cameras)@[k].layers
                &&& cameras@[k].view_record == old(cameras)@[k].view_record
            },
            forall|k: int| 0 <= k < ncam
                ==> (#[trigger] cameras@[k]).visible_entities.entities@ == visible_for_camera(
                    entities@.subrange(0, i as int),
                    old(cameras)@[k].layers,
                ),
    {
        proof {
            assert(entities@.subrange(0, i + 1).drop_last() =~= entities@.subrange(0, i as int));
            assert(entities@.subrange(0, i + 1).last() == entities@[i as int]);
        }
        let e = &entities[i];
        if e.visible {
            for c in 0..ncam
                invariant
                    cameras@.len() == ncam,
                    nent == entities@.len(),
                    i < nent,
                    entities@[i as int].visible,
                    forall|k: int| 0 <= k < ncam ==> {
                        &&& (#[trigger] cameras@[k]).render_target == old(cameras)@[k].render_target
                        &&& cameras@[k].is_active == old(cameras)@[k].is_active
                        &&& cameras@[k].projection == old(cameras)@[k].projection
                        &&& cameras@[k].layers == old(cameras)@[k].layers
                        &&& cameras@[k].view_record == old(cameras)@[k].view_record
                    },
                    forall|k: int| c <= k < ncam
                        ==> (#[trigger] cameras@[k]).visible_entities.entities@ == visible_for_camera(
                            entities@.subrange(0, i as int),
                            old(cameras)@[k].layers,
                        ),
                    forall|k: int| 0 <= k < c
                        ==> (#[trigger] cameras@[k]).visible_entities.entities@ == visible_for_camera(
                            entities@.subrange(0, i + 1),
                            old(cameras)@[k].layers,
                        ),
            {
                let intersects = crate::layers::layers_intersect(
                    entities[i].layers.as_ref(),
                    cameras[c].layers.as_ref(),
                );
                if intersects {
                    let entity_id = entities[i].entity;
                    let cam = &mut cameras[c];
                    cam.visible_entities.entities.push(entity_id);
                }
                proof {
                    assert(cameras@[c as int].visible_entities.entities@ == visible_for_camera(
                        entities@.subrange(0, i + 1),
                        old(cameras)@[c as int].layers,
                    ));
                }
            }
        } else {
            proof {
                assert forall|k: int| 0 <= k < ncam implies (#[trigger] cameras@[k]).visible_entities.entities@
                    == visible_for_camera(entities@.subrange(0, i + 1), old(cameras)@[k].layers) by {
                    assert(visible_for_camera(entities@.subrange(0, i + 1), old(cameras)@[k].layers)
                        =~= visible_for_camera(entities@.subrange(0, i as int), old(cameras)@[k].layers));
                }
            }
        }
    }
    proof {
        assert(entities@.subrange(0, nent as int) =~= entities@);
    }
}

/// On every resize event with a non-zero size, updates the aspect ratio of
/// each camera whose render target is the resized window; a zero width or
/// height leaves every camera unchanged.
#[verifier::loop_isolation(false)]
pub fn update_projections_on_window_resize(cameras: &mut Vec<Camera>, events: &Vec<WindowResized>)
    ensures
        final(cameras)@.len() == old(cameras)@.len(),
        forall|c: int| 0 <= c < old(cameras)@.len() ==> {
            &&& (#[trigger] final(cameras)@[c]).projection.aspect == project_resizes(
                old(cameras)@[c].projection.aspect,
                old(cameras)@[c].render_target,
                events@,
            )
            &&& final(cameras)@[c].render_target == old(cameras)@[c].render_target
            &&& final(cameras)@[c].is_active == old(cameras)@[c].is_active
            &&& final(cameras)@[c].layers == old(cameras)@[c].layers
            &&& final(cameras)@[c].view_record == old(cameras)@[c].view_record
            &&& final(cameras)@[c].visible_entities.entities@
                == old(cameras)@[c].visible_entities.entities@
        },
{
    let nev = events.len();
    let ncam = cameras.len();
    proof {
        assert(events@.subrange(0, 0) =~= Seq::<WindowResized>::empty());
    }
    for i in 0..nev
        invariant
            cameras@.len() == ncam,
            nev == events@.len(),
            forall|k: int| 0 <= k < ncam ==> {
                &&& (#[trigger] cameras@[k]).render_target == old(cameras)@[k].render_target
                &&& cameras@[k].is_active == old(cameras)@[k].is_active
                &&& cameras@[k].layers == old(cameras)@[k].layers
                &&& cameras@[k].view_record == old(cameras)@[k].view_record
                &&& cameras@[k].visible_entities.entities@
                    == old(cameras)@[k].visible_entities.entities@
                &&& cameras@[k].projection.aspect == project_resizes(
                    old(cameras)@[k].projection.aspect,
                    old(cameras)@[k].render_target,
                    events@.subrange(0, i as int),
                )
            },
    {
        proof {
            assert(events@.subrange(0, i + 1).drop_last() =~= events@.subrange(0, i as int));
            assert(events@.subrange(0, i + 1).last() == events@[i as int]);
        }
        let ev = events[i];
        if ev.width > 0 && ev.height > 0 {
            for c in 0..ncam
                invariant
                    cameras@.len() == ncam,
                    nev == events@.len(),
                    i < nev,
                    events@[i as int] == ev,
                    ev.width > 0 && ev.height > 0,
                    forall|k: int| 0 <= k < ncam ==> {
                        &&& (#[trigger] cameras@[k]).render_target == old(cameras)@[k].render_target
                        &&& cameras@[k].is_active == old(cameras)@[k].is_active
                        &&& cameras@[k].layers == old(cameras)@[k].layers
                        &&& cameras@[k].view_record == old(cameras)@[k].view_record
                        &&& cameras@[k].visible_entities.entities@
                            == old(cameras)@[k].visible_entities.entities@
                    },
                    forall|k: int| c <= k < ncam
                        ==> (#[trigger] cameras@[k]).projection.aspect == project_resizes(
                            old(cameras)@[k].projection.aspect,
                            old(cameras)@[k].render_target,
                            events@.subrange(0, i as int),
                        ),
                    forall|k: int| 0 <= k < c
                        ==> (#[trigger] cameras@[k]).projection.aspect == project_resizes(
                            old(cameras)@[k].projection.aspect,
                            old(cameras)@[k].render_target,
                            events@.subrange(0, i + 1),
                        ),
            {
                let holds = cameras[c].render_target.holds_window(ev.id);
                if holds {
                    let cam = &mut cameras[c];
                    cam.projection.update(ev.width, ev.height);
                }
            }
        } else {
            proof {
                assert forall|k: int| 0 <= k < ncam implies (#[trigger] cameras@[k]).projection.aspect
                    == project_resizes(
                    old(cameras)@[k].projection.aspect,
                    old(cameras)@[k].render_target,
                    events@.subrange(0, i + 1),
                ) by {}
            }
        }
    }
    proof {
        assert(events@.subrange(0, nev as int) =~= events@);
    }
}

/// The aspect ratio after a sequence of resize events: the size of the last
/// non-zero resize of the camera's own window, zero-size events ignored.
pub open spec fn project_resizes(
    aspect: AspectRatio,
    target: RenderTarget,
    events: Seq<WindowResized>,
) -> AspectRatio
    decreases events.len(),
{
    if events.len() == 0 {
        aspect
    } else {
        let prev = project_resizes(aspect, target, events.drop_last());
        let ev = events.last();
        if ev.width > 0 && ev.height > 0 && (target matches RenderTarget::Window(id) && id == ev.id) {
            AspectRatio { width: ev.width, height: ev.height }
        } else {
            prev
        }
    }
}

} // verus!
