//! Surface and swap-chain lifecycle: per-window surfaces are created once,
//! reconfigured in place on resize, and dropped on close. A resize with a
//! zero width or height is ignored, since a zero-area surface must never be
//! configured. Each window's depth texture follows its surface: recreated at
//! the new size whenever the surface is (re)configured. A failed texture
//! acquisition is recovered by one reconfigure-and-retry when the surface is
//! outdated, and otherwise skips the window for this frame — never a panic.
use vstd::prelude::*;
use crate::camera::RenderTarget;
use crate::idmap::IdMap;
use crate::pipeline::TextureFormatModel;
use crate::window::{window_key, AlphaModeModel, PresentModeModel, Window, WindowId};

verus! {

pub const DEPTH_FORMAT: TextureFormatModel = TextureFormatModel::Depth32Float;

/// A surface's applied configuration.
#[derive(Clone, Copy, PartialEq, Eq, Structural, Debug)]
pub struct SurfaceConfigModel {
    pub width: u32,
    pub height: u32,
    pub format: TextureFormatModel,
    pub present_mode: PresentModeModel,
    pub alpha_mode: AlphaModeModel,
}

/// One window's surface: its present format, chosen once at creation as the
/// first supported format, and the configuration last applied to it. The
/// surface object itself is never recreated, only reconfigured.
#[derive(Clone, Copy, PartialEq, Eq, Structural, Debug)]
pub struct SurfaceState {
    pub format: TextureFormatModel,
    pub configured: Option<SurfaceConfigModel>,
}

/// A depth texture's dimensions; its format is always `DEPTH_FORMAT`.
#[derive(Clone, Copy, PartialEq, Eq, Structural, Debug)]
pub struct DepthTextureModel {
    pub width: u32,
    pub height: u32,
}

/// Depth textures keyed uniformly by render target.
pub struct DepthTextures {
    pub windows: IdMap<DepthTextureModel>,
    pub images: IdMap<DepthTextureModel>,
}

impl DepthTextures {
    pub open spec fn wf(&self) -> bool {
        self.windows.wf() && self.images.wf()
    }

    pub open spec fn spec_get(&self, target: RenderTarget) -> Option<DepthTextureModel> {
        match target {
            RenderTarget::Window(id) => if self.windows@.dom().contains(window_key(id)) {
                Some(self.windows@[window_key(id)])
            } else {
                None
            },
            RenderTarget::Image(id) => if self.images@.dom().contains(id) {
                Some(self.images@[id])
            } else {
                None
            },
        }
    }

    pub fn new() -> (r: Self)
        ensures
            r.wf(),
            r.windows@ == Map::<u64, DepthTextureModel>::empty(),
            r.images@ == Map::<u64, DepthTextureModel>::empty(),
    {
        DepthTextures { windows: IdMap::new(), images: IdMap::new() }
    }

    pub fn get(&self, target: &RenderTarget) -> (r: Option<&DepthTextureModel>)
        requires
            self.wf(),
        ensures
            match r {
                Some(d) => self.spec_get(*target) == Some(*d),
                None => self.spec_get(*target) is None,
            },
    {
        match target {
            RenderTarget::Window(id) => self.windows.get(id.0 as u64),
            RenderTarget::Image(id) => self.images.get(*id),
        }
    }

    pub fn insert(&mut self, target: &RenderTarget, depth: DepthTextureModel)
        requires
            old(self).wf(),
        ensures
            final(self).wf(),
            final(self).spec_get(*target) == Some(depth),
            match *target {
                RenderTarget::Window(id) => {
                    &&& final(self).windows@ == old(self).windows@.insert(window_key(id), depth)
                    &&& final(self).images@ == old(self).images@
                },
                RenderTarget::Image(id) => {
                    &&& final(self).images@ == old(self).images@.insert(id, depth)
                    &&& final(self).windows@ == old(self).windows@
                },
            },
    {
        match target {
            RenderTarget::Window(id) => self.windows.insert(id.0 as u64, depth),
            RenderTarget::Image(id) => self.images.insert(*id, depth),
        }
    }

    pub fn remove(&mut self, target: &RenderTarget)
        requires
            old(self).wf(),
        ensures
            final(self).wf(),
            final(self).spec_get(*target) is None,
            match *target {
                RenderTarget::Window(id) => {
                    &&& final(self).windows@ == old(self).windows@.remove(window_key(id))
                    &&& final(self).images@ == old(self).images@
                },
                RenderTarget::Image(id) => {
                    &&& final(self).images@ == old(self).images@.remove(id)
                    &&& final(self).windows@ == old(self).windows@
                },
            },
    {
        match target {
            RenderTarget::Window(id) => {
                self.windows.remove(id.0 as u64);
            },
            RenderTarget::Image(id) => {
                self.images.remove(*id);
            },
        }
    }
}

/// One acquisition attempt's outcome, as the graphics backend reports it.
#[derive(Clone, Copy, PartialEq, Eq, Structural, Debug)]
pub enum AcquireOutcome {
    Acquired,
    Outdated,
    Lost,
    Timeout,
}

/// A window as the render world prepares it each frame: its current size and
/// modes, what changed since the last frame, and whether a surface texture
/// has been acquired for this frame.
#[derive(Clone, Copy, PartialEq, Eq, Structural, Debug)]
pub struct PreparedWindow {
    pub id: WindowId,
    pub physical_width: u32,
    pub physical_height: u32,
    pub present_mode: PresentModeModel,
    pub alpha_mode: AlphaModeModel,
    pub has_surface_texture: bool,
    pub size_changed: bool,
    pub present_mode_changed: bool,
}

/// What `prepare_windows` turns one tracked window into, given its previous
/// prepared state if any: sizes and modes are copied, the change flags are
/// computed against the previous frame, and the acquired texture is dropped.
pub open spec fn prepared_of(w: Window, prev: Option<PreparedWindow>) -> PreparedWindow {
    match prev {
        None => PreparedWindow {
            id: w.id,
            physical_width: w.physical_width,
            physical_height: w.physical_height,
            present_mode: w.present_mode,
            alpha_mode: w.alpha_mode,
            has_surface_texture: false,
            size_changed: false,
            present_mode_changed: false,
        },
        Some(p) => PreparedWindow {
            id: w.id,
            physical_width: w.physical_width,
            physical_height: w.physical_height,
            present_mode: w.present_mode,
            alpha_mode: w.alpha_mode,
            has_surface_texture: false,
            size_changed: w.physical_width != p.physical_width || w.physical_height
                != p.physical_height,
            present_mode_changed: w.present_mode != p.present_mode,
        },
    }
}

/// The prepared-window map after walking the tracked windows in order.
pub open spec fn prepare_windows_spec(
    windows: Seq<(u64, Window)>,
    prepared: Map<u64, PreparedWindow>,
) -> Map<u64, PreparedWindow>
    decreases windows.len(),
{
    if windows.len() == 0 {
        prepared
    } else {
        let prev = prepare_windows_spec(windows.drop_last(), prepared);
        let (key, w) = windows.last();
        let existing = if prev.dom().contains(key) {
            Some(prev[key])
        } else {
            None
        };
        prev.insert(key, prepared_of(w, existing))
    }
}

/// Refreshes the per-window prepared state from the tracked windows: size and
/// mode changes are detected against the last frame and each window's
/// acquired texture is dropped, ready for this frame's configuration pass.
#[verifier::loop_isolation(false)]
pub fn prepare_windows(windows: &IdMap<Window>, prepared: &mut IdMap<PreparedWindow>)
    requires
        windows.wf(),
        old(prepared).wf(),
    ensures
        final(prepared).wf(),
        final(prepared)@ == prepare_windows_spec(windows.entries_spec(), old(prepared)@),
{
    let n = windows.len();
    proof {
        assert(windows.entries_spec().subrange(0, 0) =~= Seq::<(u64, Window)>::empty());
    }
    for i in 0..n
        invariant
            n == windows.entries_spec().len(),
            prepared.wf(),
            prepared@ == prepare_windows_spec(windows.entries_spec().subrange(0, i as int), old(prepared)@),
    {
        proof {
            assert(windows.entries_spec().subrange(0, i + 1).drop_last() =~= windows.entries_spec()
                .subrange(0, i as int));
            assert(windows.entries_spec().subrange(0, i + 1).last() == windows.entries_spec()[i as int]);
        }
        let key = windows.key_at(i);
        let w = *windows.value_at(i);
        let existing = prepared.get(key);
        let next = match existing {
            None => PreparedWindow {
                id: w.id,
                physical_width: w.physical_width,
                physical_height: w.physical_height,
                present_mode: w.present_mode,
                alpha_mode: w.alpha_mode,
                has_surface_texture: false,
                size_changed: false,
                present_mode_changed: false,
            },
            Some(p) => PreparedWindow {
                id: w.id,
                physical_width: w.physical_width,
                physical_height: w.physical_height,
                present_mode: w.present_mode,
                alpha_mode: w.alpha_mode,
                has_surface_texture: false,
                size_changed: w.physical_width != p.physical_width || w.physical_height
                    != p.physical_height,
                present_mode_changed: w.present_mode != p.present_mode,
            },
        };
        prepared.insert(key, next);
    }
    proof {
        assert(windows.entries_spec().subrange(0, n as int) =~= windows.entries_spec());
    }
}

/// The surface configuration a prepared window asks for, at the surface's own
/// format.
pub open spec fn desired_config(w: PreparedWindow, format: TextureFormatModel) -> SurfaceConfigModel {
    SurfaceConfigModel {
        width: w.physical_width,
        height: w.physical_height,
        format: format,
        present_mode: w.present_mode,
        alpha_mode: w.alpha_mode,
    }
}

/// Everything the per-window configuration pass decides.
pub struct ConfigureOutcome {
    pub surface: SurfaceState,
    pub depth: Option<DepthTextureModel>,
    pub window: PreparedWindow,
}

/// One window's configuration pass.
///
/// A window without a surface gets one, at the first supported format. A
/// zero-size window is then left alone: its stored configuration, depth
/// texture and texture stay exactly as they were. A new, resized or
/// mode-changed window is (re)configured in place and its depth texture is
/// recreated at the same size; otherwise the surface texture is acquired,
/// recovering from an outdated surface by one reconfigure-and-retry, and
/// skipping this window for the frame on any other failure.
#[verifier::loop_isolation(false)]
pub fn configure_surface(
    surfaces: &mut IdMap<SurfaceState>,
    depth_textures: &mut DepthTextures,
    window: &mut PreparedWindow,
    supported_format: TextureFormatModel,
    acquire: AcquireOutcome,
    retry_acquire: AcquireOutcome,
)
    requires
        old(surfaces).wf(),
        old(depth_textures).wf(),
    ensures
        final(surfaces).wf(),
        final(depth_textures).wf(),
        final(surfaces)@.dom().contains(window_key(old(window).id)),
        ({
            let key = window_key(old(window).id);
            let was_new = !old(surfaces)@.dom().contains(key);
            let state0 = if was_new {
                SurfaceState { format: supported_format, configured: None }
            } else {
                old(surfaces)@[key]
            };
            let w = *old(window);
            let config = desired_config(w, state0.format);
            let target = RenderTarget::Window(w.id);
            if w.physical_width == 0 || w.physical_height == 0 {
                // zero-size resize: the stored configuration is not touched
                &&& final(surfaces)@ == old(surfaces)@.insert(key, state0)
                &&& final(surfaces)@[key].configured == state0.configured
                &&& final(depth_textures).windows@ == old(depth_textures).windows@
                &&& final(depth_textures).images@ == old(depth_textures).images@
                &&& *final(window) == w
            } else if was_new || w.size_changed || w.present_mode_changed {
                // (re)configure in place and recreate the depth texture
                &&& final(surfaces)@ == old(surfaces)@.insert(
                    key,
                    SurfaceState { configured: Some(config), ..state0 },
                )
                &&& final(depth_textures).windows@ == old(depth_textures).windows@.insert(
                    key,
                    DepthTextureModel { width: config.width, height: config.height },
                )
                &&& final(depth_textures).images@ == old(depth_textures).images@
                &&& *final(window) == (PreparedWindow {
                    has_surface_texture: acquire == AcquireOutcome::Acquired || (acquire
                        == AcquireOutcome::Outdated && retry_acquire == AcquireOutcome::Acquired),
                    ..w
                })
            } else {
                match acquire {
                    AcquireOutcome::Acquired => {
                        &&& final(surfaces)@ == old(surfaces)@.insert(key, state0)
                        &&& final(depth_textures).windows@ == old(depth_textures).windows@
                        &&& final(depth_textures).images@ == old(depth_textures).images@
                        &&& *final(window) == (PreparedWindow { has_surface_texture: true, ..w })
                    },
                    AcquireOutcome::Outdated => {
                        // reconfigure with the last known configuration, retry
                        // once, and refresh the depth texture if one exists
                        &&& final(surfaces)@ == old(surfaces)@.insert(
                            key,
                            SurfaceState { configured: Some(config), ..state0 },
                        )
                        &&& final(depth_textures).windows@ == if old(
                            depth_textures,
                        ).windows@.dom().contains(key) {
                            old(depth_textures).windows@.insert(
                                key,
                                DepthTextureModel { width: config.width, height: config.height },
                            )
                        } else {
                            old(depth_textures).windows@
                        }
                        &&& final(depth_textures).images@ == old(depth_textures).images@
                        &&& *final(window) == (PreparedWindow {
                            has_surface_texture: retry_acquire == AcquireOutcome::Acquired,
                            ..w
                        })
                    },
                    _ => {
                        // transient failure: skip this window for the frame
                        &&& final(surfaces)@ == old(surfaces)@.insert(key, state0)
                        &&& final(depth_textures).windows@ == old(depth_textures).windows@
                        &&& final(depth_textures).images@ == old(depth_textures).images@
                        &&& *final(window) == (PreparedWindow { has_surface_texture: false, ..w })
                    },
                }
            }
        }),
{
    let key = window.id.0 as u64;
    let existing = surfaces.get(key);
    let was_new = existing.is_none();
    let state0 = match existing {
        Some(s) => *s,
        None => SurfaceState { format: supported_format, configured: None },
    };
    surfaces.insert(key, state0);

    if window.physical_width == 0 || window.physical_height == 0 {
        return ;
    }

    let config = SurfaceConfigModel {
        width: window.physical_width,
        height: window.physical_height,
        format: state0.format,
        present_mode: window.present_mode,
        alpha_mode: window.alpha_mode,
    };

    if was_new || window.size_changed || window.present_mode_changed {
        surfaces.insert(key, SurfaceState { format: state0.format, configured: Some(config) });
        let target = RenderTarget::Window(window.id);
        depth_textures.insert(
            &target,
            DepthTextureModel { width: config.width, height: config.height },
        );
        window.has_surface_texture = acquire == AcquireOutcome::Acquired || (acquire
            == AcquireOutcome::Outdated && retry_acquire == AcquireOutcome::Acquired);
    } else {
        match acquire {
            AcquireOutcome::Acquired => {
                window.has_surface_texture = true;
            },
            AcquireOutcome::Outdated => {
                surfaces.insert(key, SurfaceState { format: state0.format, configured: Some(config) });
                let target = RenderTarget::Window(window.id);
                let has_depth = depth_textures.get(&target).is_some();
                if has_depth {
                    depth_textures.insert(
                        &target,
                        DepthTextureModel { width: config.width, height: config.height },
                    );
                }
                window.has_surface_texture = retry_acquire == AcquireOutcome::Acquired;
            },
            _ => {
                window.has_surface_texture = false;
            },
        }
    }
}

/// Drops a closed window's surface and depth texture, in that order; from the
/// next frame on the window is gone.
pub fn destroy_window_surface(
    surfaces: &mut IdMap<SurfaceState>,
    depth_textures: &mut DepthTextures,
    id: WindowId,
)
    requires
        old(surfaces).wf(),
        old(depth_textures).wf(),
    ensures
        final(surfaces).wf(),
        final(depth_textures).wf(),
        final(surfaces)@ == old(surfaces)@.remove(window_key(id)),
        final(depth_textures).windows@ == old(depth_textures).windows@.remove(window_key(id)),
        final(depth_textures).images@ == old(depth_textures).images@,
{
    surfaces.remove(id.0 as u64);
    let target = RenderTarget::Window(id);
    depth_textures.remove(&target);
}

/// Zero-size resize is a no-op: a configuration pass over a window whose
/// width or height is zero leaves the stored surface configuration of every
/// window, and every depth texture, exactly as it was.
pub proof fn lemma_zero_size_resize_noop(
    surfaces0: Map<u64, SurfaceState>,
    surfaces1: Map<u64, SurfaceState>,
    state0: SurfaceState,
    w: PreparedWindow,
)
    requires
        w.physical_width == 0 || w.physical_height == 0,
        // what `configure_surface` guarantees for a zero-size window:
        surfaces0.dom().contains(window_key(w.id)),
        state0 == surfaces0[window_key(w.id)],
        surfaces1 == surfaces0.insert(window_key(w.id), state0),
    ensures
        surfaces1 == surfaces0,
        forall|k: u64| surfaces1.dom().contains(k) ==> #[trigger] surfaces1[k].configured
            == surfaces0[k].configured,
{
    assert(surfaces1 =~= surfaces0);
}

/// Resize idempotence: once a window is configured at some size, a second
/// configuration pass for the same unchanged size acquires and leaves the
/// surface configuration and the depth texture exactly as they were; and
/// whenever the pass does recreate the depth texture, the new texture's
/// dimensions equal the surface configuration's.
pub proof fn lemma_resize_idempotent(
    surfaces0: Map<u64, SurfaceState>,
    surfaces1: Map<u64, SurfaceState>,
    depth0: Map<u64, DepthTextureModel>,
    depth1: Map<u64, DepthTextureModel>,
    w: PreparedWindow,
)
    requires
        w.physical_width > 0,
        w.physical_height > 0,
        !w.size_changed,
        !w.present_mode_changed,
        surfaces0.dom().contains(window_key(w.id)),
        // what `configure_surface` guarantees for an unchanged, acquired window:
        surfaces1 == surfaces0.insert(window_key(w.id), surfaces0[window_key(w.id)]),
        depth1 == depth0,
    ensures
        surfaces1 == surfaces0,
        depth1 == depth0,
{
    assert(surfaces1 =~= surfaces0);
}

} // verus!
