//! A render-graph driven frame renderer: a pipeline cache with deferred
//! shader compilation, a pipeline specialization registry, per-frame GPU
//! resource preparation with retry, dynamic uniform batching, render-phase
//! sorting and draw dispatch, and surface lifecycle management.
//!
//! All renderer decisions are made over plain values (ids, byte records,
//! sizes), so the logic here is verified; the surrounding process performs
//! the actual GPU and windowing calls from the records this crate produces.
use vstd::prelude::*;

pub mod asset;
pub mod assets;
pub mod bind;
pub mod buffer;
pub mod camera;
pub mod core_pipeline;
pub mod dispatch;
pub mod mesh;
pub mod mesh3d;
pub mod events;
pub mod idmap;
pub mod layers;
pub mod phase;
pub mod pipeline;
pub mod specialized;
pub mod sprite;
pub mod texture;
pub mod surface;
pub mod uniform;
pub mod window;
pub mod shader;

verus! {

/// The fixed per-tick stage order of the renderer. Stages run in declaration
/// order with a barrier between them: `Prepare` (assets, pipelines, windows),
/// `Create` (bind groups, surface configuration), `Render` (phase collection
/// and draw dispatch), `Cleanup`.
#[derive(Clone, Copy, PartialEq, Eq, Structural, Debug)]
pub enum RenderStage {
    Prepare,
    Create,
    Render,
    Cleanup,
}

} // verus!
