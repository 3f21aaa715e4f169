//! The pipeline cache's deferred compilation and the specialization
//! registry's memoization.
use flat::core_pipeline::{build_usual_descriptor, PipelineCommons};
use flat::buffer::vertex_layout;
use flat::idmap::IdMap;
use flat::mesh3d::MeshPipeline;
use flat::pipeline::PipelineCache;
use flat::shader::Shader;
use flat::specialized::Specialized;

#[test]
fn queue_assigns_monotonic_ids_and_get_is_none_before_compile() {
    let mut cache = PipelineCache::new();
    let a = cache.queue(build_usual_descriptor(10, vertex_layout(), Vec::new()));
    let b = cache.queue(build_usual_descriptor(11, vertex_layout(), Vec::new()));
    assert_eq!(a.0, 0);
    assert_eq!(b.0, 1);
    assert!(cache.get(&a).is_none());
    assert!(cache.get(&b).is_none());
}

#[test]
fn compile_waits_for_shaders_and_keeps_order() {
    let mut cache = PipelineCache::new();
    let a = cache.queue(build_usual_descriptor(10, vertex_layout(), Vec::new()));
    let b = cache.queue(build_usual_descriptor(11, vertex_layout(), Vec::new()));

    // only shader 11 is loaded: request `a` is re-queued unchanged
    let mut shaders: IdMap<Shader> = IdMap::new();
    shaders.insert(11, Shader::from_wgsl("fn fs_main() {}"));
    cache.create_available_in_waiting(&shaders);
    assert!(cache.get(&a).is_none());
    let compiled_b = cache.get(&b).expect("b compiles");
    // both stages name the same shader: one module, reused
    assert!(compiled_b.vf_same);
    assert_eq!(compiled_b.vs_source, "fn fs_main() {}");
    assert_eq!(compiled_b.fs_source.as_deref(), Some("fn fs_main() {}"));

    // the shader arrives: the pending request compiles on the next pass
    shaders.insert(10, Shader::from_wgsl("fn vs_main() {}"));
    cache.create_available_in_waiting(&shaders);
    let compiled_a = cache.get(&a).expect("a compiles");
    assert_eq!(compiled_a.vs_source, "fn vs_main() {}");
}

#[test]
fn specialize_is_memoized_per_key() {
    let mut cache = PipelineCache::new();
    let mut registry: Specialized<MeshPipeline> = Specialized::new();
    let pipeline = MeshPipeline::new();

    let id1 = registry.specialize(&pipeline, &mut cache, 6);
    let queued_after_first = cache.waiting.len();
    let id2 = registry.specialize(&pipeline, &mut cache, 6);
    // the same key returns the same id and builds nothing new
    assert_eq!(id1, id2);
    assert_eq!(cache.waiting.len(), queued_after_first);

    // a distinct key builds and queues its own pipeline
    let id3 = registry.specialize(&pipeline, &mut cache, 4);
    assert_ne!(id1, id3);
    assert_eq!(cache.waiting.len(), queued_after_first + 1);
}

#[test]
fn common_layouts_have_one_dynamic_uniform_each() {
    let commons = PipelineCommons::new();
    assert_eq!(commons.model_layout.entries.len(), 1);
    assert_eq!(commons.model_layout.entries[0].binding, 0);
    assert_eq!(commons.view_layout.entries.len(), 1);
}
