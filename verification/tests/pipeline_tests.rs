use instanced_draw::pipeline::PipelineDescriptor;
use instanced_draw::pipeline::SpecializationError;
use instanced_draw::pipeline::SpecializedPipelineCache;
use instanced_draw::pipeline::StepMode;
use instanced_draw::pipeline::Topology;
use instanced_draw::pipeline::VertexAttribute;
use instanced_draw::pipeline::VertexBufferLayout;
use instanced_draw::pipeline::VertexFormat;
use instanced_draw::pipeline::instance_layout;
use instanced_draw::pipeline::make_key;
use instanced_draw::pipeline::specialize_descriptor;

fn base_descriptor() -> PipelineDescriptor {
    PipelineDescriptor {
        vertex_shader: 7,
        fragment_shader: 8,
        buffers: vec![VertexBufferLayout {
            array_stride: 12,
            step_mode: StepMode::Vertex,
            attributes: vec![VertexAttribute {
                format: VertexFormat::Float32x3,
                offset: 0,
                shader_location: 0,
            }],
        }],
    }
}

#[test]
fn equal_combinations_give_equal_keys() {
    let a = make_key(4, true, Topology::TriangleList);
    let b = make_key(4, true, Topology::TriangleList);
    assert_eq!(a, b);
}

#[test]
fn distinct_combinations_give_distinct_keys() {
    let k = make_key(4, true, Topology::TriangleList);
    assert_ne!(make_key(8, true, Topology::TriangleList), k);
    assert_ne!(make_key(4, false, Topology::TriangleList), k);
    assert_ne!(make_key(4, true, Topology::TriangleStrip), k);
    assert_ne!(make_key(1, false, Topology::PointList), make_key(2, false, Topology::PointList));
}

#[test]
fn instance_layout_matches_shader_contract() {
    let l = instance_layout();
    assert_eq!(l.array_stride, 32);
    assert!(matches!(l.step_mode, StepMode::Instance));
    assert_eq!(l.attributes.len(), 2);
    // Location 3: packed position + scale in the first 16 bytes.
    assert!(matches!(l.attributes[0].format, VertexFormat::Float32x4));
    assert_eq!(l.attributes[0].offset, 0);
    assert_eq!(l.attributes[0].shader_location, 3);
    // Location 4: color in the next 16 bytes.
    assert!(matches!(l.attributes[1].format, VertexFormat::Float32x4));
    assert_eq!(l.attributes[1].offset, 16);
    assert_eq!(l.attributes[1].shader_location, 4);
}

#[test]
fn specialization_augments_base_descriptor() {
    let base = base_descriptor();
    let d = specialize_descriptor(&base, 42);
    // The custom shader is bound to both stages.
    assert_eq!(d.vertex_shader, 42);
    assert_eq!(d.fragment_shader, 42);
    // The base binding is kept, the per-instance binding is appended.
    assert_eq!(d.buffers.len(), 2);
    assert_eq!(d.buffers[0].array_stride, 12);
    assert_eq!(d.buffers[0].attributes.len(), 1);
    assert_eq!(d.buffers[1].array_stride, 32);
    assert!(matches!(d.buffers[1].step_mode, StepMode::Instance));
    assert_eq!(d.buffers[1].attributes[0].shader_location, 3);
    assert_eq!(d.buffers[1].attributes[1].shader_location, 4);
}

#[test]
fn second_request_returns_cached_pipeline() {
    let base = base_descriptor();
    let mut cache = SpecializedPipelineCache::new();
    let key = make_key(4, true, Topology::TriangleList);

    let (id1, built1) = cache.specialize(key, Some(&base), 42).unwrap();
    assert_eq!(id1, 0);
    assert!(built1.is_some(), "a fresh key must build");

    let (id2, built2) = cache.specialize(key, Some(&base), 42).unwrap();
    assert_eq!(id2, id1, "the second request must reuse the cached id");
    assert!(built2.is_none(), "the second request must not build");
    assert_eq!(cache.entries.len(), 1);
}

#[test]
fn distinct_keys_build_distinct_pipelines() {
    let base = base_descriptor();
    let mut cache = SpecializedPipelineCache::new();
    let k1 = make_key(4, true, Topology::TriangleList);
    let k2 = make_key(4, false, Topology::TriangleList);
    let (id1, _) = cache.specialize(k1, Some(&base), 42).unwrap();
    let (id2, _) = cache.specialize(k2, Some(&base), 42).unwrap();
    assert_ne!(id1, id2);
    assert_eq!(cache.entries.len(), 2);
}

#[test]
fn unsupported_layout_is_a_specialization_error() {
    let mut cache = SpecializedPipelineCache::new();
    let key = make_key(2, false, Topology::LineList);
    let r = cache.specialize(key, None, 42);
    assert!(matches!(r, Err(SpecializationError::UnsupportedLayout)));
    // The error caches nothing: the cache did not move.
    assert_eq!(cache.entries.len(), 0);
    assert_eq!(cache.next_id, 0);
}
