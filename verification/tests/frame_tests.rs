use instanced_draw::buffers::GpuStream;
use instanced_draw::buffers::InstanceBufferHandle;
use instanced_draw::buffers::prepare_instance_buffers;
use instanced_draw::codec::InstanceRecord;
use instanced_draw::draw::DrawOutcome;
use instanced_draw::draw::RenderCommand;
use instanced_draw::draw::render_draw_item;
use instanced_draw::draw::run_phase;
use instanced_draw::pipeline::PipelineDescriptor;
use instanced_draw::pipeline::SpecializedPipelineCache;
use instanced_draw::pipeline::StepMode;
use instanced_draw::pipeline::Topology;
use instanced_draw::pipeline::VertexAttribute;
use instanced_draw::pipeline::VertexBufferLayout;
use instanced_draw::pipeline::VertexFormat;
use instanced_draw::queue::ViewInput;
use instanced_draw::queue::queue_frame;
use instanced_draw::queue::queue_view;
use instanced_draw::world::BufferSlice;
use instanced_draw::world::DrawItem;
use instanced_draw::world::DrawTables;
use instanced_draw::world::EXTRA_INDEX_NONE;
use instanced_draw::world::IndexFormat;
use instanced_draw::world::MeshBufferInfo;
use instanced_draw::world::MeshInfo;
use instanced_draw::world::TransparentPhase;

fn rec(seed: u32) -> InstanceRecord {
    InstanceRecord {
        pos_x: seed,
        pos_y: seed,
        pos_z: seed,
        scale: 0x3f80_0000,
        color_r: 0x3f80_0000,
        color_g: 0x3f80_0000,
        color_b: 0x3f80_0000,
        color_a: 0x3f80_0000,
    }
}

fn base_descriptor() -> PipelineDescriptor {
    PipelineDescriptor {
        vertex_shader: 7,
        fragment_shader: 7,
        buffers: vec![VertexBufferLayout {
            array_stride: 12,
            step_mode: StepMode::Vertex,
            attributes: vec![VertexAttribute {
                format: VertexFormat::Float32x3,
                offset: 0,
                shader_location: 0,
            }],
        }],
    }
}

fn indexed_mesh(count: u32) -> MeshInfo {
    MeshInfo {
        topology: Topology::TriangleList,
        layout_supported: true,
        buffer_info: MeshBufferInfo::Indexed { format: IndexFormat::Uint32, count },
    }
}

fn item(entity: usize) -> DrawItem {
    DrawItem {
        entity,
        pipeline: 0,
        draw_function: 9,
        distance_bits: 0,
        batch_start: 0,
        batch_end: 1,
        extra_index: EXTRA_INDEX_NONE,
    }
}

/// One entity with a 4-element group and an indexed mesh with 12 indices,
/// taken through buffer sync, queueing and execution.
#[test]
fn four_instances_twelve_indices_one_indexed_draw() {
    // Sync the instance buffer from the 4-element group.
    let groups = vec![Some(vec![rec(0), rec(1), rec(2), rec(3)])];
    let mut handles: Vec<Option<InstanceBufferHandle>> = vec![None];
    let mut stream = GpuStream::new();
    prepare_instance_buffers(&groups, &mut handles, &mut stream);

    // Queue the entity under one view.
    let tables = DrawTables {
        mesh_refs: vec![Some(0)],
        meshes: vec![Some(indexed_mesh(12))],
        instance_buffers: handles,
        vertex_slices: vec![Some(BufferSlice { buffer: 100, start: 64, end: 96 })],
        index_slices: vec![Some(BufferSlice { buffer: 101, start: 8, end: 20 })],
    };
    let views = vec![ViewInput { msaa_samples: 4, hdr: false, depths: vec![0x41200000] }];
    let phases = vec![Some(TransparentPhase { items: Vec::new() })];
    let mut cache = SpecializedPipelineCache::new();
    let base = base_descriptor();
    let mut builds: Vec<PipelineDescriptor> = Vec::new();
    let out = queue_frame(&views, phases, &tables, &mut cache, &base, 42, 9, &mut builds);
    let phase = out[0].as_ref().unwrap();
    assert_eq!(phase.items.len(), 1);
    assert_eq!(phase.items[0].distance_bits, 0x41200000);
    assert_eq!(phase.items[0].batch_start..phase.items[0].batch_end, 0..1);

    // Execute the phase: exactly one indexed draw with instance_count 4
    // over 12 indices, after binding mesh, instance and index buffers.
    let (pass, draws) = run_phase(&tables, phase);
    assert_eq!(draws, 1);
    assert_eq!(pass.len(), 4);
    assert!(matches!(pass[0], RenderCommand::SetVertexBuffer { slot: 0, buffer: 100 }));
    assert!(matches!(pass[1], RenderCommand::SetVertexBuffer { slot: 1, buffer: 0 }));
    assert!(matches!(
        pass[2],
        RenderCommand::SetIndexBuffer { buffer: 101, format: IndexFormat::Uint32 }
    ));
    match pass[3] {
        RenderCommand::DrawIndexed { index_start, index_count, base_vertex, instance_count } => {
            assert_eq!(index_start, 8);
            assert_eq!(index_count, 12);
            assert_eq!(base_vertex, 64);
            assert_eq!(instance_count, 4);
        }
        _ => panic!("the final command must be the indexed draw"),
    }
}

/// An entity whose mesh asset is absent is skipped silently and the
/// frame completes.
#[test]
fn absent_mesh_enqueues_nothing() {
    let tables = DrawTables {
        mesh_refs: vec![Some(0), None],
        meshes: vec![None],
        instance_buffers: vec![Some(InstanceBufferHandle { buffer: 0, length: 4 }), None],
        vertex_slices: vec![None],
        index_slices: vec![None],
    };
    let view = ViewInput { msaa_samples: 1, hdr: false, depths: vec![0, 0] };
    let mut cache = SpecializedPipelineCache::new();
    let base = base_descriptor();
    let mut phase = TransparentPhase { items: Vec::new() };
    let mut builds: Vec<PipelineDescriptor> = Vec::new();
    queue_view(&view, &tables, &mut cache, &base, 42, 9, &mut phase, &mut builds);
    assert_eq!(phase.items.len(), 0);
    assert_eq!(builds.len(), 0);
    assert_eq!(cache.entries.len(), 0);
}

/// Two views requesting the same pipeline key: exactly one build occurs
/// and the second view reuses the cached pipeline.
#[test]
fn two_views_share_one_pipeline_build() {
    let tables = DrawTables {
        mesh_refs: vec![Some(0)],
        meshes: vec![Some(indexed_mesh(6))],
        instance_buffers: vec![Some(InstanceBufferHandle { buffer: 0, length: 2 })],
        vertex_slices: vec![Some(BufferSlice { buffer: 100, start: 0, end: 9 })],
        index_slices: vec![Some(BufferSlice { buffer: 101, start: 0, end: 6 })],
    };
    let views = vec![
        ViewInput { msaa_samples: 4, hdr: true, depths: vec![1] },
        ViewInput { msaa_samples: 4, hdr: true, depths: vec![2] },
    ];
    let phases = vec![
        Some(TransparentPhase { items: Vec::new() }),
        Some(TransparentPhase { items: Vec::new() }),
    ];
    let mut cache = SpecializedPipelineCache::new();
    let base = base_descriptor();
    let mut builds: Vec<PipelineDescriptor> = Vec::new();
    let out = queue_frame(&views, phases, &tables, &mut cache, &base, 42, 9, &mut builds);
    assert_eq!(builds.len(), 1, "the shared key must be built exactly once");
    let p0 = out[0].as_ref().unwrap();
    let p1 = out[1].as_ref().unwrap();
    assert_eq!(p0.items.len(), 1);
    assert_eq!(p1.items.len(), 1);
    assert_eq!(p0.items[0].pipeline, p1.items[0].pipeline);
    assert_eq!(p0.items[0].distance_bits, 1);
    assert_eq!(p1.items[0].distance_bits, 2);
}

/// A view without a transparent phase contributes nothing.
#[test]
fn view_without_phase_is_skipped() {
    let tables = DrawTables {
        mesh_refs: vec![Some(0)],
        meshes: vec![Some(indexed_mesh(3))],
        instance_buffers: vec![Some(InstanceBufferHandle { buffer: 0, length: 1 })],
        vertex_slices: vec![Some(BufferSlice { buffer: 100, start: 0, end: 3 })],
        index_slices: vec![Some(BufferSlice { buffer: 101, start: 0, end: 3 })],
    };
    let views = vec![ViewInput { msaa_samples: 1, hdr: false, depths: vec![0] }];
    let phases: Vec<Option<TransparentPhase>> = vec![None];
    let mut cache = SpecializedPipelineCache::new();
    let base = base_descriptor();
    let mut builds: Vec<PipelineDescriptor> = Vec::new();
    let out = queue_frame(&views, phases, &tables, &mut cache, &base, 42, 9, &mut builds);
    assert!(out[0].is_none());
    assert_eq!(builds.len(), 0);
    assert_eq!(cache.entries.len(), 0);
}

/// An unsupported mesh layout skips the single affected item, not the
/// frame: the other entity is still queued.
#[test]
fn specialization_error_skips_only_that_item() {
    let unsupported = MeshInfo {
        topology: Topology::TriangleStrip,
        layout_supported: false,
        buffer_info: MeshBufferInfo::NonIndexed,
    };
    let tables = DrawTables {
        mesh_refs: vec![Some(0), Some(1)],
        meshes: vec![Some(unsupported), Some(indexed_mesh(3))],
        instance_buffers: vec![
            Some(InstanceBufferHandle { buffer: 0, length: 1 }),
            Some(InstanceBufferHandle { buffer: 1, length: 1 }),
        ],
        vertex_slices: vec![None, Some(BufferSlice { buffer: 100, start: 0, end: 3 })],
        index_slices: vec![None, Some(BufferSlice { buffer: 101, start: 0, end: 3 })],
    };
    let view = ViewInput { msaa_samples: 1, hdr: false, depths: vec![0, 0] };
    let mut cache = SpecializedPipelineCache::new();
    let base = base_descriptor();
    let mut phase = TransparentPhase { items: Vec::new() };
    let mut builds: Vec<PipelineDescriptor> = Vec::new();
    queue_view(&view, &tables, &mut cache, &base, 42, 9, &mut phase, &mut builds);
    assert_eq!(phase.items.len(), 1);
    assert_eq!(phase.items[0].entity, 1);
}

/// Draw calls equal the number of items resolved through every lookup.
#[test]
fn draws_equal_resolved_items() {
    // Entity 0 resolves; entity 1 is missing its instance buffer; entity
    // 2 is missing its mesh queue data.
    let tables = DrawTables {
        mesh_refs: vec![Some(0), Some(0), None],
        meshes: vec![Some(indexed_mesh(3))],
        instance_buffers: vec![Some(InstanceBufferHandle { buffer: 5, length: 2 }), None, None],
        vertex_slices: vec![Some(BufferSlice { buffer: 100, start: 0, end: 3 })],
        index_slices: vec![Some(BufferSlice { buffer: 101, start: 0, end: 3 })],
    };
    let phase = TransparentPhase { items: vec![item(0), item(1), item(2)] };
    let (pass, draws) = run_phase(&tables, &phase);
    assert_eq!(draws, 1);
    let draw_cmds = pass
        .iter()
        .filter(|c| matches!(c, RenderCommand::DrawIndexed { .. } | RenderCommand::Draw { .. }))
        .count();
    assert_eq!(draw_cmds, 1);
}

/// A non-indexed mesh issues a direct draw over its vertex range.
#[test]
fn non_indexed_mesh_issues_direct_draw() {
    let mesh = MeshInfo {
        topology: Topology::TriangleList,
        layout_supported: true,
        buffer_info: MeshBufferInfo::NonIndexed,
    };
    let tables = DrawTables {
        mesh_refs: vec![Some(0)],
        meshes: vec![Some(mesh)],
        instance_buffers: vec![Some(InstanceBufferHandle { buffer: 2, length: 5 })],
        vertex_slices: vec![Some(BufferSlice { buffer: 100, start: 10, end: 40 })],
        index_slices: vec![None],
    };
    let mut pass: Vec<RenderCommand> = Vec::new();
    let o = render_draw_item(&tables, &item(0), &mut pass);
    assert!(matches!(o, DrawOutcome::Success));
    assert_eq!(pass.len(), 3);
    match pass[2] {
        RenderCommand::Draw { vertex_start, vertex_end, instance_count } => {
            assert_eq!(vertex_start..vertex_end, 10..40);
            assert_eq!(instance_count, 5);
        }
        _ => panic!("the final command must be the direct draw"),
    }
}

/// An indexed mesh whose index allocation is missing fails closed after
/// the binds: no draw is issued.
#[test]
fn missing_index_allocation_skips_the_draw() {
    let tables = DrawTables {
        mesh_refs: vec![Some(0)],
        meshes: vec![Some(indexed_mesh(3))],
        instance_buffers: vec![Some(InstanceBufferHandle { buffer: 2, length: 5 })],
        vertex_slices: vec![Some(BufferSlice { buffer: 100, start: 0, end: 3 })],
        index_slices: vec![None],
    };
    let mut pass: Vec<RenderCommand> = Vec::new();
    let o = render_draw_item(&tables, &item(0), &mut pass);
    assert!(matches!(o, DrawOutcome::Skip));
    assert!(!pass.iter().any(|c| matches!(
        c,
        RenderCommand::DrawIndexed { .. } | RenderCommand::Draw { .. }
    )));
}

/// Each failing lookup step skips the item without touching the pass.
#[test]
fn early_lookup_failures_record_nothing() {
    let empty = DrawTables {
        mesh_refs: vec![None],
        meshes: vec![],
        instance_buffers: vec![],
        vertex_slices: vec![],
        index_slices: vec![],
    };
    let mut pass: Vec<RenderCommand> = Vec::new();
    assert!(matches!(render_draw_item(&empty, &item(0), &mut pass), DrawOutcome::Skip));
    assert_eq!(pass.len(), 0);
}
