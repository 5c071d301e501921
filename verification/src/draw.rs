//! The instanced draw executor: turns one queued item into the GPU
//! commands for exactly one draw call, or skips it.
//!
//! Resolution fails closed, step by step: the entity's mesh queue data,
//! the mesh's GPU representation, the entity's instance buffer, and the
//! mesh's vertex allocation must all exist; an indexed mesh additionally
//! needs its index allocation. A missing step omits the item from the
//! frame with no error. A resolved item binds the mesh's vertex range at
//! slot 0 and the instance buffer at slot 1 and issues one draw — indexed
//! or direct — whose instance range is `[0, instance_count)`.

use vstd::prelude::*;

use crate::world::DrawItem;
use crate::world::DrawTables;
use crate::world::IndexFormat;
use crate::world::MeshBufferInfo;
use crate::world::TransparentPhase;

verus! {

/// One command recorded on the tracked render pass.
#[derive(Clone, Copy, PartialEq, Eq, Structural, Debug)]
pub enum RenderCommand {
    /// Bind a vertex buffer at a slot.
    SetVertexBuffer {
        /// The binding slot.
        slot: u32,
        /// The buffer bound there.
        buffer: u64,
    },
    /// Bind the index buffer.
    SetIndexBuffer {
        /// The buffer bound.
        buffer: u64,
        /// Width of one index.
        format: IndexFormat,
    },
    /// One indexed draw call.
    DrawIndexed {
        /// First index consumed, within the shared index buffer.
        index_start: u32,
        /// Number of indices consumed.
        index_count: u32,
        /// Added to each index to address the shared vertex buffer.
        base_vertex: u32,
        /// Number of instances drawn; the GPU runs the vertex stage once
        /// per index per instance.
        instance_count: usize,
    },
    /// One direct draw call.
    Draw {
        /// First vertex of the range drawn.
        vertex_start: u32,
        /// One past the last vertex of the range drawn.
        vertex_end: u32,
        /// Number of instances drawn.
        instance_count: usize,
    },
}

/// Whether a command is a draw call (as opposed to a binding).
pub open spec fn spec_is_draw(c: RenderCommand) -> bool {
    c is DrawIndexed || c is Draw
}

/// Outcome of executing one queued item.
#[derive(Clone, Copy, PartialEq, Eq, Structural, Debug)]
pub enum DrawOutcome {
    /// The item was resolved and one draw call was issued.
    Success,
    /// A lookup failed; the item was omitted from the frame.
    Skip,
}

/// The commands one item records and its outcome: empty on a failed
/// lookup before any binding; on a resolved item, the two vertex-buffer
/// binds followed by one draw call. An indexed mesh whose index
/// allocation is missing fails closed after the binds, issuing no draw.
pub open spec fn spec_render_item(t: DrawTables, item: DrawItem) -> (
    Seq<RenderCommand>,
    DrawOutcome,
) {
    match t.spec_mesh_ref(item.entity as int) {
        Option::None => (Seq::empty(), DrawOutcome::Skip),
        Option::Some(m) => match t.spec_mesh(m as int) {
            Option::None => (Seq::empty(), DrawOutcome::Skip),
            Option::Some(mesh) => match t.spec_instance_buffer(item.entity as int) {
                Option::None => (Seq::empty(), DrawOutcome::Skip),
                Option::Some(ib) => match t.spec_vertex_slice(m as int) {
                    Option::None => (Seq::empty(), DrawOutcome::Skip),
                    Option::Some(vs) => {
                        let binds = seq![
                            RenderCommand::SetVertexBuffer { slot: 0, buffer: vs.buffer },
                            RenderCommand::SetVertexBuffer { slot: 1, buffer: ib.buffer },
                        ];
                        match mesh.buffer_info {
                            MeshBufferInfo::Indexed { format, count } => match t.spec_index_slice(
                                m as int,
                            ) {
                                Option::None => (binds, DrawOutcome::Skip),
                                Option::Some(is) => (
                                    binds + seq![
                                        RenderCommand::SetIndexBuffer {
                                            buffer: is.buffer,
                                            format,
                                        },
                                        RenderCommand::DrawIndexed {
                                            index_start: is.start,
                                            index_count: count,
                                            base_vertex: vs.start,
                                            instance_count: ib.length,
                                        },
                                    ],
                                    DrawOutcome::Success,
                                ),
                            },
                            MeshBufferInfo::NonIndexed => (
                                binds + seq![
                                    RenderCommand::Draw {
                                        vertex_start: vs.start,
                                        vertex_end: vs.end,
                                        instance_count: ib.length,
                                    },
                                ],
                                DrawOutcome::Success,
                            ),
                        }
                    },
                },
            },
        },
    }
}

/// An item resolves when every lookup a draw needs succeeds; only then
/// does it contribute a draw call.
pub open spec fn spec_resolves(t: DrawTables, item: DrawItem) -> bool {
    spec_render_item(t, item).1 is Success
}

/// Executes one queued item: records its commands on the pass and reports
/// whether a draw call was issued.
pub fn render_draw_item(t: &DrawTables, item: &DrawItem, pass: &mut Vec<RenderCommand>) -> (o:
    DrawOutcome)
    ensures
        final(pass)@ == old(pass)@ + spec_render_item(*t, *item).0,
        o == spec_render_item(*t, *item).1,
{
    let m = match t.mesh_ref(item.entity) {
        Option::Some(m) => m,
        Option::None => {
            proof {
                assert(pass@ =~= old(pass)@ + spec_render_item(*t, *item).0);
            }
            return DrawOutcome::Skip;
        },
    };
    let mesh = match t.mesh(m) {
        Option::Some(mesh) => mesh,
        Option::None => {
            proof {
                assert(pass@ =~= old(pass)@ + spec_render_item(*t, *item).0);
            }
            return DrawOutcome::Skip;
        },
    };
    let ib = match t.instance_buffer(item.entity) {
        Option::Some(ib) => ib,
        Option::None => {
            proof {
                assert(pass@ =~= old(pass)@ + spec_render_item(*t, *item).0);
            }
            return DrawOutcome::Skip;
        },
    };
    let vs = match t.vertex_slice(m) {
        Option::Some(vs) => vs,
        Option::None => {
            proof {
                assert(pass@ =~= old(pass)@ + spec_render_item(*t, *item).0);
            }
            return DrawOutcome::Skip;
        },
    };
    pass.push(RenderCommand::SetVertexBuffer { slot: 0, buffer: vs.buffer });
    pass.push(RenderCommand::SetVertexBuffer { slot: 1, buffer: ib.buffer });
    match mesh.buffer_info {
        MeshBufferInfo::Indexed { format, count } => {
            let is = match t.index_slice(m) {
                Option::Some(is) => is,
                Option::None => {
                    proof {
                        assert(pass@ =~= old(pass)@ + spec_render_item(*t, *item).0);
                    }
                    return DrawOutcome::Skip;
                },
            };
            pass.push(RenderCommand::SetIndexBuffer { buffer: is.buffer, format });
            pass.push(
                RenderCommand::DrawIndexed {
                    index_start: is.start,
                    index_count: count,
                    base_vertex: vs.start,
                    instance_count: ib.length,
                },
            );
            proof {
                assert(pass@ =~= old(pass)@ + spec_render_item(*t, *item).0);
            }
            DrawOutcome::Success
        },
        MeshBufferInfo::NonIndexed => {
            pass.push(
                RenderCommand::Draw {
                    vertex_start: vs.start,
                    vertex_end: vs.end,
                    instance_count: ib.length,
                },
            );
            proof {
                assert(pass@ =~= old(pass)@ + spec_render_item(*t, *item).0);
            }
            DrawOutcome::Success
        },
    }
}

/// Number of draw calls in a command sequence.
pub open spec fn spec_count_draws(s: Seq<RenderCommand>) -> int
    decreases s.len(),
{
    if s.len() == 0 {
        0
    } else {
        spec_count_draws(s.drop_last()) + if spec_is_draw(s.last()) {
            1int
        } else {
            0int
        }
    }
}

/// Draw-call counting distributes over concatenation.
pub proof fn lemma_count_draws_add(a: Seq<RenderCommand>, b: Seq<RenderCommand>)
    ensures
        spec_count_draws(a + b) == spec_count_draws(a) + spec_count_draws(b),
    decreases b.len(),
{
    if b.len() == 0 {
        assert(a + b =~= a);
    } else {
        assert((a + b).drop_last() =~= a + b.drop_last());
        lemma_count_draws_add(a, b.drop_last());
    }
}

/// A one-command sequence holds one draw call exactly when its command
/// is a draw.
proof fn lemma_count_seq1(a: RenderCommand)
    ensures
        spec_count_draws(seq![a]) == if spec_is_draw(a) {
            1int
        } else {
            0int
        },
{
    assert(seq![a].drop_last() =~= Seq::<RenderCommand>::empty());
    assert(spec_count_draws(Seq::<RenderCommand>::empty()) == 0);
    assert(seq![a].last() == a);
}

/// Draw-call count of a two-command sequence, command by command.
proof fn lemma_count_seq2(a: RenderCommand, b: RenderCommand)
    ensures
        spec_count_draws(seq![a, b]) == (if spec_is_draw(a) {
            1int
        } else {
            0int
        }) + (if spec_is_draw(b) {
            1int
        } else {
            0int
        }),
{
    assert(seq![a, b].drop_last() =~= seq![a]);
    lemma_count_seq1(a);
}

/// One item's commands hold exactly one draw call when it resolves and
/// none when it does not.
pub proof fn lemma_item_draw_count(t: DrawTables, item: DrawItem)
    ensures
        spec_count_draws(spec_render_item(t, item).0) == if spec_resolves(t, item) {
            1int
        } else {
            0int
        },
{
    match t.spec_mesh_ref(item.entity as int) {
        Option::None => {},
        Option::Some(m) => match t.spec_mesh(m as int) {
            Option::None => {},
            Option::Some(mesh) => match t.spec_instance_buffer(item.entity as int) {
                Option::None => {},
                Option::Some(ib) => match t.spec_vertex_slice(m as int) {
                    Option::None => {},
                    Option::Some(vs) => {
                        let sv0 = RenderCommand::SetVertexBuffer { slot: 0, buffer: vs.buffer };
                        let sv1 = RenderCommand::SetVertexBuffer { slot: 1, buffer: ib.buffer };
                        lemma_count_seq2(sv0, sv1);
                        match mesh.buffer_info {
                            MeshBufferInfo::Indexed { format, count } => match t.spec_index_slice(
                                m as int,
                            ) {
                                Option::None => {},
                                Option::Some(is) => {
                                    let si = RenderCommand::SetIndexBuffer {
                                        buffer: is.buffer,
                                        format,
                                    };
                                    let di = RenderCommand::DrawIndexed {
                                        index_start: is.start,
                                        index_count: count,
                                        base_vertex: vs.start,
                                        instance_count: ib.length,
                                    };
                                    lemma_count_seq2(si, di);
                                    lemma_count_draws_add(seq![sv0, sv1], seq![si, di]);
                                },
                            },
                            MeshBufferInfo::NonIndexed => {
                                let d = RenderCommand::Draw {
                                    vertex_start: vs.start,
                                    vertex_end: vs.end,
                                    instance_count: ib.length,
                                };
                                lemma_count_seq1(d);
                                lemma_count_draws_add(seq![sv0, sv1], seq![d]);
                            },
                        }
                    },
                },
            },
        },
    }
}

/// The commands and outcomes of executing items `k ..` of a phase: all
/// commands in item order, and the number of draw calls issued.
pub open spec fn spec_run_phase_from(t: DrawTables, items: Seq<DrawItem>, k: int) -> (
    Seq<RenderCommand>,
    int,
)
    decreases items.len() - k,
{
    if k < 0 || k >= items.len() {
        (Seq::empty(), 0)
    } else {
        let (c1, o1) = spec_render_item(t, items[k]);
        let (cs, n) = spec_run_phase_from(t, items, k + 1);
        (c1 + cs, n + if o1 is Success {
            1int
        } else {
            0int
        })
    }
}

/// Number of items among `items[k ..]` that resolve through every lookup.
pub open spec fn spec_count_resolved(t: DrawTables, items: Seq<DrawItem>, k: int) -> int
    decreases items.len() - k,
{
    if k < 0 || k >= items.len() {
        0
    } else {
        spec_count_resolved(t, items, k + 1) + if spec_resolves(t, items[k]) {
            1int
        } else {
            0int
        }
    }
}

/// Law: the number of draw calls a frame issues equals the number of
/// items that resolved through every lookup — an entity failing any
/// lookup contributes zero draw calls.
pub proof fn lemma_draws_match_resolved(t: DrawTables, items: Seq<DrawItem>, k: int)
    ensures
        spec_count_draws(spec_run_phase_from(t, items, k).0) == spec_run_phase_from(
            t,
            items,
            k,
        ).1,
        spec_run_phase_from(t, items, k).1 == spec_count_resolved(t, items, k),
    decreases items.len() - k,
{
    if 0 <= k < items.len() {
        lemma_item_draw_count(t, items[k]);
        lemma_count_draws_add(
            spec_render_item(t, items[k]).0,
            spec_run_phase_from(t, items, k + 1).0,
        );
        lemma_draws_match_resolved(t, items, k + 1);
    }
}

/// Executes a whole phase in item order: records every resolved item's
/// commands on one pass and reports how many draw calls were issued.
pub fn run_phase(t: &DrawTables, phase: &TransparentPhase) -> (r: (Vec<RenderCommand>, usize))
    ensures
        r.0@ == spec_run_phase_from(*t, phase.items@, 0).0,
        r.1 == spec_run_phase_from(*t, phase.items@, 0).1,
        r.1 == spec_count_resolved(*t, phase.items@, 0),
        spec_count_draws(r.0@) == r.1,
{
    let ghost full = spec_run_phase_from(*t, phase.items@, 0);
    let mut pass: Vec<RenderCommand> = Vec::new();
    let mut draws: usize = 0;
    let mut i: usize = 0;
    proof {
        assert(pass@ =~= Seq::<RenderCommand>::empty());
    }
    while i < phase.items.len()
        invariant
            i <= phase.items@.len(),
            draws <= i,
            full == spec_run_phase_from(*t, phase.items@, 0),
            ({
                let (cs, n) = spec_run_phase_from(*t, phase.items@, i as int);
                &&& full.0 == pass@ + cs
                &&& full.1 == draws + n
            }),
        decreases phase.items@.len() - i,
    {
        let ghost pre = pass@;
        let o = render_draw_item(t, &phase.items[i], &mut pass);
        match o {
            DrawOutcome::Success => {
                draws = draws + 1;
            },
            DrawOutcome::Skip => {
            },
        }
        proof {
            let (c1, o1) = spec_render_item(*t, phase.items@[i as int]);
            let (cs, n) = spec_run_phase_from(*t, phase.items@, i as int + 1);
            assert(pre + (c1 + cs) =~= (pre + c1) + cs);
        }
        i += 1;
    }
    proof {
        assert(full.0 =~= pass@);
        lemma_draws_match_resolved(*t, phase.items@, 0);
    }
    (pass, draws)
}

} // verus!
