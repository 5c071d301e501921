//! The instance buffer manager: one GPU buffer per entity, kept in sync
//! with that entity's instance group once per frame.
//!
//! A buffer is allocated the first time an entity's group is seen, sized
//! to exactly 32 bytes per record. On a later frame with an unchanged
//! record count the same buffer is overwritten in place at offset zero; a
//! changed count re-creates the buffer, because the allocated size is
//! fixed at creation and an in-place write of a larger payload would
//! overrun it. Commands are enqueued on the device stream in program
//! order, which is what orders them before the frame's draw calls.

use vstd::prelude::*;

use crate::codec::InstanceGroup;
use crate::codec::InstanceRecord;
use crate::codec::encode_group;
use crate::codec::lemma_encode_group_len;
use crate::codec::spec_encode_group;

verus! {

/// Handle to the GPU buffer holding one entity's packed instance data.
/// Exclusively owned by the entity it is attached to.
#[derive(Clone, Copy, PartialEq, Eq, Structural, Debug)]
pub struct InstanceBufferHandle {
    /// Identifier of the GPU buffer object.
    pub buffer: u64,
    /// Record count the buffer was allocated for; the allocated byte size
    /// is 32 times this and never changes afterwards.
    pub length: usize,
}

/// One resource command enqueued on the render device's stream.
pub enum BufferCommand {
    /// Allocate a new buffer, initialized with `bytes`, tagged for
    /// vertex-buffer and copy-destination use.
    Create { buffer: u64, bytes: Vec<u8> },
    /// Overwrite the contents of an existing buffer at offset zero.
    Write { buffer: u64, bytes: Vec<u8> },
}

/// Mathematical image of one resource command.
pub enum BufferCommandModel {
    /// Image of [`BufferCommand::Create`].
    Create { buffer: u64, bytes: Seq<u8> },
    /// Image of [`BufferCommand::Write`].
    Write { buffer: u64, bytes: Seq<u8> },
}

impl BufferCommand {
    /// The mathematical image of this command.
    pub open spec fn model(&self) -> BufferCommandModel {
        match self {
            BufferCommand::Create { buffer, bytes } => BufferCommandModel::Create {
                buffer: *buffer,
                bytes: bytes@,
            },
            BufferCommand::Write { buffer, bytes } => BufferCommandModel::Write {
                buffer: *buffer,
                bytes: bytes@,
            },
        }
    }
}

/// The images of a command sequence, in order.
pub open spec fn spec_commands_model(s: Seq<BufferCommand>) -> Seq<BufferCommandModel> {
    s.map_values(|c: BufferCommand| c.model())
}

/// The render device's resource command stream, with its fresh-buffer-id
/// allocator. The GPU consumes commands in enqueue order, so a write
/// enqueued during preparation is visible to every draw of the same frame.
pub struct GpuStream {
    /// Next unused buffer identifier.
    pub next_buffer: u64,
    /// Commands enqueued so far, in program order.
    pub commands: Vec<BufferCommand>,
}

impl GpuStream {
    /// The images of the enqueued commands, in order.
    pub open spec fn models(&self) -> Seq<BufferCommandModel> {
        spec_commands_model(self.commands@)
    }

    /// A stream with no commands enqueued and ids starting at zero.
    pub fn new() -> (s: GpuStream)
        ensures
            s.next_buffer == 0,
            s.models() == Seq::<BufferCommandModel>::empty(),
    {
        let s = GpuStream { next_buffer: 0, commands: Vec::new() };
        proof {
            assert(s.models() =~= Seq::<BufferCommandModel>::empty());
        }
        s
    }

    /// Allocates a fresh buffer initialized with `bytes` and returns its
    /// identifier. The allocated size is fixed to `bytes` length.
    pub fn create_buffer(&mut self, bytes: Vec<u8>) -> (id: u64)
        requires
            old(self).next_buffer < u64::MAX,
        ensures
            id == old(self).next_buffer,
            final(self).next_buffer == old(self).next_buffer + 1,
            final(self).models() == old(self).models().push(
                BufferCommandModel::Create { buffer: id, bytes: bytes@ },
            ),
    {
        let id = self.next_buffer;
        self.next_buffer = self.next_buffer + 1;
        let ghost b = bytes@;
        self.commands.push(BufferCommand::Create { buffer: id, bytes });
        proof {
            assert(self.models() =~= old(self).models().push(
                BufferCommandModel::Create { buffer: id, bytes: b },
            ));
        }
        id
    }

    /// Overwrites the contents of buffer `id` at offset zero with `bytes`.
    pub fn write_buffer(&mut self, id: u64, bytes: Vec<u8>)
        ensures
            final(self).next_buffer == old(self).next_buffer,
            final(self).models() == old(self).models().push(
                BufferCommandModel::Write { buffer: id, bytes: bytes@ },
            ),
    {
        let ghost b = bytes@;
        self.commands.push(BufferCommand::Write { buffer: id, bytes });
        proof {
            assert(self.models() =~= old(self).models().push(
                BufferCommandModel::Write { buffer: id, bytes: b },
            ));
        }
    }
}

/// The images of the per-entity tables: each slot the group's record
/// sequence, if the entity carries a group this frame.
pub open spec fn spec_groups_model(s: Seq<Option<InstanceGroup>>) -> Seq<
    Option<Seq<InstanceRecord>>,
> {
    s.map_values(
        |o: Option<InstanceGroup>|
            match o {
                Option::None => Option::<Seq<InstanceRecord>>::None,
                Option::Some(v) => Option::Some(v@),
            },
    )
}

/// The buffer-manager decision for one entity: given its current group (if
/// any), its existing handle (if any) and the next fresh buffer id, the
/// new handle, the commands enqueued, and the next id afterwards.
pub open spec fn spec_sync_one(
    g: Option<Seq<InstanceRecord>>,
    h: Option<InstanceBufferHandle>,
    next: u64,
) -> (Option<InstanceBufferHandle>, Seq<BufferCommandModel>, u64) {
    match g {
        Option::None => (h, Seq::empty(), next),
        Option::Some(gs) => match h {
            Option::Some(hh) => if hh.length == gs.len() {
                (
                    h,
                    seq![
                        BufferCommandModel::Write {
                            buffer: hh.buffer,
                            bytes: spec_encode_group(gs),
                        },
                    ],
                    next,
                )
            } else {
                spec_sync_create(gs, next)
            },
            Option::None => spec_sync_create(gs, next),
        },
    }
}

/// The creation outcome: a fresh buffer holding the group's packed bytes,
/// and a handle recording the count the buffer was sized for.
pub open spec fn spec_sync_create(gs: Seq<InstanceRecord>, next: u64) -> (
    Option<InstanceBufferHandle>,
    Seq<BufferCommandModel>,
    u64,
) {
    (
        Option::Some(InstanceBufferHandle { buffer: next, length: gs.len() as usize }),
        seq![BufferCommandModel::Create { buffer: next, bytes: spec_encode_group(gs) }],
        (next + 1) as u64,
    )
}

/// The sync decisions for entities `k ..`, threading the handle table and
/// the id allocator: the final handle table, all commands in entity order,
/// and the next id afterwards.
pub open spec fn spec_sync_from(
    groups: Seq<Option<Seq<InstanceRecord>>>,
    handles: Seq<Option<InstanceBufferHandle>>,
    k: int,
    next: u64,
) -> (Seq<Option<InstanceBufferHandle>>, Seq<BufferCommandModel>, u64)
    decreases groups.len() - k,
{
    if k < 0 || k >= groups.len() || groups.len() != handles.len() {
        (handles, Seq::empty(), next)
    } else {
        let (h1, c1, n1) = spec_sync_one(groups[k], handles[k], next);
        let (hs, c2, n2) = spec_sync_from(groups, handles.update(k, h1), k + 1, n1);
        (hs, c1 + c2, n2)
    }
}

/// The whole frame's sync, starting at entity zero.
pub open spec fn spec_sync(
    groups: Seq<Option<Seq<InstanceRecord>>>,
    handles: Seq<Option<InstanceBufferHandle>>,
    next: u64,
) -> (Seq<Option<InstanceBufferHandle>>, Seq<BufferCommandModel>, u64) {
    spec_sync_from(groups, handles, 0, next)
}

/// Once per frame, brings every entity's GPU buffer in sync with its
/// current instance group, before the frame's draw phase executes.
///
/// For each entity with a group: no handle yet, or a handle sized for a
/// different count, allocates a fresh buffer of exactly 32 bytes per
/// record and attaches a new handle; a handle whose count still matches
/// keeps its buffer and gets a full in-place overwrite. Entities without
/// a group this frame are left untouched.
pub fn prepare_instance_buffers(
    groups: &Vec<Option<InstanceGroup>>,
    handles: &mut Vec<Option<InstanceBufferHandle>>,
    stream: &mut GpuStream,
)
    requires
        old(handles)@.len() == groups@.len(),
        old(stream).next_buffer + groups@.len() <= u64::MAX,
    ensures
        ({
            let (hs, cs, nn) = spec_sync(
                spec_groups_model(groups@),
                old(handles)@,
                old(stream).next_buffer,
            );
            &&& final(handles)@ == hs
            &&& final(stream).models() == old(stream).models() + cs
            &&& final(stream).next_buffer == nn
        }),
{
    let ghost gm = spec_groups_model(groups@);
    let ghost full = spec_sync(gm, handles@, stream.next_buffer);
    let ghost mut delta: Seq<BufferCommandModel> = Seq::empty();
    let mut e: usize = 0;
    proof {
        assert(stream.models() =~= old(stream).models() + delta);
    }
    while e < groups.len()
        invariant
            groups@.len() == gm.len(),
            gm == spec_groups_model(groups@),
            handles@.len() == gm.len(),
            e <= gm.len(),
            stream.next_buffer + (gm.len() - e) <= u64::MAX,
            stream.models() == old(stream).models() + delta,
            full == spec_sync(gm, old(handles)@, old(stream).next_buffer),
            ({
                let (hs, cs, nn) = spec_sync_from(gm, handles@, e as int, stream.next_buffer);
                &&& full.0 == hs
                &&& full.1 == delta + cs
                &&& full.2 == nn
            }),
        decreases gm.len() - e,
    {
        let ghost pre_handles = handles@;
        let ghost pre_next = stream.next_buffer;
        let ghost step1 = spec_sync_one(gm[e as int], handles@[e as int], pre_next);
        let ghost h1g = step1.0;
        let ghost c1g = step1.1;
        let ghost n1g = step1.2;
        match &groups[e] {
            Option::None => {
                proof {
                    assert(gm[e as int] is None);
                    assert(handles@.update(e as int, h1g) =~= handles@);
                    assert(delta + c1g =~= delta);
                }
            },
            Option::Some(group) => {
                proof {
                    assert(gm[e as int] == Option::Some(group@));
                }
                let bytes = encode_group(group);
                let existing = handles[e];
                let reuse: Option<u64> = match existing {
                    Option::Some(hh) => if hh.length == group.len() {
                        Option::Some(hh.buffer)
                    } else {
                        Option::None
                    },
                    Option::None => Option::None,
                };
                match reuse {
                    Option::Some(buf) => {
                        stream.write_buffer(buf, bytes);
                        proof {
                            assert(handles@.update(e as int, h1g) =~= handles@);
                        }
                    },
                    Option::None => {
                        let id = stream.create_buffer(bytes);
                        handles[e] = Option::Some(
                            InstanceBufferHandle { buffer: id, length: group.len() },
                        );
                        proof {
                            assert(handles@ =~= pre_handles.update(e as int, h1g));
                        }
                    },
                }
                proof {
                    assert(stream.models() =~= old(stream).models() + (delta + c1g));
                }
            },
        }
        proof {
            let rest = spec_sync_from(gm, pre_handles.update(e as int, h1g), e as int + 1, n1g);
            assert((delta + c1g) + rest.1 =~= delta + (c1g + rest.1));
            delta = delta + c1g;
        }
        e += 1;
    }
    proof {
        assert(full.1 =~= delta);
    }
}

/// What one frame's sync owes an entity's slot: no group leaves the slot
/// as it was; a group leaves a handle sized for it — the same handle as
/// before whenever the recorded count already matched.
pub open spec fn spec_slot_synced(
    g: Option<Seq<InstanceRecord>>,
    before: Option<InstanceBufferHandle>,
    after: Option<InstanceBufferHandle>,
) -> bool {
    match g {
        Option::None => after == before,
        Option::Some(gs) => {
            &&& after is Some
            &&& after.unwrap().length == gs.len() as usize
            &&& ((before is Some && before.unwrap().length == gs.len()) ==> after == before)
        },
    }
}

/// What a frame's sync does to each entity's slot: slots below `k` are
/// untouched, and every other slot is owed [`spec_slot_synced`].
pub proof fn lemma_sync_from_pointwise(
    groups: Seq<Option<Seq<InstanceRecord>>>,
    handles: Seq<Option<InstanceBufferHandle>>,
    k: int,
    next: u64,
)
    requires
        groups.len() == handles.len(),
        0 <= k,
    ensures
        spec_sync_from(groups, handles, k, next).0.len() == handles.len(),
        forall|e: int|
            0 <= e < handles.len() && e < k ==> spec_sync_from(groups, handles, k, next).0[e]
                == handles[e],
        forall|e: int|
            k <= e < handles.len() ==> spec_slot_synced(
                #[trigger] groups[e],
                handles[e],
                spec_sync_from(groups, handles, k, next).0[e],
            ),
    decreases groups.len() - k,
{
    if 0 <= k < groups.len() {
        let (h1, c1, n1) = spec_sync_one(groups[k], handles[k], next);
        let updated = handles.update(k, h1);
        lemma_sync_from_pointwise(groups, updated, k + 1, n1);
        let r = spec_sync_from(groups, handles, k, next).0;
        assert(r == spec_sync_from(groups, updated, k + 1, n1).0);
        assert forall|e: int| 0 <= e < handles.len() && e < k implies r[e] == handles[e] by {
            assert(updated[e] == handles[e]);
            assert(spec_sync_from(groups, updated, k + 1, n1).0[e] == updated[e]);
        }
        assert(spec_sync_from(groups, updated, k + 1, n1).0[k] == updated[k]);
        assert(r[k] == h1);
        assert forall|e: int| k <= e < handles.len() implies spec_slot_synced(
            #[trigger] groups[e],
            handles[e],
            r[e],
        ) by {
            if e == k {
                match groups[k] {
                    Option::None => {},
                    Option::Some(g) => {
                        if handles[k] is Some && handles[k].unwrap().length == g.len() {
                            assert(h1 == handles[k]);
                        } else {
                            assert(h1 == Option::Some(
                                InstanceBufferHandle { buffer: next, length: g.len() as usize },
                            ));
                        }
                    },
                }
            } else {
                assert(updated[e] == handles[e]);
                assert(spec_slot_synced(
                    groups[e],
                    updated[e],
                    spec_sync_from(groups, updated, k + 1, n1).0[e],
                ));
                assert(spec_sync_from(groups, updated, k + 1, n1).0[e] == r[e]);
            }
        }
    }
}

/// Law: an entity present across two consecutive frames with an
/// unchanged record count keeps its buffer across the whole second
/// frame's sync — the buffer identity is stable; the second frame only
/// overwrites contents in place.
pub proof fn lemma_two_frame_buffer_identity(
    groups1: Seq<Option<Seq<InstanceRecord>>>,
    groups2: Seq<Option<Seq<InstanceRecord>>>,
    handles0: Seq<Option<InstanceBufferHandle>>,
    n0: u64,
    e: int,
)
    requires
        groups1.len() == handles0.len(),
        groups2.len() == handles0.len(),
        0 <= e < handles0.len(),
        groups1[e] is Some,
        groups2[e] is Some,
        groups2[e].unwrap().len() == groups1[e].unwrap().len(),
        groups1[e].unwrap().len() <= usize::MAX,
    ensures
        ({
            let after1 = spec_sync(groups1, handles0, n0);
            let after2 = spec_sync(groups2, after1.0, after1.2);
            &&& after1.0[e] is Some
            &&& after2.0[e] == after1.0[e]
        }),
{
    let after1 = spec_sync(groups1, handles0, n0);
    let after2 = spec_sync(groups2, after1.0, after1.2);
    lemma_sync_from_pointwise(groups1, handles0, 0, n0);
    lemma_sync_from_pointwise(groups2, after1.0, 0, after1.2);
    assert(spec_slot_synced(groups1[e], handles0[e], after1.0[e]));
    assert(spec_slot_synced(groups2[e], after1.0[e], after2.0[e]));
    assert(groups1[e].unwrap().len() as usize == groups1[e].unwrap().len());
}

/// Law: for an entity present across two consecutive frames with an
/// unchanged record count, the second frame performs an in-place content
/// overwrite, not a reallocation — the handle, and with it the buffer
/// identity, is stable, and the id allocator does not move.
pub proof fn lemma_stable_buffer_identity(
    g1: Seq<InstanceRecord>,
    g2: Seq<InstanceRecord>,
    h0: Option<InstanceBufferHandle>,
    n0: u64,
    n1: u64,
)
    requires
        g2.len() == g1.len(),
        g1.len() <= usize::MAX,
    ensures
        ({
            let (h1, c1, m1) = spec_sync_one(Option::Some(g1), h0, n0);
            let (h2, c2, m2) = spec_sync_one(Option::Some(g2), h1, n1);
            &&& h2 == h1
            &&& m2 == n1
            &&& h1 matches Option::Some(hh) && c2 == seq![
                BufferCommandModel::Write { buffer: hh.buffer, bytes: spec_encode_group(g2) },
            ]
        }),
{
}

/// Law: when the record count changed (or no buffer exists yet), the
/// manager re-creates the buffer, and the created buffer's byte size is
/// exactly the new count times 32.
pub proof fn lemma_resize_reallocates(
    g: Seq<InstanceRecord>,
    h: Option<InstanceBufferHandle>,
    next: u64,
)
    requires
        h matches Option::Some(hh) ==> hh.length != g.len(),
    ensures
        ({
            let (h1, c1, n1) = spec_sync_one(Option::Some(g), h, next);
            &&& h1 == Option::Some(
                InstanceBufferHandle { buffer: next, length: g.len() as usize },
            )
            &&& n1 == (next + 1) as u64
            &&& c1 == seq![
                BufferCommandModel::Create { buffer: next, bytes: spec_encode_group(g) },
            ]
            &&& spec_encode_group(g).len() == 32 * g.len()
        }),
{
    lemma_encode_group_len(g);
}

/// Law: whatever the starting state, one sync step leaves the entity with
/// exactly one handle whose recorded count equals the group's current
/// length, and enqueues exactly one command carrying the group's packed
/// bytes — the invariant the draw phase relies on.
pub proof fn lemma_sync_one_invariant(
    g: Seq<InstanceRecord>,
    h: Option<InstanceBufferHandle>,
    next: u64,
)
    requires
        g.len() <= usize::MAX,
    ensures
        ({
            let (h1, c1, n1) = spec_sync_one(Option::Some(g), h, next);
            &&& h1 is Some && h1.unwrap().length == g.len()
            &&& c1.len() == 1
            &&& match c1[0] {
                BufferCommandModel::Create { buffer, bytes } => buffer == h1.unwrap().buffer
                    && bytes == spec_encode_group(g),
                BufferCommandModel::Write { buffer, bytes } => buffer == h1.unwrap().buffer
                    && bytes == spec_encode_group(g),
            }
        }),
{
}

} // verus!
