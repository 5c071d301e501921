//! The render-side working set: an arena of entities with parallel tables,
//! plus the per-view sorted phase the queue builder appends to.
//!
//! "Attaching a component" to an entity is writing that entity's slot in a
//! table; a registry lookup that misses — an absent slot or an
//! out-of-range id — fails closed and only omits the affected entity from
//! the frame, never the frame itself.

use vstd::prelude::*;

use crate::buffers::InstanceBufferHandle;
use crate::pipeline::Topology;

verus! {

/// Index format of an indexed mesh.
#[derive(Clone, Copy, PartialEq, Eq, Structural, Debug)]
pub enum IndexFormat {
    /// 16-bit indices.
    Uint16,
    /// 32-bit indices.
    Uint32,
}

/// How a mesh's GPU data is consumed by a draw.
#[derive(Clone, Copy, PartialEq, Eq, Structural, Debug)]
pub enum MeshBufferInfo {
    /// The mesh draws `count` indices through an index buffer.
    Indexed {
        /// Width of one index.
        format: IndexFormat,
        /// Number of indices one draw consumes.
        count: u32,
    },
    /// The mesh draws its vertex range directly.
    NonIndexed,
}

/// What the mesh registry knows about one mesh's GPU representation.
#[derive(Clone, Copy, PartialEq, Eq, Structural, Debug)]
pub struct MeshInfo {
    /// The mesh's primitive topology, an ingredient of the pipeline key.
    pub topology: Topology,
    /// Whether the base pipeline supports the mesh's vertex layout; when
    /// false, specializing a fresh key for this mesh fails.
    pub layout_supported: bool,
    /// Indexed or direct drawing.
    pub buffer_info: MeshBufferInfo,
}

/// A contiguous range of a shared GPU buffer, as the mesh allocator
/// hands out for a mesh's vertex or index data.
#[derive(Clone, Copy, PartialEq, Eq, Structural, Debug)]
pub struct BufferSlice {
    /// The shared buffer the range lives in.
    pub buffer: u64,
    /// First element of the range.
    pub start: u32,
    /// One past the last element of the range.
    pub end: u32,
}

/// Marker for "no extra index" on a phase item.
pub const EXTRA_INDEX_NONE: u32 = 0xffff_ffff;

/// One pending draw in a view's sorted transparent phase, constructed
/// fresh each frame and discarded after the phase executes.
#[derive(Clone, Copy, PartialEq, Eq, Structural, Debug)]
pub struct DrawItem {
    /// The render-side entity the item draws.
    pub entity: usize,
    /// Id of the specialized pipeline to bind.
    pub pipeline: u32,
    /// Id of the registered draw function that executes the item.
    pub draw_function: u32,
    /// Bit pattern of the view-space depth of the group's reference
    /// translation; the phase's own ordering contract sorts by it.
    pub distance_bits: u32,
    /// First phase slot of the item's batch.
    pub batch_start: u32,
    /// One past the last phase slot of the item's batch; each entity
    /// occupies exactly one slot however many GPU instances it expands to.
    pub batch_end: u32,
    /// Extra index, or [`EXTRA_INDEX_NONE`].
    pub extra_index: u32,
}

/// One view's sorted transparent-geometry phase: the items queued this
/// frame, in append order. The phase's executor sorts by distance before
/// submission; this core only appends.
pub struct TransparentPhase {
    /// The pending items.
    pub items: Vec<DrawItem>,
}

/// The registries and per-entity tables a frame's queueing and drawing
/// read: parallel tables indexed by entity, and registries indexed by
/// mesh id.
pub struct DrawTables {
    /// Per entity: the mesh id its queue data resolves to, if any.
    pub mesh_refs: Vec<Option<usize>>,
    /// Per mesh id: the mesh's GPU representation, if loaded.
    pub meshes: Vec<Option<MeshInfo>>,
    /// Per entity: the instance buffer handle, if one is attached.
    pub instance_buffers: Vec<Option<InstanceBufferHandle>>,
    /// Per mesh id: the vertex-range allocation, if any.
    pub vertex_slices: Vec<Option<BufferSlice>>,
    /// Per mesh id: the index-range allocation, if any.
    pub index_slices: Vec<Option<BufferSlice>>,
}

impl DrawTables {
    /// The mesh id entity `e` resolves to; out-of-range is a miss.
    pub open spec fn spec_mesh_ref(&self, e: int) -> Option<usize> {
        if 0 <= e < self.mesh_refs@.len() {
            self.mesh_refs@[e]
        } else {
            Option::None
        }
    }

    /// The registry entry of mesh `m`; out-of-range is a miss.
    pub open spec fn spec_mesh(&self, m: int) -> Option<MeshInfo> {
        if 0 <= m < self.meshes@.len() {
            self.meshes@[m]
        } else {
            Option::None
        }
    }

    /// The instance buffer of entity `e`; out-of-range is a miss.
    pub open spec fn spec_instance_buffer(&self, e: int) -> Option<InstanceBufferHandle> {
        if 0 <= e < self.instance_buffers@.len() {
            self.instance_buffers@[e]
        } else {
            Option::None
        }
    }

    /// The vertex allocation of mesh `m`; out-of-range is a miss.
    pub open spec fn spec_vertex_slice(&self, m: int) -> Option<BufferSlice> {
        if 0 <= m < self.vertex_slices@.len() {
            self.vertex_slices@[m]
        } else {
            Option::None
        }
    }

    /// The index allocation of mesh `m`; out-of-range is a miss.
    pub open spec fn spec_index_slice(&self, m: int) -> Option<BufferSlice> {
        if 0 <= m < self.index_slices@.len() {
            self.index_slices@[m]
        } else {
            Option::None
        }
    }

    /// Looks up the mesh id of entity `e`, failing closed.
    pub fn mesh_ref(&self, e: usize) -> (r: Option<usize>)
        ensures
            r == self.spec_mesh_ref(e as int),
    {
        if e < self.mesh_refs.len() {
            self.mesh_refs[e]
        } else {
            Option::None
        }
    }

    /// Looks up the registry entry of mesh `m`, failing closed.
    pub fn mesh(&self, m: usize) -> (r: Option<MeshInfo>)
        ensures
            r == self.spec_mesh(m as int),
    {
        if m < self.meshes.len() {
            self.meshes[m]
        } else {
            Option::None
        }
    }

    /// Looks up the instance buffer of entity `e`, failing closed.
    pub fn instance_buffer(&self, e: usize) -> (r: Option<InstanceBufferHandle>)
        ensures
            r == self.spec_instance_buffer(e as int),
    {
        if e < self.instance_buffers.len() {
            self.instance_buffers[e]
        } else {
            Option::None
        }
    }

    /// Looks up the vertex allocation of mesh `m`, failing closed.
    pub fn vertex_slice(&self, m: usize) -> (r: Option<BufferSlice>)
        ensures
            r == self.spec_vertex_slice(m as int),
    {
        if m < self.vertex_slices.len() {
            self.vertex_slices[m]
        } else {
            Option::None
        }
    }

    /// Looks up the index allocation of mesh `m`, failing closed.
    pub fn index_slice(&self, m: usize) -> (r: Option<BufferSlice>)
        ensures
            r == self.spec_index_slice(m as int),
    {
        if m < self.index_slices.len() {
            self.index_slices[m]
        } else {
            Option::None
        }
    }
}

} // verus!
