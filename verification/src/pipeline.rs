//! Pipeline specialization: the key bitset, the per-instance vertex layout
//! augmentation, and the append-only cache of specialized pipelines.
//!
//! A pipeline variant is determined by the view's multisample count and
//! HDR flag together with the mesh's primitive topology. The three are
//! packed into one key bitset; the cache maps each key to the compiled
//! pipeline id, builds a variant at most once per key, and never evicts.

use vstd::prelude::*;

verus! {

/// Mesh primitive topology, one ingredient of the pipeline key.
#[derive(Clone, Copy, PartialEq, Eq, Structural, Debug)]
pub enum Topology {
    /// Each vertex is an isolated point.
    PointList,
    /// Every two vertices form a line.
    LineList,
    /// Consecutive vertices form connected lines.
    LineStrip,
    /// Every three vertices form a triangle.
    TriangleList,
    /// Consecutive vertices form connected triangles.
    TriangleStrip,
}

/// The three-bit code a topology occupies in the key bitset.
pub open spec fn spec_topology_code(t: Topology) -> u32 {
    match t {
        Topology::PointList => 0,
        Topology::LineList => 1,
        Topology::LineStrip => 2,
        Topology::TriangleList => 3,
        Topology::TriangleStrip => 4,
    }
}

/// Cache key for specialized pipelines: a bitset combining the topology
/// (bits 0..3), the HDR flag (bit 3) and the multisample count (bits 4..).
#[derive(Clone, Copy, PartialEq, Eq, Structural, Debug)]
pub struct PipelineKey {
    /// The packed bits.
    pub bits: u32,
}

/// The key bitset for a combination of view settings and topology.
pub open spec fn spec_key_bits(msaa_samples: u32, hdr: bool, t: Topology) -> u32 {
    spec_topology_code(t) | (if hdr {
        8u32
    } else {
        0u32
    }) | (msaa_samples << 4)
}

/// Builds the pipeline key for one view and mesh combination.
pub fn make_key(msaa_samples: u32, hdr: bool, topology: Topology) -> (k: PipelineKey)
    requires
        msaa_samples <= 0x0fff_ffff,
    ensures
        k.bits == spec_key_bits(msaa_samples, hdr, topology),
{
    let t: u32 = match topology {
        Topology::PointList => 0,
        Topology::LineList => 1,
        Topology::LineStrip => 2,
        Topology::TriangleList => 3,
        Topology::TriangleStrip => 4,
    };
    let h: u32 = if hdr {
        8
    } else {
        0
    };
    PipelineKey { bits: t | h | (msaa_samples << 4) }
}

/// Law: the key bitset is injective — equal keys can only come from the
/// same multisample count, HDR flag and topology, so one cache entry per
/// key is one entry per distinct view and mesh combination.
pub proof fn lemma_key_injective(
    m1: u32,
    h1: bool,
    t1: Topology,
    m2: u32,
    h2: bool,
    t2: Topology,
)
    requires
        m1 <= 0x0fff_ffff,
        m2 <= 0x0fff_ffff,
        spec_key_bits(m1, h1, t1) == spec_key_bits(m2, h2, t2),
    ensures
        m1 == m2,
        h1 == h2,
        t1 == t2,
{
    let c1 = spec_topology_code(t1);
    let c2 = spec_topology_code(t2);
    let b1: u32 = if h1 {
        8
    } else {
        0
    };
    let b2: u32 = if h2 {
        8
    } else {
        0
    };
    assert(c1 < 8 && c2 < 8);
    assert((c1 | b1 | (m1 << 4)) == (c2 | b2 | (m2 << 4)) && c1 < 8 && c2 < 8 && (b1 == 0 || b1
        == 8) && (b2 == 0 || b2 == 8) && m1 <= 0x0fff_ffff && m2 <= 0x0fff_ffff ==> c1 == c2 && b1
        == b2 && m1 == m2) by (bit_vector);
    assert(c1 == c2 && b1 == b2 && m1 == m2);
}

/// GPU vertex attribute formats this feature deals in.
#[derive(Clone, Copy, PartialEq, Eq, Structural, Debug)]
pub enum VertexFormat {
    /// One 32-bit float.
    Float32,
    /// Two 32-bit floats.
    Float32x2,
    /// Three 32-bit floats.
    Float32x3,
    /// Four 32-bit floats.
    Float32x4,
}

/// Whether a vertex buffer advances per vertex or per instance.
#[derive(Clone, Copy, PartialEq, Eq, Structural, Debug)]
pub enum StepMode {
    /// Advance once per vertex.
    Vertex,
    /// Advance once per instance.
    Instance,
}

/// One attribute within a vertex buffer layout.
#[derive(Clone, Copy, PartialEq, Eq, Structural, Debug)]
pub struct VertexAttribute {
    /// The attribute's data format.
    pub format: VertexFormat,
    /// Byte offset of the attribute within one array element.
    pub offset: u64,
    /// The shader-visible location the attribute is bound to.
    pub shader_location: u32,
}

/// One vertex buffer binding of a pipeline.
pub struct VertexBufferLayout {
    /// Byte distance between consecutive array elements.
    pub array_stride: u64,
    /// Per-vertex or per-instance stepping.
    pub step_mode: StepMode,
    /// The attributes read from this buffer.
    pub attributes: Vec<VertexAttribute>,
}

/// A render pipeline descriptor: which shader runs each stage and which
/// vertex buffer bindings feed it.
pub struct PipelineDescriptor {
    /// Shader module bound to the vertex stage.
    pub vertex_shader: u32,
    /// Shader module bound to the fragment stage.
    pub fragment_shader: u32,
    /// The vertex buffer bindings, in slot order.
    pub buffers: Vec<VertexBufferLayout>,
}

/// Two layouts describe the same binding.
pub open spec fn spec_layout_eq(a: VertexBufferLayout, b: VertexBufferLayout) -> bool {
    &&& a.array_stride == b.array_stride
    &&& a.step_mode == b.step_mode
    &&& a.attributes@ == b.attributes@
}

/// The binding this feature adds: 32-byte records stepped per instance,
/// a 4-float position-plus-scale in the first 16 bytes at shader location
/// 3 and a 4-float color in the next 16 bytes at location 4 — locations
/// chosen not to collide with the base mesh's own attributes (0..2).
pub open spec fn spec_is_instance_layout(l: VertexBufferLayout) -> bool {
    &&& l.array_stride == 32
    &&& l.step_mode == StepMode::Instance
    &&& l.attributes@.len() == 2
    &&& l.attributes@[0] == (VertexAttribute {
        format: VertexFormat::Float32x4,
        offset: 0,
        shader_location: 3,
    })
    &&& l.attributes@[1] == (VertexAttribute {
        format: VertexFormat::Float32x4,
        offset: 16,
        shader_location: 4,
    })
}

/// `d` is the instanced specialization of `base`: the same bindings in
/// the same order, one extra per-instance binding at the end, and the
/// custom shader bound to both stages.
pub open spec fn spec_is_specialized(
    d: PipelineDescriptor,
    base: PipelineDescriptor,
    shader: u32,
) -> bool {
    &&& d.vertex_shader == shader
    &&& d.fragment_shader == shader
    &&& d.buffers@.len() == base.buffers@.len() + 1
    &&& forall|i: int|
        0 <= i < base.buffers@.len() ==> spec_layout_eq(#[trigger] d.buffers@[i], base.buffers@[i])
    &&& spec_is_instance_layout(d.buffers@[base.buffers@.len() as int])
}

/// Builds the per-instance vertex buffer binding.
pub fn instance_layout() -> (l: VertexBufferLayout)
    ensures
        spec_is_instance_layout(l),
{
    let mut attrs: Vec<VertexAttribute> = Vec::new();
    attrs.push(VertexAttribute { format: VertexFormat::Float32x4, offset: 0, shader_location: 3 });
    attrs.push(VertexAttribute { format: VertexFormat::Float32x4, offset: 16, shader_location: 4 });
    VertexBufferLayout { array_stride: 32, step_mode: StepMode::Instance, attributes: attrs }
}

/// Copies one vertex buffer binding.
fn clone_layout(l: &VertexBufferLayout) -> (r: VertexBufferLayout)
    ensures
        spec_layout_eq(r, *l),
{
    let mut attrs: Vec<VertexAttribute> = Vec::new();
    let mut i: usize = 0;
    while i < l.attributes.len()
        invariant
            i <= l.attributes@.len(),
            attrs@ == l.attributes@.take(i as int),
        decreases l.attributes@.len() - i,
    {
        attrs.push(l.attributes[i]);
        proof {
            assert(l.attributes@.take(i + 1) =~= l.attributes@.take(i as int).push(
                l.attributes@[i as int],
            ));
        }
        i += 1;
    }
    proof {
        assert(l.attributes@.take(l.attributes@.len() as int) =~= l.attributes@);
    }
    VertexBufferLayout { array_stride: l.array_stride, step_mode: l.step_mode, attributes: attrs }
}

/// Specializes the base mesh descriptor for instanced drawing: binds the
/// custom shader to both the vertex and the fragment stage and appends
/// the per-instance buffer binding after the base mesh's own bindings.
pub fn specialize_descriptor(base: &PipelineDescriptor, shader: u32) -> (d: PipelineDescriptor)
    ensures
        spec_is_specialized(d, *base, shader),
{
    let mut bufs: Vec<VertexBufferLayout> = Vec::new();
    let mut i: usize = 0;
    while i < base.buffers.len()
        invariant
            i <= base.buffers@.len(),
            bufs@.len() == i,
            forall|j: int|
                0 <= j < i ==> spec_layout_eq(#[trigger] bufs@[j], base.buffers@[j]),
        decreases base.buffers@.len() - i,
    {
        let cl = clone_layout(&base.buffers[i]);
        bufs.push(cl);
        i += 1;
    }
    bufs.push(instance_layout());
    PipelineDescriptor { vertex_shader: shader, fragment_shader: shader, buffers: bufs }
}

/// The error a key is answered with when the base mesh pipeline cannot be
/// specialized for it. The caller skips the affected draw item for the
/// frame instead of aborting the frame.
#[derive(Clone, Copy, PartialEq, Eq, Structural, Debug)]
pub enum SpecializationError {
    /// The mesh's vertex layout is not supported by the base pipeline.
    UnsupportedLayout,
}

/// The pipeline id cached for `key`: the first entry carrying it.
pub open spec fn spec_cache_lookup(entries: Seq<(u32, u32)>, key: u32) -> Option<u32>
    decreases entries.len(),
{
    if entries.len() == 0 {
        Option::None
    } else if entries[0].0 == key {
        Option::Some(entries[0].1)
    } else {
        spec_cache_lookup(entries.drop_first(), key)
    }
}

/// Appending an entry for a key not yet present makes lookups of that key
/// find exactly that entry.
pub proof fn lemma_cache_lookup_push(entries: Seq<(u32, u32)>, key: u32, id: u32)
    requires
        spec_cache_lookup(entries, key) is None,
    ensures
        spec_cache_lookup(entries.push((key, id)), key) == Option::Some(id),
    decreases entries.len(),
{
    if entries.len() == 0 {
        assert(entries.push((key, id))[0] == (key, id));
    } else {
        assert(entries.push((key, id)).drop_first() =~= entries.drop_first().push((key, id)));
        lemma_cache_lookup_push(entries.drop_first(), key, id);
    }
}

/// One cache consultation at the specification level: the entries and the
/// id allocator afterwards, and on success the pipeline id together with
/// whether this request performed the build.
pub open spec fn spec_specialize_step(
    entries: Seq<(u32, u32)>,
    next_id: u32,
    key: u32,
    base_ok: bool,
) -> (Seq<(u32, u32)>, u32, Option<(u32, bool)>) {
    match spec_cache_lookup(entries, key) {
        Option::Some(id) => (entries, next_id, Option::Some((id, false))),
        Option::None => if base_ok {
            (entries.push((key, next_id)), (next_id + 1) as u32, Option::Some((next_id, true)))
        } else {
            (entries, next_id, Option::None)
        },
    }
}

/// Law: for any combination requested twice, the second request returns
/// the identical cached pipeline id, performs no build, and leaves the
/// cache untouched — whatever happens in between leaves the entry in
/// place, since the cache is append-only.
pub proof fn lemma_second_request_is_cached(
    entries: Seq<(u32, u32)>,
    next_id: u32,
    key: u32,
    base_ok1: bool,
    base_ok2: bool,
)
    requires
        spec_specialize_step(entries, next_id, key, base_ok1).2 is Some,
    ensures
        ({
            let (e1, n1, r1) = spec_specialize_step(entries, next_id, key, base_ok1);
            let (e2, n2, r2) = spec_specialize_step(e1, n1, key, base_ok2);
            &&& r2 == Option::Some((r1.unwrap().0, false))
            &&& e2 == e1
            &&& n2 == n1
        }),
{
    if spec_cache_lookup(entries, key) is None {
        lemma_cache_lookup_push(entries, key, next_id);
    }
}

/// The cache of specialized pipelines. It lives for the whole run of the
/// render app, is appended to only here, and entries are never evicted,
/// so an entry once inserted is immutable and safe to read concurrently.
pub struct SpecializedPipelineCache {
    /// `(key bits, pipeline id)` pairs in insertion order; keys unique.
    pub entries: Vec<(u32, u32)>,
    /// Id the next newly built pipeline will receive.
    pub next_id: u32,
}

impl SpecializedPipelineCache {
    /// An empty cache.
    pub fn new() -> (c: Self)
        ensures
            c.entries@.len() == 0,
            c.next_id == 0,
    {
        SpecializedPipelineCache { entries: Vec::new(), next_id: 0 }
    }

    /// The cached id for `key`, if the key was ever built.
    pub fn lookup(&self, key: PipelineKey) -> (r: Option<u32>)
        ensures
            r == spec_cache_lookup(self.entries@, key.bits),
    {
        let mut i: usize = 0;
        proof {
            assert(self.entries@.skip(0) =~= self.entries@);
        }
        while i < self.entries.len()
            invariant
                i <= self.entries@.len(),
                spec_cache_lookup(self.entries@, key.bits) == spec_cache_lookup(
                    self.entries@.skip(i as int),
                    key.bits,
                ),
            decreases self.entries@.len() - i,
        {
            let (k, id) = self.entries[i];
            proof {
                assert(self.entries@.skip(i as int)[0] == self.entries@[i as int]);
            }
            if k == key.bits {
                return Option::Some(id);
            }
            proof {
                assert(self.entries@.skip(i as int).drop_first() =~= self.entries@.skip(
                    i as int + 1,
                ));
            }
            i += 1;
        }
        proof {
            assert(self.entries@.skip(self.entries@.len() as int).len() == 0);
        }
        Option::None
    }

    /// Returns the pipeline for `key`, building at most once per key.
    ///
    /// A key already seen answers with the cached id and no descriptor: no
    /// build occurs and the cache does not move. A fresh key specializes
    /// `base` (when the mesh's layout supports it), assigns the next id,
    /// caches it, and hands the built descriptor back for compilation. A
    /// fresh key without a usable base layout is answered with the
    /// specialization error and changes nothing.
    pub fn specialize(
        &mut self,
        key: PipelineKey,
        base: Option<&PipelineDescriptor>,
        shader: u32,
    ) -> (r: Result<(u32, Option<PipelineDescriptor>), SpecializationError>)
        requires
            old(self).next_id < u32::MAX,
        ensures
            ({
                let (e1, n1, res) = spec_specialize_step(
                    old(self).entries@,
                    old(self).next_id,
                    key.bits,
                    base is Some,
                );
                &&& final(self).entries@ == e1
                &&& final(self).next_id == n1
                &&& match res {
                    Option::None => r is Err,
                    Option::Some(p) => {
                        &&& r is Ok
                        &&& r.unwrap().0 == p.0
                        &&& (p.1 ==> r.unwrap().1 is Some && base is Some && spec_is_specialized(
                            r.unwrap().1.unwrap(),
                            *base.unwrap(),
                            shader,
                        ))
                        &&& (!p.1 ==> r.unwrap().1 is None)
                    },
                }
            }),
    {
        match self.lookup(key) {
            Option::Some(id) => Result::Ok((id, Option::None)),
            Option::None => match base {
                Option::None => Result::Err(SpecializationError::UnsupportedLayout),
                Option::Some(b) => {
                    let d = specialize_descriptor(b, shader);
                    let id = self.next_id;
                    self.next_id = self.next_id + 1;
                    proof {
                        lemma_cache_lookup_push(self.entries@, key.bits, id);
                    }
                    self.entries.push((key.bits, id));
                    Result::Ok((id, Option::Some(d)))
                },
            },
        }
    }
}

} // verus!
