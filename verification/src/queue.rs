//! The phase queue builder: once per frame, for every view and every
//! instanced entity, resolve mesh and pipeline, compute the sort key and
//! append one draw item to the view's transparent phase.
//!
//! An entity whose mesh is unresolved is skipped silently; a key whose
//! pipeline cannot be specialized is skipped for this item only; a view
//! without a transparent phase contributes nothing. Each enqueued entity
//! occupies exactly one phase slot (`batch_range` is `[0,1)`) however
//! many GPU instances it expands into.

use vstd::prelude::*;

use crate::pipeline::PipelineDescriptor;
use crate::pipeline::SpecializedPipelineCache;
use crate::pipeline::make_key;
use crate::pipeline::spec_is_specialized;
use crate::pipeline::spec_key_bits;
use crate::pipeline::spec_specialize_step;
use crate::world::DrawItem;
use crate::world::DrawTables;
use crate::world::EXTRA_INDEX_NONE;
use crate::world::TransparentPhase;

verus! {

/// The extracted settings of one view: what the pipeline key needs, plus
/// the per-entity view-space depths the view's rangefinder computed (a
/// collaborator of this core; the depth of an instance group is the depth
/// of its reference translation, one scalar per entity).
pub struct ViewInput {
    /// The view's multisample count.
    pub msaa_samples: u32,
    /// Whether the view renders to a high-dynamic-range target.
    pub hdr: bool,
    /// Per entity, the bit pattern of its view-space depth.
    pub depths: Vec<u32>,
}

/// The queueing decision for entity `e` under one view: the items
/// appended (none or one), the cache entries and id allocator afterwards,
/// and how many pipeline builds the decision performed.
pub open spec fn spec_queue_entity(
    t: DrawTables,
    e: int,
    entries: Seq<(u32, u32)>,
    next_id: u32,
    msaa_samples: u32,
    hdr: bool,
    depth: u32,
    draw_function: u32,
) -> (Seq<DrawItem>, Seq<(u32, u32)>, u32, int) {
    match t.spec_mesh_ref(e) {
        Option::None => (Seq::empty(), entries, next_id, 0),
        Option::Some(m) => match t.spec_mesh(m as int) {
            Option::None => (Seq::empty(), entries, next_id, 0),
            Option::Some(mesh) => {
                let key = spec_key_bits(msaa_samples, hdr, mesh.topology);
                let (e1, n1, res) = spec_specialize_step(
                    entries,
                    next_id,
                    key,
                    mesh.layout_supported,
                );
                match res {
                    Option::None => (Seq::empty(), e1, n1, 0),
                    Option::Some(p) => (
                        seq![
                            DrawItem {
                                entity: e as usize,
                                pipeline: p.0,
                                draw_function,
                                distance_bits: depth,
                                batch_start: 0,
                                batch_end: 1,
                                extra_index: EXTRA_INDEX_NONE,
                            },
                        ],
                        e1,
                        n1,
                        if p.1 {
                            1int
                        } else {
                            0int
                        },
                    ),
                }
            },
        },
    }
}

/// The queueing decisions for entities `k ..` under one view, threading
/// the cache state: items in entity order, the cache afterwards, and the
/// number of builds performed.
pub open spec fn spec_queue_entities_from(
    t: DrawTables,
    k: int,
    entries: Seq<(u32, u32)>,
    next_id: u32,
    msaa_samples: u32,
    hdr: bool,
    depths: Seq<u32>,
    draw_function: u32,
) -> (Seq<DrawItem>, Seq<(u32, u32)>, u32, int)
    decreases t.mesh_refs@.len() - k,
{
    if k < 0 || k >= t.mesh_refs@.len() {
        (Seq::empty(), entries, next_id, 0)
    } else {
        let (it, e1, n1, b1) = spec_queue_entity(
            t,
            k,
            entries,
            next_id,
            msaa_samples,
            hdr,
            depths[k],
            draw_function,
        );
        let (rit, e2, n2, b2) = spec_queue_entities_from(
            t,
            k + 1,
            e1,
            n1,
            msaa_samples,
            hdr,
            depths,
            draw_function,
        );
        (it + rit, e2, n2, b1 + b2)
    }
}

/// Law: an entity whose mesh queue data is missing, or whose mesh asset
/// is absent from the registry, is skipped silently — nothing is
/// enqueued for it, no build happens, and the cache does not move.
pub proof fn lemma_unresolved_entity_enqueues_nothing(
    t: DrawTables,
    e: int,
    entries: Seq<(u32, u32)>,
    next_id: u32,
    msaa_samples: u32,
    hdr: bool,
    depth: u32,
    draw_function: u32,
)
    requires
        t.spec_mesh_ref(e) is None || (t.spec_mesh_ref(e) matches Option::Some(m)
            && t.spec_mesh(m as int) is None),
    ensures
        ({
            let (it, e1, n1, b) = spec_queue_entity(
                t,
                e,
                entries,
                next_id,
                msaa_samples,
                hdr,
                depth,
                draw_function,
            );
            &&& it.len() == 0
            &&& e1 == entries
            &&& n1 == next_id
            &&& b == 0
        }),
{
}

/// The id allocator moves by at most one per remaining entity and never
/// backwards.
pub proof fn lemma_queue_entities_next_bound(
    t: DrawTables,
    k: int,
    entries: Seq<(u32, u32)>,
    next_id: u32,
    msaa_samples: u32,
    hdr: bool,
    depths: Seq<u32>,
    draw_function: u32,
)
    requires
        0 <= k,
        next_id + t.mesh_refs@.len() - k <= u32::MAX || k >= t.mesh_refs@.len(),
    ensures
        ({
            let r = spec_queue_entities_from(
                t,
                k,
                entries,
                next_id,
                msaa_samples,
                hdr,
                depths,
                draw_function,
            );
            &&& next_id <= r.2
            &&& r.2 <= next_id + (if k < t.mesh_refs@.len() {
                t.mesh_refs@.len() - k
            } else {
                0int
            })
            &&& 0 <= r.3
        }),
    decreases t.mesh_refs@.len() - k,
{
    if 0 <= k < t.mesh_refs@.len() {
        let (it, e1, n1, b1) = spec_queue_entity(
            t,
            k,
            entries,
            next_id,
            msaa_samples,
            hdr,
            depths[k],
            draw_function,
        );
        lemma_queue_entities_next_bound(
            t,
            k + 1,
            e1,
            n1,
            msaa_samples,
            hdr,
            depths,
            draw_function,
        );
    }
}

/// Queues one view: for every entity, resolve the mesh, build the key
/// from the view's multisample count and HDR flag and the mesh's
/// topology, obtain the specialized pipeline (skipping the item on a
/// specialization error), and append one item with the entity's depth as
/// sort distance and batch range `[0,1)`. Newly built descriptors are
/// appended to `builds` for compilation.
pub fn queue_view(
    view: &ViewInput,
    t: &DrawTables,
    cache: &mut SpecializedPipelineCache,
    base: &PipelineDescriptor,
    shader: u32,
    draw_function: u32,
    phase: &mut TransparentPhase,
    builds: &mut Vec<PipelineDescriptor>,
)
    requires
        view.msaa_samples <= 0x0fff_ffff,
        view.depths@.len() == t.mesh_refs@.len(),
        old(cache).next_id + t.mesh_refs@.len() <= u32::MAX,
    ensures
        ({
            let (items, e1, n1, b) = spec_queue_entities_from(
                *t,
                0,
                old(cache).entries@,
                old(cache).next_id,
                view.msaa_samples,
                view.hdr,
                view.depths@,
                draw_function,
            );
            &&& final(phase).items@ == old(phase).items@ + items
            &&& final(cache).entries@ == e1
            &&& final(cache).next_id == n1
            &&& final(builds)@.len() == old(builds)@.len() + b
            &&& forall|i: int|
                old(builds)@.len() <= i < final(builds)@.len() ==> spec_is_specialized(
                    #[trigger] final(builds)@[i],
                    *base,
                    shader,
                )
            &&& forall|i: int|
                0 <= i < old(builds)@.len() ==> final(builds)@[i] == #[trigger] old(builds)@[i]
        }),
{
    let ghost full = spec_queue_entities_from(
        *t,
        0,
        cache.entries@,
        cache.next_id,
        view.msaa_samples,
        view.hdr,
        view.depths@,
        draw_function,
    );
    let ghost mut gitems: Seq<DrawItem> = Seq::empty();
    let ghost mut gbuilds: int = 0;
    let n = t.mesh_refs.len();
    let mut e: usize = 0;
    proof {
        assert(phase.items@ =~= old(phase).items@ + gitems);
    }
    while e < n
        invariant
            n == t.mesh_refs@.len(),
            e <= n,
            view.msaa_samples <= 0x0fff_ffff,
            view.depths@.len() == t.mesh_refs@.len(),
            cache.next_id + (n - e) <= u32::MAX,
            phase.items@ == old(phase).items@ + gitems,
            builds@.len() == old(builds)@.len() + gbuilds,
            0 <= gbuilds,
            forall|i: int|
                old(builds)@.len() <= i < builds@.len() ==> spec_is_specialized(
                    #[trigger] builds@[i],
                    *base,
                    shader,
                ),
            forall|i: int|
                0 <= i < old(builds)@.len() ==> builds@[i] == #[trigger] old(builds)@[i],
            full == spec_queue_entities_from(
                *t,
                0,
                old(cache).entries@,
                old(cache).next_id,
                view.msaa_samples,
                view.hdr,
                view.depths@,
                draw_function,
            ),
            ({
                let (ri, re, rn, rb) = spec_queue_entities_from(
                    *t,
                    e as int,
                    cache.entries@,
                    cache.next_id,
                    view.msaa_samples,
                    view.hdr,
                    view.depths@,
                    draw_function,
                );
                &&& full.0 == gitems + ri
                &&& full.1 == re
                &&& full.2 == rn
                &&& full.3 == gbuilds + rb
            }),
        decreases n - e,
    {
        let ghost pre_entries = cache.entries@;
        let ghost pre_next = cache.next_id;
        let ghost step = spec_queue_entity(
            *t,
            e as int,
            pre_entries,
            pre_next,
            view.msaa_samples,
            view.hdr,
            view.depths@[e as int],
            draw_function,
        );
        match t.mesh_ref(e) {
            Option::None => {},
            Option::Some(m) => match t.mesh(m) {
                Option::None => {},
                Option::Some(mesh) => {
                    let key = make_key(view.msaa_samples, view.hdr, mesh.topology);
                    let base_opt: Option<&PipelineDescriptor> = if mesh.layout_supported {
                        Option::Some(base)
                    } else {
                        Option::None
                    };
                    let r = cache.specialize(key, base_opt, shader);
                    match r {
                        Result::Err(_) => {},
                        Result::Ok((id, built)) => {
                            match built {
                                Option::Some(d) => {
                                    builds.push(d);
                                    proof {
                                        gbuilds = gbuilds + 1;
                                    }
                                },
                                Option::None => {},
                            }
                            phase.items.push(
                                DrawItem {
                                    entity: e,
                                    pipeline: id,
                                    draw_function,
                                    distance_bits: view.depths[e],
                                    batch_start: 0,
                                    batch_end: 1,
                                    extra_index: EXTRA_INDEX_NONE,
                                },
                            );
                        },
                    }
                },
            },
        }
        proof {
            let rest = spec_queue_entities_from(
                *t,
                e as int + 1,
                step.1,
                step.2,
                view.msaa_samples,
                view.hdr,
                view.depths@,
                draw_function,
            );
            assert((gitems + step.0) + rest.0 =~= gitems + (step.0 + rest.0));
            assert(phase.items@ =~= (old(phase).items@ + gitems) + step.0);
            assert(old(phase).items@ + (gitems + step.0) =~= (old(phase).items@ + gitems)
                + step.0);
            gitems = gitems + step.0;
        }
        e += 1;
    }
    proof {
        assert(full.0 =~= gitems);
    }
}

/// The queueing decisions for views `v ..`: per view the items appended
/// to its phase (empty for a view without a phase), threading the cache,
/// and the total number of builds.
pub open spec fn spec_queue_views_from(
    t: DrawTables,
    views: Seq<ViewInput>,
    phases: Seq<Option<TransparentPhase>>,
    v: int,
    entries: Seq<(u32, u32)>,
    next_id: u32,
    draw_function: u32,
) -> (Seq<Seq<DrawItem>>, Seq<(u32, u32)>, u32, int)
    decreases views.len() - v,
{
    if v < 0 || v >= views.len() {
        (Seq::empty(), entries, next_id, 0)
    } else if phases[v] is None {
        let (rit, e2, n2, b2) = spec_queue_views_from(
            t,
            views,
            phases,
            v + 1,
            entries,
            next_id,
            draw_function,
        );
        (seq![Seq::<DrawItem>::empty()] + rit, e2, n2, b2)
    } else {
        let (it, e1, n1, b1) = spec_queue_entities_from(
            t,
            0,
            entries,
            next_id,
            views[v].msaa_samples,
            views[v].hdr,
            views[v].depths@,
            draw_function,
        );
        let (rit, e2, n2, b2) = spec_queue_views_from(
            t,
            views,
            phases,
            v + 1,
            e1,
            n1,
            draw_function,
        );
        (seq![it] + rit, e2, n2, b1 + b2)
    }
}

/// Queues a whole frame: every view with a transparent phase gets one
/// item per resolvable entity; views without a phase are skipped. The
/// phases are returned in view order with their appended items; the
/// cache and the build list advance across views, so a key two views
/// share is built exactly once.
pub fn queue_frame(
    views: &Vec<ViewInput>,
    phases: Vec<Option<TransparentPhase>>,
    t: &DrawTables,
    cache: &mut SpecializedPipelineCache,
    base: &PipelineDescriptor,
    shader: u32,
    draw_function: u32,
    builds: &mut Vec<PipelineDescriptor>,
) -> (out: Vec<Option<TransparentPhase>>)
    requires
        phases@.len() == views@.len(),
        forall|v: int|
            0 <= v < views@.len() ==> (#[trigger] views@[v].msaa_samples) <= 0x0fff_ffff
                && views@[v].depths@.len() == t.mesh_refs@.len(),
        old(cache).next_id + views@.len() * t.mesh_refs@.len() <= u32::MAX,
    ensures
        ({
            let (pvi, e1, n1, b) = spec_queue_views_from(
                *t,
                views@,
                phases@,
                0,
                old(cache).entries@,
                old(cache).next_id,
                draw_function,
            );
            &&& out@.len() == views@.len()
            &&& forall|v: int|
                0 <= v < views@.len() ==> ((phases@[v] is None ==> (#[trigger] out@[v]) is None)
                    && (phases@[v] is Some ==> out@[v] is Some && out@[v].unwrap().items@
                    == phases@[v].unwrap().items@ + pvi[v]))
            &&& final(cache).entries@ == e1
            &&& final(cache).next_id == n1
            &&& final(builds)@.len() == old(builds)@.len() + b
            &&& forall|i: int|
                old(builds)@.len() <= i < final(builds)@.len() ==> spec_is_specialized(
                    #[trigger] final(builds)@[i],
                    *base,
                    shader,
                )
        }),
{
    let ghost full = spec_queue_views_from(
        *t,
        views@,
        phases@,
        0,
        cache.entries@,
        cache.next_id,
        draw_function,
    );
    let nviews = views.len();
    let n = t.mesh_refs.len();
    let mut rest_in = phases;
    let mut out: Vec<Option<TransparentPhase>> = Vec::new();
    let ghost phases0 = rest_in@;
    let ghost mut gpvi: Seq<Seq<DrawItem>> = Seq::empty();
    let ghost mut gbuilds: int = 0;
    let mut v: usize = 0;
    proof {
        assert(rest_in@ =~= phases0.skip(0));
    }
    while v < nviews
        invariant
            nviews == views@.len(),
            n == t.mesh_refs@.len(),
            phases0.len() == views@.len(),
            v <= nviews,
            forall|w: int|
                0 <= w < views@.len() ==> (#[trigger] views@[w].msaa_samples) <= 0x0fff_ffff
                    && views@[w].depths@.len() == t.mesh_refs@.len(),
            rest_in@ == phases0.skip(v as int),
            out@.len() == v,
            gpvi.len() == v,
            cache.next_id + (nviews - v) * n <= u32::MAX,
            builds@.len() == old(builds)@.len() + gbuilds,
            0 <= gbuilds,
            forall|i: int|
                old(builds)@.len() <= i < builds@.len() ==> spec_is_specialized(
                    #[trigger] builds@[i],
                    *base,
                    shader,
                ),
            forall|w: int|
                0 <= w < v ==> ((phases0[w] is None ==> (#[trigger] out@[w]) is None) && (
                phases0[w] is Some ==> out@[w] is Some && out@[w].unwrap().items@
                    == phases0[w].unwrap().items@ + gpvi[w])),
            full == spec_queue_views_from(
                *t,
                views@,
                phases0,
                0,
                old(cache).entries@,
                old(cache).next_id,
                draw_function,
            ),
            ({
                let (ri, re, rn, rb) = spec_queue_views_from(
                    *t,
                    views@,
                    phases0,
                    v as int,
                    cache.entries@,
                    cache.next_id,
                    draw_function,
                );
                &&& full.0 == gpvi + ri
                &&& full.1 == re
                &&& full.2 == rn
                &&& full.3 == gbuilds + rb
            }),
        decreases nviews - v,
    {
        let ghost pre_entries = cache.entries@;
        let ghost pre_next = cache.next_id;
        proof {
            assert((nviews - v) * n == (nviews - v - 1) * n + n) by (nonlinear_arith);
            assert((nviews - v - 1) * n >= 0) by (nonlinear_arith)
                requires
                    v < nviews,
                    n >= 0,
            ;
            assert(rest_in@[0] == phases0[v as int]);
        }
        let ph_opt = rest_in.remove(0);
        match ph_opt {
            Option::None => {
                out.push(Option::None);
                proof {
                    let rest = spec_queue_views_from(
                        *t,
                        views@,
                        phases0,
                        v as int + 1,
                        pre_entries,
                        pre_next,
                        draw_function,
                    );
                    assert(gpvi.push(Seq::<DrawItem>::empty()) =~= gpvi + seq![
                        Seq::<DrawItem>::empty(),
                    ]);
                    assert((gpvi + seq![Seq::<DrawItem>::empty()]) + rest.0 =~= gpvi + (seq![
                        Seq::<DrawItem>::empty(),
                    ] + rest.0));
                    gpvi = gpvi.push(Seq::<DrawItem>::empty());
                }
            },
            Option::Some(mut ph) => {
                let ghost pre_builds = builds@;
                let ghost step = spec_queue_entities_from(
                    *t,
                    0,
                    pre_entries,
                    pre_next,
                    views@[v as int].msaa_samples,
                    views@[v as int].hdr,
                    views@[v as int].depths@,
                    draw_function,
                );
                queue_view(&views[v], t, cache, base, shader, draw_function, &mut ph, builds);
                out.push(Option::Some(ph));
                proof {
                    lemma_queue_entities_next_bound(
                        *t,
                        0,
                        pre_entries,
                        pre_next,
                        views@[v as int].msaa_samples,
                        views@[v as int].hdr,
                        views@[v as int].depths@,
                        draw_function,
                    );
                    let rest = spec_queue_views_from(
                        *t,
                        views@,
                        phases0,
                        v as int + 1,
                        step.1,
                        step.2,
                        draw_function,
                    );
                    assert forall|i: int|
                        old(builds)@.len() <= i < builds@.len() implies spec_is_specialized(
                        #[trigger] builds@[i],
                        *base,
                        shader,
                    ) by {
                        if i < pre_builds.len() {
                            assert(builds@[i] == pre_builds[i]);
                        }
                    }
                    assert(gpvi.push(step.0) =~= gpvi + seq![step.0]);
                    assert((gpvi + seq![step.0]) + rest.0 =~= gpvi + (seq![step.0] + rest.0));
                    gpvi = gpvi.push(step.0);
                    gbuilds = gbuilds + step.3;
                }
            },
        }
        proof {
            assert(rest_in@ =~= phases0.skip(v as int + 1));
        }
        v += 1;
    }
    proof {
        assert(full.0 =~= gpvi);
    }
    out
}

} // verus!
