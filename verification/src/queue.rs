//! The render queue builder: one sortable queue entry per host per view.
//!
//! For each view, the view's multisample and high-dynamic-range flags become
//! the view half of the specialization key; each host contributes its mesh's
//! topology and layout fingerprint. The host's pipeline is requested from the
//! cache, the entry's sort key is the host's view-space depth word (the
//! surrounding phase executor sorts back-to-front and drains), and the batch
//! range is always one host wide. A host whose mesh or instance data does not
//! resolve is skipped; a host whose pipeline cannot be specialized is skipped
//! for the frame and the frame goes on.
use vstd::prelude::*;

use crate::key::from_hdr;
use crate::key::from_msaa_samples;
use crate::key::from_primitive_topology;
use crate::key::topology_code;
use crate::key::valid_msaa_samples;
use crate::key::PipelineKey;
use crate::key::PrimitiveTopology;
use crate::key::HDR_FLAG_BITS;
use crate::key::TOPOLOGY_SHIFT;
use crate::pipeline::CustomPipeline;
use crate::pipeline::MeshVertexBufferLayout;
use crate::pipeline::SpecializedMeshPipelines;

verus! {

/// The render-side snapshot of a view: whether it renders to a
/// high-dynamic-range target.
#[derive(Clone, Copy, Debug, PartialEq, Eq, Structural)]
pub struct ExtractedView {
    pub hdr: bool,
}

/// The render-side record of a host's mesh binding: which mesh asset it
/// draws and the host's view-space depth word, used as the sort key.
#[derive(Clone, Copy, Debug, PartialEq, Eq, Structural)]
pub struct RenderMesh2dInstance {
    pub mesh_asset_id: u64,
    pub translation_z: u32,
}

/// The render-side table of host mesh bindings, keyed by entity.
pub struct RenderMesh2dInstances {
    pub entries: Vec<(u64, RenderMesh2dInstance)>,
}

/// The width of a mesh's indices.
#[derive(Clone, Copy, Debug, PartialEq, Eq, Structural)]
pub enum IndexFormat {
    Uint16,
    Uint32,
}

/// How a prepared mesh's vertices are addressed: through an index buffer, or
/// directly.
#[derive(Clone, Copy, Debug, PartialEq, Eq, Structural)]
pub enum GpuBufferInfo {
    Indexed { buffer: u64, index_format: IndexFormat, count: u32 },
    NonIndexed,
}

/// A prepared mesh asset: what the queue builder reads (topology, vertex
/// buffer layout) and what the draw sequencer binds (vertex buffer, vertex
/// count, index information).
pub struct Mesh {
    pub primitive_topology: PrimitiveTopology,
    pub layout: MeshVertexBufferLayout,
    pub vertex_buffer: u64,
    pub vertex_count: u32,
    pub buffer_info: GpuBufferInfo,
}

/// The render-side table of prepared mesh assets, keyed by asset identifier.
pub struct RenderAssets {
    pub meshes: Vec<(u64, Mesh)>,
}

/// First value of an association list under a key, if any.
pub open spec fn assoc_find<T>(entries: Seq<(u64, T)>, id: u64) -> Option<T>
    decreases entries.len(),
{
    if entries.len() == 0 {
        None
    } else if entries[0].0 == id {
        Some(entries[0].1)
    } else {
        assoc_find(entries.skip(1), id)
    }
}

impl RenderMesh2dInstances {
    /// Looks an entity's mesh binding up.
    pub fn get(&self, entity: u64) -> (r: Option<&RenderMesh2dInstance>)
        ensures
            match r {
                Some(mi) => assoc_find(self.entries@, entity) == Some(*mi),
                None => assoc_find(self.entries@, entity) is None,
            },
    {
        let n: usize = self.entries.len();
        let mut i: usize = 0;
        assert(self.entries@.skip(0) =~= self.entries@);
        while i < n
            invariant
                n == self.entries@.len(),
                i <= n,
                assoc_find(self.entries@, entity) == assoc_find(
                    self.entries@.skip(i as int),
                    entity,
                ),
            decreases n - i,
        {
            if self.entries[i].0 == entity {
                assert(assoc_find(self.entries@.skip(i as int), entity) == Some(
                    self.entries@[i as int].1,
                ));
                return Some(&self.entries[i].1);
            }
            assert(self.entries@.skip(i as int).skip(1) =~= self.entries@.skip(i + 1 as int));
            i = i + 1;
        }
        assert(self.entries@.skip(n as int) =~= Seq::<(u64, RenderMesh2dInstance)>::empty());
        None
    }
}

impl RenderAssets {
    /// Looks a mesh asset up.
    pub fn get(&self, id: u64) -> (r: Option<&Mesh>)
        ensures
            match r {
                Some(m) => assoc_find(self.meshes@, id) == Some(*m),
                None => assoc_find(self.meshes@, id) is None,
            },
    {
        let n: usize = self.meshes.len();
        let mut i: usize = 0;
        assert(self.meshes@.skip(0) =~= self.meshes@);
        while i < n
            invariant
                n == self.meshes@.len(),
                i <= n,
                assoc_find(self.meshes@, id) == assoc_find(self.meshes@.skip(i as int), id),
            decreases n - i,
        {
            if self.meshes[i].0 == id {
                assert(assoc_find(self.meshes@.skip(i as int), id) == Some(
                    self.meshes@[i as int].1,
                ));
                return Some(&self.meshes[i].1);
            }
            assert(self.meshes@.skip(i as int).skip(1) =~= self.meshes@.skip(i + 1 as int));
            i = i + 1;
        }
        assert(self.meshes@.skip(n as int) =~= Seq::<(u64, Mesh)>::empty());
        None
    }
}

/// One queue entry: per host, per view, per frame. The batch range is always
/// `[0, 1)` — no cross-host batching — and there is no dynamic offset.
#[derive(Clone, Copy, Debug, PartialEq, Eq, Structural)]
pub struct QueueEntry {
    pub sort_key: u32,
    pub entity: u64,
    pub pipeline: usize,
    pub draw_function: u32,
    pub batch_start: u32,
    pub batch_end: u32,
    pub dynamic_offset: Option<u32>,
}

/// A view's ordered queue of entries for one frame.
pub struct RenderPhase {
    pub items: Vec<QueueEntry>,
}

impl RenderPhase {
    /// Appends one entry.
    pub fn add(&mut self, entry: QueueEntry)
        ensures
            final(self).items@ == old(self).items@.push(entry),
    {
        self.items.push(entry);
    }
}

/// The view half of the flag word: multisample count and the view's
/// high-dynamic-range flag.
pub open spec fn view_key_flags(msaa_samples: u32, hdr: bool) -> u32 {
    msaa_samples | (if hdr {
        HDR_FLAG_BITS
    } else {
        0u32
    })
}

/// The full specialization key of a mesh under given view flags.
pub open spec fn mesh_key(view_flags: u32, mesh: Mesh) -> PipelineKey {
    PipelineKey {
        flags: view_flags | ((topology_code(mesh.primitive_topology) * TOPOLOGY_SHIFT) as u32),
        layout_fingerprint: mesh.layout.fingerprint,
    }
}

/// A host's mesh binding and mesh asset both resolve.
pub open spec fn resolvable(
    entity: u64,
    instances: RenderMesh2dInstances,
    meshes: RenderAssets,
) -> bool {
    &&& assoc_find(instances.entries@, entity) is Some
    &&& assoc_find(meshes.meshes@, (assoc_find(instances.entries@, entity)->0).mesh_asset_id)
        is Some
}

/// The resolved mesh binding of a host.
pub open spec fn instance_of(entity: u64, instances: RenderMesh2dInstances)
    -> RenderMesh2dInstance {
    assoc_find(instances.entries@, entity)->0
}

/// The resolved mesh asset of a host.
pub open spec fn mesh_of(
    entity: u64,
    instances: RenderMesh2dInstances,
    meshes: RenderAssets,
) -> Mesh {
    assoc_find(meshes.meshes@, instance_of(entity, instances).mesh_asset_id)->0
}

/// The specialization key a host needs under given view flags.
pub open spec fn key_of(
    entity: u64,
    instances: RenderMesh2dInstances,
    meshes: RenderAssets,
    view_flags: u32,
) -> PipelineKey {
    mesh_key(view_flags, mesh_of(entity, instances, meshes))
}

/// What one view's pass over the hosts does: which hosts are queued, in
/// which order, and which keys the cache holds afterwards. A host is queued
/// when it resolves and its pipeline is available — already cached, or
/// compiled now because its layout carries the position attribute; a host
/// whose specialization fails is skipped and the cache is left alone.
pub open spec fn queue_model(
    entities: Seq<u64>,
    instances: RenderMesh2dInstances,
    meshes: RenderAssets,
    view_flags: u32,
    keys0: Seq<PipelineKey>,
) -> (Seq<PipelineKey>, Seq<u64>)
    decreases entities.len(),
{
    if entities.len() == 0 {
        (keys0, Seq::empty())
    } else {
        let prev = queue_model(entities.drop_last(), instances, meshes, view_flags, keys0);
        let e = entities.last();
        if resolvable(e, instances, meshes) {
            if prev.0.contains(key_of(e, instances, meshes, view_flags)) {
                (prev.0, prev.1.push(e))
            } else if mesh_of(e, instances, meshes).layout.has_position() {
                (prev.0.push(key_of(e, instances, meshes, view_flags)), prev.1.push(e))
            } else {
                prev
            }
        } else {
            prev
        }
    }
}

/// The cache only grows during a pass: the keys it held are still there, in
/// place, afterwards.
pub proof fn lemma_queue_model_keys_grow(
    entities: Seq<u64>,
    instances: RenderMesh2dInstances,
    meshes: RenderAssets,
    view_flags: u32,
    keys0: Seq<PipelineKey>,
)
    ensures
        keys0.is_prefix_of(queue_model(entities, instances, meshes, view_flags, keys0).0),
    decreases entities.len(),
{
    if entities.len() > 0 {
        lemma_queue_model_keys_grow(entities.drop_last(), instances, meshes, view_flags, keys0);
    }
}

/// One well-formed queue entry for a host: the host's identity, its depth
/// word as sort key, the one-host batch range, and a pipeline identity that
/// the cache maps to exactly the host's key.
pub open spec fn entry_matches(
    entry: QueueEntry,
    e: u64,
    instances: RenderMesh2dInstances,
    meshes: RenderAssets,
    view_flags: u32,
    draw_function: u32,
    cache_keys: Seq<PipelineKey>,
) -> bool {
    &&& entry.entity == e
    &&& entry.sort_key == instance_of(e, instances).translation_z
    &&& entry.draw_function == draw_function
    &&& entry.batch_start == 0
    &&& entry.batch_end == 1
    &&& entry.dynamic_offset is None
    &&& entry.pipeline < cache_keys.len()
    &&& cache_keys[entry.pipeline as int] == key_of(e, instances, meshes, view_flags)
}

/// A cache's key set as the containment the model speaks of.
pub proof fn lemma_contains_bridge(cache: SpecializedMeshPipelines, key: PipelineKey)
    ensures
        cache.contains_key(key) <==> cache.keys@.contains(key),
{
    if cache.contains_key(key) {
        let i = choose|i: int| 0 <= i < cache.keys@.len() && cache.keys@[i] == key;
        assert(cache.keys@[i] == key);
    }
    if cache.keys@.contains(key) {
        let i = choose|i: int| 0 <= i < cache.keys@.len() && cache.keys@[i] == key;
        assert(0 <= i < cache.keys@.len() && cache.keys@[i] == key);
    }
}

/// Queues every resolvable host of one view: computes the host's key under
/// the view's flags, requests the specialized pipeline, and appends one
/// entry per host whose pipeline is available, in host order. Hosts that do
/// not resolve, or whose specialization fails, are skipped for this frame.
pub fn queue_custom_view(
    draw_function: u32,
    custom_pipeline: &CustomPipeline,
    msaa_samples: u32,
    view: &ExtractedView,
    material_meshes: &Vec<u64>,
    pipelines: &mut SpecializedMeshPipelines,
    meshes: &RenderAssets,
    render_mesh_instances: &RenderMesh2dInstances,
    phase: &mut RenderPhase,
)
    requires
        old(pipelines).wf(),
        valid_msaa_samples(msaa_samples),
    ensures
        final(pipelines).wf(),
        final(pipelines).keys@ == queue_model(
            material_meshes@,
            *render_mesh_instances,
            *meshes,
            view_key_flags(msaa_samples, view.hdr),
            old(pipelines).keys@,
        ).0,
        final(phase).items@.len() == old(phase).items@.len() + queue_model(
            material_meshes@,
            *render_mesh_instances,
            *meshes,
            view_key_flags(msaa_samples, view.hdr),
            old(pipelines).keys@,
        ).1.len(),
        forall|j: int|
            0 <= j < old(phase).items@.len() ==> final(phase).items@[j] == old(phase).items@[j],
        forall|j: int|
            0 <= j < queue_model(
                material_meshes@,
                *render_mesh_instances,
                *meshes,
                view_key_flags(msaa_samples, view.hdr),
                old(pipelines).keys@,
            ).1.len() ==> entry_matches(
                final(phase).items@[old(phase).items@.len() + j],
                queue_model(
                    material_meshes@,
                    *render_mesh_instances,
                    *meshes,
                    view_key_flags(msaa_samples, view.hdr),
                    old(pipelines).keys@,
                ).1[j],
                *render_mesh_instances,
                *meshes,
                view_key_flags(msaa_samples, view.hdr),
                draw_function,
                final(pipelines).keys@,
            ),
{
    let ghost keys0 = pipelines.keys@;
    let ghost old_items = phase.items@;
    let ghost vf = view_key_flags(msaa_samples, view.hdr);
    let view_flags: u32 = from_msaa_samples(msaa_samples) | from_hdr(view.hdr);
    assert(view_flags == vf);
    let n: usize = material_meshes.len();
    let mut i: usize = 0;
    while i < n
        invariant
            n == material_meshes@.len(),
            i <= n,
            pipelines.wf(),
            pipelines.keys@ == queue_model(
                material_meshes@.take(i as int),
                *render_mesh_instances,
                *meshes,
                vf,
                keys0,
            ).0,
            phase.items@.len() == old_items.len() + queue_model(
                material_meshes@.take(i as int),
                *render_mesh_instances,
                *meshes,
                vf,
                keys0,
            ).1.len(),
            forall|j: int| 0 <= j < old_items.len() ==> phase.items@[j] == old_items[j],
            forall|j: int|
                0 <= j < queue_model(
                    material_meshes@.take(i as int),
                    *render_mesh_instances,
                    *meshes,
                    vf,
                    keys0,
                ).1.len() ==> entry_matches(
                    phase.items@[old_items.len() + j],
                    queue_model(
                        material_meshes@.take(i as int),
                        *render_mesh_instances,
                        *meshes,
                        vf,
                        keys0,
                    ).1[j],
                    *render_mesh_instances,
                    *meshes,
                    vf,
                    draw_function,
                    pipelines.keys@,
                ),
            view_flags == vf,
        decreases n - i,
    {
        let ghost taken = material_meshes@.take(i as int);
        let ghost taken1 = material_meshes@.take(i + 1 as int);
        proof {
            assert(taken1.drop_last() =~= taken);
            assert(taken1.last() == material_meshes@[i as int]);
        }
        let entity: u64 = material_meshes[i];
        let mi = match render_mesh_instances.get(entity) {
            Some(mi) => *mi,
            None => {
                proof {
                    assert(!resolvable(entity, *render_mesh_instances, *meshes));
                }
                i = i + 1;
                continue ;
            },
        };
        let mesh = match meshes.get(mi.mesh_asset_id) {
            Some(m) => m,
            None => {
                proof {
                    assert(!resolvable(entity, *render_mesh_instances, *meshes));
                }
                i = i + 1;
                continue ;
            },
        };
        proof {
            assert(resolvable(entity, *render_mesh_instances, *meshes));
            assert(mesh_of(entity, *render_mesh_instances, *meshes) == *mesh);
        }
        let key_flags_word: u32 = view_flags | from_primitive_topology(mesh.primitive_topology);
        let key = PipelineKey {
            flags: key_flags_word,
            layout_fingerprint: mesh.layout.fingerprint,
        };
        proof {
            assert(key == key_of(entity, *render_mesh_instances, *meshes, vf));
            lemma_contains_bridge(*pipelines, key);
        }
        let ghost cache_before = *pipelines;
        let pipeline = match pipelines.specialize(custom_pipeline, key, &mesh.layout) {
            Ok(id) => id,
            Err(_) => {
                proof {
                    assert(!cache_before.keys@.contains(key));
                    assert(!mesh.layout.has_position());
                }
                i = i + 1;
                continue ;
            },
        };
        let entry = QueueEntry {
            sort_key: mi.translation_z,
            entity,
            pipeline,
            draw_function,
            batch_start: 0,
            batch_end: 1,
            dynamic_offset: None,
        };
        phase.add(entry);
        proof {
            assert(pipelines.keys@[pipeline as int] == key);
            assert(entry_matches(
                entry,
                entity,
                *render_mesh_instances,
                *meshes,
                vf,
                draw_function,
                pipelines.keys@,
            ));
        }
        i = i + 1;
    }
    proof {
        assert(material_meshes@.take(n as int) =~= material_meshes@);
    }
}

/// What queueing does across all views of a frame, in view order: each view
/// queues against the cache the views before it left behind.
pub open spec fn queue_views_model(
    views: Seq<ExtractedView>,
    entities: Seq<u64>,
    instances: RenderMesh2dInstances,
    meshes: RenderAssets,
    msaa_samples: u32,
    keys0: Seq<PipelineKey>,
) -> (Seq<PipelineKey>, Seq<Seq<u64>>)
    decreases views.len(),
{
    if views.len() == 0 {
        (keys0, Seq::empty())
    } else {
        let prev = queue_views_model(views.drop_last(), entities, instances, meshes, msaa_samples, keys0);
        let vm = queue_model(
            entities,
            instances,
            meshes,
            view_key_flags(msaa_samples, views.last().hdr),
            prev.0,
        );
        (vm.0, prev.1.push(vm.1))
    }
}

/// A frame's pass over the views yields one queued-host list per view.
pub proof fn lemma_queue_views_model_len(
    views: Seq<ExtractedView>,
    entities: Seq<u64>,
    instances: RenderMesh2dInstances,
    meshes: RenderAssets,
    msaa_samples: u32,
    keys0: Seq<PipelineKey>,
)
    ensures
        queue_views_model(views, entities, instances, meshes, msaa_samples, keys0).1.len()
            == views.len(),
    decreases views.len(),
{
    if views.len() > 0 {
        lemma_queue_views_model_len(
            views.drop_last(),
            entities,
            instances,
            meshes,
            msaa_samples,
            keys0,
        );
    }
}

/// Builds every view's queue for the frame: one fresh phase per view, one
/// entry per host whose mesh resolves and whose pipeline is available, each
/// entry carrying the host's depth word as sort key and the cached pipeline
/// for the host's key under that view's flags.
pub fn queue_custom(
    draw_function: u32,
    custom_pipeline: &CustomPipeline,
    msaa_samples: u32,
    pipelines: &mut SpecializedMeshPipelines,
    meshes: &RenderAssets,
    render_mesh_instances: &RenderMesh2dInstances,
    material_meshes: &Vec<u64>,
    views: &Vec<ExtractedView>,
) -> (r: Vec<RenderPhase>)
    requires
        old(pipelines).wf(),
        valid_msaa_samples(msaa_samples),
    ensures
        final(pipelines).wf(),
        r@.len() == views@.len(),
        final(pipelines).keys@ == queue_views_model(
            views@,
            material_meshes@,
            *render_mesh_instances,
            *meshes,
            msaa_samples,
            old(pipelines).keys@,
        ).0,
        forall|v: int|
            0 <= v < views@.len() ==> (#[trigger] r@[v]).items@.len() == queue_views_model(
                views@,
                material_meshes@,
                *render_mesh_instances,
                *meshes,
                msaa_samples,
                old(pipelines).keys@,
            ).1[v].len(),
        forall|v: int, j: int|
            0 <= v < views@.len() && 0 <= j < queue_views_model(
                views@,
                material_meshes@,
                *render_mesh_instances,
                *meshes,
                msaa_samples,
                old(pipelines).keys@,
            ).1[v].len() ==> entry_matches(
                #[trigger] r@[v].items@[j],
                queue_views_model(
                    views@,
                    material_meshes@,
                    *render_mesh_instances,
                    *meshes,
                    msaa_samples,
                    old(pipelines).keys@,
                ).1[v][j],
                *render_mesh_instances,
                *meshes,
                view_key_flags(msaa_samples, views@[v].hdr),
                draw_function,
                final(pipelines).keys@,
            ),
{
    let ghost keys0 = pipelines.keys@;
    let mut out: Vec<RenderPhase> = Vec::new();
    let nv: usize = views.len();
    let mut v: usize = 0;
    while v < nv
        invariant
            nv == views@.len(),
            v <= nv,
            out@.len() == v,
            pipelines.wf(),
            valid_msaa_samples(msaa_samples),
            pipelines.keys@ == queue_views_model(
                views@.take(v as int),
                material_meshes@,
                *render_mesh_instances,
                *meshes,
                msaa_samples,
                keys0,
            ).0,
            forall|u: int|
                0 <= u < v ==> (#[trigger] out@[u]).items@.len() == queue_views_model(
                    views@.take(v as int),
                    material_meshes@,
                    *render_mesh_instances,
                    *meshes,
                    msaa_samples,
                    keys0,
                ).1[u].len(),
            forall|u: int, j: int|
                0 <= u < v && 0 <= j < queue_views_model(
                    views@.take(v as int),
                    material_meshes@,
                    *render_mesh_instances,
                    *meshes,
                    msaa_samples,
                    keys0,
                ).1[u].len() ==> entry_matches(
                    #[trigger] out@[u].items@[j],
                    queue_views_model(
                        views@.take(v as int),
                        material_meshes@,
                        *render_mesh_instances,
                        *meshes,
                        msaa_samples,
                        keys0,
                    ).1[u][j],
                    *render_mesh_instances,
                    *meshes,
                    view_key_flags(msaa_samples, views@[u].hdr),
                    draw_function,
                    pipelines.keys@,
                ),
        decreases nv - v,
    {
        proof {
            assert(views@.take(v + 1 as int).drop_last() =~= views@.take(v as int));
            assert(views@.take(v + 1 as int).last() == views@[v as int]);
            lemma_queue_views_model_len(
                views@.take(v as int),
                material_meshes@,
                *render_mesh_instances,
                *meshes,
                msaa_samples,
                keys0,
            );
            lemma_queue_views_model_len(
                views@.take(v + 1 as int),
                material_meshes@,
                *render_mesh_instances,
                *meshes,
                msaa_samples,
                keys0,
            );
        }
        let ghost keys_before = pipelines.keys@;
        let ghost model_before = queue_views_model(
            views@.take(v as int),
            material_meshes@,
            *render_mesh_instances,
            *meshes,
            msaa_samples,
            keys0,
        );
        let view: ExtractedView = views[v];
        let mut phase = RenderPhase { items: Vec::new() };
        queue_custom_view(
            draw_function,
            custom_pipeline,
            msaa_samples,
            &view,
            material_meshes,
            pipelines,
            meshes,
            render_mesh_instances,
            &mut phase,
        );
        proof {
            lemma_queue_model_keys_grow(
                material_meshes@,
                *render_mesh_instances,
                *meshes,
                view_key_flags(msaa_samples, view.hdr),
                keys_before,
            );
            assert forall|u: int, j: int|
                0 <= u < v && 0 <= j < model_before.1[u].len() implies entry_matches(
                #[trigger] out@[u].items@[j],
                model_before.1[u][j],
                *render_mesh_instances,
                *meshes,
                view_key_flags(msaa_samples, views@[u].hdr),
                draw_function,
                pipelines.keys@,
            ) by {
                let p = out@[u].items@[j].pipeline;
                assert(keys_before[p as int] == pipelines.keys@.subrange(
                    0,
                    keys_before.len() as int,
                )[p as int]);
            }
        }
        out.push(phase);
        v = v + 1;
    }
    proof {
        assert(views@.take(nv as int) =~= views@);
    }
    out
}

/// Two hosts whose (view flags, mesh) pairs produce the same specialization
/// key share the identical cached pipeline: in a well-formed cache their
/// queue entries name one and the same pipeline identity.
pub proof fn lemma_shared_pipeline(
    entry1: QueueEntry,
    entry2: QueueEntry,
    e1: u64,
    e2: u64,
    instances: RenderMesh2dInstances,
    meshes: RenderAssets,
    view_flags1: u32,
    view_flags2: u32,
    draw_function: u32,
    cache: SpecializedMeshPipelines,
)
    requires
        cache.wf(),
        entry_matches(entry1, e1, instances, meshes, view_flags1, draw_function, cache.keys@),
        entry_matches(entry2, e2, instances, meshes, view_flags2, draw_function, cache.keys@),
        key_of(e1, instances, meshes, view_flags1) == key_of(e2, instances, meshes, view_flags2),
    ensures
        entry1.pipeline == entry2.pipeline,
{
    crate::pipeline::lemma_at_most_one_pipeline_per_key(
        cache,
        entry1.pipeline as int,
        entry2.pipeline as int,
    );
}

} // verus!
