//! Pipeline specialization: deriving the instanced pipeline descriptor from
//! the common mesh pipeline, and caching one compiled variant per key.
//!
//! Specialization takes the base mesh pipeline's descriptor for the key and
//! applies exactly two augmentations: a shader-defined flag announcing that
//! mesh bindings live in bind-group slot one, and one additional vertex
//! buffer stepped per instance, carrying a four-float word at shader
//! location three (position and scale packed together) and a four-float word
//! at location four (color), at the record's fixed byte offsets. The cache
//! compiles on a miss and afterwards always hands back the same pipeline for
//! the same key: at most one compiled pipeline per distinct key, never a
//! recompilation.
use vstd::prelude::*;

use crate::key::PipelineKey;
use crate::record::RECORD_STRIDE;

verus! {

/// A vertex attribute's format: how many floats the shader reads.
#[derive(Clone, Copy, Debug, PartialEq, Eq, Structural)]
pub enum VertexFormat {
    Float32x2,
    Float32x3,
    Float32x4,
}

/// Bytes one attribute of the given format occupies.
pub fn vertex_format_size(format: VertexFormat) -> (size: u64)
    ensures
        size == vertex_format_size_spec(format),
{
    match format {
        VertexFormat::Float32x2 => 8,
        VertexFormat::Float32x3 => 12,
        VertexFormat::Float32x4 => 16,
    }
}

/// Bytes one attribute of the given format occupies.
pub open spec fn vertex_format_size_spec(format: VertexFormat) -> u64 {
    match format {
        VertexFormat::Float32x2 => 8,
        VertexFormat::Float32x3 => 12,
        VertexFormat::Float32x4 => 16,
    }
}

/// Whether a vertex buffer advances per vertex or per drawn instance.
#[derive(Clone, Copy, Debug, PartialEq, Eq, Structural)]
pub enum VertexStepMode {
    Vertex,
    Instance,
}

/// One attribute within a vertex buffer: format, byte offset, and the shader
/// location it feeds.
#[derive(Clone, Copy, Debug, PartialEq, Eq, Structural)]
pub struct VertexAttribute {
    pub format: VertexFormat,
    pub offset: u64,
    pub shader_location: u32,
}

/// One vertex buffer's layout: stride, step mode and attributes.
pub struct VertexBufferLayout {
    pub array_stride: u64,
    pub step_mode: VertexStepMode,
    pub attributes: Vec<VertexAttribute>,
}

impl VertexBufferLayout {
    /// Two layouts describe the same buffer shape.
    pub open spec fn same_layout(self, other: VertexBufferLayout) -> bool {
        self.array_stride == other.array_stride && self.step_mode == other.step_mode
            && self.attributes@ == other.attributes@
    }
}

/// A mesh's vertex buffer layout together with its fingerprint, the hash by
/// which pipeline keys tell layouts apart.
pub struct MeshVertexBufferLayout {
    pub fingerprint: u64,
    pub buffer: VertexBufferLayout,
}

impl MeshVertexBufferLayout {
    /// The base mesh pipeline requires the position attribute, which feeds
    /// shader location zero.
    pub open spec fn has_position(self) -> bool {
        exists|i: int|
            0 <= i < self.buffer.attributes@.len() && self.buffer.attributes@[i].shader_location
                == 0
    }
}

/// The vertex-stage half of a pipeline descriptor.
pub struct VertexState {
    pub shader: u64,
    pub shader_defs: Vec<String>,
    pub buffers: Vec<VertexBufferLayout>,
}

/// The fragment-stage half of a pipeline descriptor.
pub struct FragmentState {
    pub shader: u64,
}

/// A specialized render pipeline descriptor: both stages plus the flag word
/// (multisample count, high-dynamic-range, topology) it was specialized for.
pub struct RenderPipelineDescriptor {
    pub vertex: VertexState,
    pub fragment: Option<FragmentState>,
    pub key_flags: u32,
}

/// Specialization failure: the mesh's vertex layout cannot serve the base
/// pipeline. The host is skipped for the frame; the frame itself goes on.
#[derive(Clone, Copy, Debug, PartialEq, Eq, Structural)]
pub enum SpecializedMeshPipelineError {
    MissingVertexAttribute,
}

/// The common mesh-rendering base pipeline the custom one derives from.
pub struct Mesh2dPipeline {
    pub shader: u64,
}

/// What the base pipeline's descriptor looks like for a key and layout.
pub open spec fn base_descriptor_ok(
    base: Mesh2dPipeline,
    flags: u32,
    layout: MeshVertexBufferLayout,
    d: RenderPipelineDescriptor,
) -> bool {
    &&& d.key_flags == flags
    &&& d.vertex.shader == base.shader
    &&& d.vertex.shader_defs@.len() == 0
    &&& d.vertex.buffers@.len() == 1
    &&& d.vertex.buffers@[0].same_layout(layout.buffer)
    &&& d.fragment matches Some(f) && f.shader == base.shader
}

/// Copies a vertex buffer layout, shape for shape.
fn clone_vertex_buffer_layout(l: &VertexBufferLayout) -> (r: VertexBufferLayout)
    ensures
        r.same_layout(*l),
{
    let mut attributes: Vec<VertexAttribute> = Vec::new();
    let n: usize = l.attributes.len();
    let mut i: usize = 0;
    while i < n
        invariant
            n == l.attributes@.len(),
            i <= n,
            attributes@ == l.attributes@.take(i as int),
        decreases n - i,
    {
        attributes.push(l.attributes[i]);
        assert(attributes@ =~= l.attributes@.take(i + 1 as int));
        i = i + 1;
    }
    assert(l.attributes@.take(n as int) =~= l.attributes@);
    VertexBufferLayout { array_stride: l.array_stride, step_mode: l.step_mode, attributes }
}

impl Mesh2dPipeline {
    /// Builds the base descriptor for the flag word and mesh layout, or
    /// reports the layout unusable when the position attribute is missing.
    pub fn specialize(&self, flags: u32, layout: &MeshVertexBufferLayout) -> (r: Result<
        RenderPipelineDescriptor,
        SpecializedMeshPipelineError,
    >)
        ensures
            r is Ok <==> layout.has_position(),
            r matches Ok(d) ==> base_descriptor_ok(*self, flags, *layout, d),
            r matches Err(e) ==> e == SpecializedMeshPipelineError::MissingVertexAttribute,
    {
        let n: usize = layout.buffer.attributes.len();
        let mut i: usize = 0;
        let mut found = false;
        while i < n
            invariant
                n == layout.buffer.attributes@.len(),
                i <= n,
                found ==> layout.has_position(),
                !found ==> forall|j: int|
                    0 <= j < i ==> layout.buffer.attributes@[j].shader_location != 0,
            decreases n - i,
        {
            if layout.buffer.attributes[i].shader_location == 0 {
                found = true;
            }
            i = i + 1;
        }
        if !found {
            return Err(SpecializedMeshPipelineError::MissingVertexAttribute);
        }
        let mut buffers: Vec<VertexBufferLayout> = Vec::new();
        buffers.push(clone_vertex_buffer_layout(&layout.buffer));
        Ok(
            RenderPipelineDescriptor {
                vertex: VertexState { shader: self.shader, shader_defs: Vec::new(), buffers },
                fragment: Some(FragmentState { shader: self.shader }),
                key_flags: flags,
            },
        )
    }
}

/// The shader-defined flag that moves mesh bindings to bind-group slot one.
pub open spec fn mesh_bindgroup_def() -> Seq<char> {
    "MESH_BINDGROUP_1"@
}

/// The two per-instance attributes: a four-float word at shader location
/// three (position packed with scale) and one at location four (color), at
/// the record's byte offsets.
pub open spec fn instance_attributes() -> Seq<VertexAttribute> {
    seq![
        VertexAttribute { format: VertexFormat::Float32x4, offset: 0, shader_location: 3 },
        VertexAttribute { format: VertexFormat::Float32x4, offset: 16, shader_location: 4 },
    ]
}

/// The appended instance buffer layout: record stride, stepped per instance,
/// with exactly the two instance attributes.
pub open spec fn is_instance_layout(l: VertexBufferLayout) -> bool {
    &&& l.array_stride == RECORD_STRIDE
    &&& l.step_mode == VertexStepMode::Instance
    &&& l.attributes@ == instance_attributes()
}

/// The custom instancing pipeline: the custom shader module plus the base
/// pipeline it derives from.
pub struct CustomPipeline {
    pub shader: u64,
    pub mesh_pipeline: Mesh2dPipeline,
}

/// What a correctly specialized instancing descriptor looks like: the base
/// descriptor with both stages retargeted at the custom shader, the
/// bind-group flag injected, and the per-instance buffer appended.
pub open spec fn specialized_ok(
    custom: CustomPipeline,
    flags: u32,
    layout: MeshVertexBufferLayout,
    d: RenderPipelineDescriptor,
) -> bool {
    &&& d.key_flags == flags
    &&& d.vertex.shader == custom.shader
    &&& d.vertex.shader_defs@.len() == 1
    &&& d.vertex.shader_defs@[0]@ == mesh_bindgroup_def()
    &&& d.vertex.buffers@.len() == 2
    &&& d.vertex.buffers@[0].same_layout(layout.buffer)
    &&& is_instance_layout(d.vertex.buffers@[1])
    &&& d.fragment matches Some(f) && f.shader == custom.shader
}

impl CustomPipeline {
    /// Specializes the base descriptor for this key and layout and applies
    /// the two instancing augmentations.
    pub fn specialize(&self, flags: u32, layout: &MeshVertexBufferLayout) -> (r: Result<
        RenderPipelineDescriptor,
        SpecializedMeshPipelineError,
    >)
        ensures
            r is Ok <==> layout.has_position(),
            r matches Ok(d) ==> specialized_ok(*self, flags, *layout, d),
            r matches Err(e) ==> e == SpecializedMeshPipelineError::MissingVertexAttribute,
    {
        let mut descriptor = match self.mesh_pipeline.specialize(flags, layout) {
            Ok(d) => d,
            Err(e) => {
                return Err(e);
            },
        };
        descriptor.vertex.shader_defs.push(String::from_str("MESH_BINDGROUP_1"));
        descriptor.vertex.shader = self.shader;
        let mut instance_attrs: Vec<VertexAttribute> = Vec::new();
        instance_attrs.push(
            VertexAttribute { format: VertexFormat::Float32x4, offset: 0, shader_location: 3 },
        );
        instance_attrs.push(
            VertexAttribute {
                format: VertexFormat::Float32x4,
                offset: vertex_format_size(VertexFormat::Float32x4),
                shader_location: 4,
            },
        );
        descriptor.vertex.buffers.push(
            VertexBufferLayout {
                array_stride: RECORD_STRIDE as u64,
                step_mode: VertexStepMode::Instance,
                attributes: instance_attrs,
            },
        );
        descriptor.fragment = Some(FragmentState { shader: self.shader });
        assert(descriptor.vertex.buffers@[1].attributes@ =~= instance_attributes());
        Ok(descriptor)
    }
}

/// The pipeline specialization cache: one compiled pipeline per distinct
/// key, found again by the key's value. A pipeline's identity is its index.
pub struct SpecializedMeshPipelines {
    pub keys: Vec<PipelineKey>,
    pub pipelines: Vec<RenderPipelineDescriptor>,
}

impl SpecializedMeshPipelines {
    /// The cache's invariant: pipelines and keys pair up, no key twice, and
    /// every cached pipeline carries its key's flag word.
    pub open spec fn wf(self) -> bool {
        &&& self.pipelines@.len() == self.keys@.len()
        &&& forall|i: int, j: int|
            0 <= i < j < self.keys@.len() ==> self.keys@[i] != self.keys@[j]
        &&& forall|i: int|
            0 <= i < self.keys@.len() ==> (#[trigger] self.pipelines@[i]).key_flags
                == self.keys@[i].flags
    }

    /// A pipeline has been compiled for this key.
    pub open spec fn contains_key(self, key: PipelineKey) -> bool {
        exists|i: int| 0 <= i < self.keys@.len() && self.keys@[i] == key
    }

    /// An empty cache, as the render subsystem starts with.
    pub fn new() -> (r: SpecializedMeshPipelines)
        ensures
            r.wf(),
            r.keys@.len() == 0,
    {
        SpecializedMeshPipelines { keys: Vec::new(), pipelines: Vec::new() }
    }

    /// Hands out the pipeline for `key`, compiling it on the first miss and
    /// never again: a hit leaves the cache untouched and returns the index
    /// the key was first compiled at, so equal keys always share the
    /// identical pipeline. A specialization failure leaves the cache
    /// untouched and is reported for the caller to skip the host this frame.
    pub fn specialize(
        &mut self,
        custom: &CustomPipeline,
        key: PipelineKey,
        layout: &MeshVertexBufferLayout,
    ) -> (r: Result<usize, SpecializedMeshPipelineError>)
        requires
            old(self).wf(),
            key.layout_fingerprint == layout.fingerprint,
        ensures
            final(self).wf(),
            r is Ok <==> (old(self).contains_key(key) || layout.has_position()),
            r matches Ok(id) ==> {
                &&& id < final(self).keys@.len()
                &&& final(self).keys@[id as int] == key
                &&& final(self).contains_key(key)
            },
            old(self).contains_key(key) ==> *final(self) == *old(self) && (r matches Ok(id)
                && old(self).keys@[id as int] == key),
            !old(self).contains_key(key) && layout.has_position() ==> {
                &&& final(self).keys@ == old(self).keys@.push(key)
                &&& (r matches Ok(id) && id == old(self).keys@.len() && specialized_ok(
                    *custom,
                    key.flags,
                    *layout,
                    final(self).pipelines@[id as int],
                ))
            },
            !old(self).contains_key(key) && !layout.has_position() ==> *final(self) == *old(self)
                && (r matches Err(e) && e
                == SpecializedMeshPipelineError::MissingVertexAttribute),
            forall|j: int|
                0 <= j < old(self).keys@.len() ==> final(self).keys@[j] == old(self).keys@[j]
                    && final(self).pipelines@[j] == old(self).pipelines@[j],
    {
        let n: usize = self.keys.len();
        let mut i: usize = 0;
        while i < n
            invariant
                *self == *old(self),
                old(self).wf(),
                n == self.keys@.len(),
                i <= n,
                forall|j: int| 0 <= j < i ==> self.keys@[j] != key,
            decreases n - i,
        {
            if self.keys[i].flags == key.flags && self.keys[i].layout_fingerprint
                == key.layout_fingerprint {
                assert(self.keys@[i as int] == key);
                return Ok(i);
            }
            i = i + 1;
        }
        assert(!self.contains_key(key));
        let descriptor = match custom.specialize(key.flags, layout) {
            Ok(d) => d,
            Err(e) => {
                return Err(e);
            },
        };
        let id: usize = self.keys.len();
        self.keys.push(key);
        self.pipelines.push(descriptor);
        assert(self.keys@[id as int] == key);
        assert forall|p: int, q: int| 0 <= p < q < self.keys@.len() implies self.keys@[p]
            != self.keys@[q] by {
            if q < id {
                assert(old(self).keys@[p] != old(self).keys@[q]);
            }
        }
        Ok(id)
    }
}

/// At most one compiled pipeline per distinct key: in a well-formed cache,
/// two positions holding the same key are the same position, so a key names
/// exactly one pipeline identity.
pub proof fn lemma_at_most_one_pipeline_per_key(
    cache: SpecializedMeshPipelines,
    i: int,
    j: int,
)
    requires
        cache.wf(),
        0 <= i < cache.keys@.len(),
        0 <= j < cache.keys@.len(),
        cache.keys@[i] == cache.keys@[j],
    ensures
        i == j,
{
}

} // verus!
