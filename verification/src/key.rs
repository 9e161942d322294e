//! The pipeline specialization key: a bitset identifying which pipeline
//! variant a (view, mesh) pair needs.
//!
//! The flag word combines the view's multisample count and high-dynamic-range
//! flag with the mesh's primitive topology; the mesh's vertex-layout
//! fingerprint rides beside it. Two hosts or views that produce the same key
//! must receive the identical cached pipeline, so the encoding is proved
//! lossless: every component can be read back from the flag word.
use vstd::prelude::*;

verus! {

/// How the mesh's vertices are assembled into primitives.
#[derive(Clone, Copy, Debug, PartialEq, Eq, Structural)]
pub enum PrimitiveTopology {
    PointList,
    LineList,
    LineStrip,
    TriangleList,
    TriangleStrip,
}

/// Bit positions inside the flag word: multisample count in the low four
/// bits, the high-dynamic-range flag at bit four, the topology code shifted
/// past both.
pub const HDR_FLAG_BITS: u32 = 16;

/// Shift that places the topology code above the view bits.
pub const TOPOLOGY_SHIFT: u32 = 32;

/// The multisample counts a view can ask for.
pub open spec fn valid_msaa_samples(samples: u32) -> bool {
    samples == 1 || samples == 2 || samples == 4 || samples == 8
}

/// The numeric code of a topology, for the flag word.
pub open spec fn topology_code(t: PrimitiveTopology) -> u32 {
    match t {
        PrimitiveTopology::PointList => 0,
        PrimitiveTopology::LineList => 1,
        PrimitiveTopology::LineStrip => 2,
        PrimitiveTopology::TriangleList => 3,
        PrimitiveTopology::TriangleStrip => 4,
    }
}

/// Flag bits contributed by the view's multisample count.
pub fn from_msaa_samples(samples: u32) -> (bits: u32)
    requires
        valid_msaa_samples(samples),
    ensures
        bits == samples,
{
    samples
}

/// Flag bits contributed by the view's high-dynamic-range flag.
pub fn from_hdr(hdr: bool) -> (bits: u32)
    ensures
        bits == (if hdr {
            HDR_FLAG_BITS
        } else {
            0u32
        }),
{
    if hdr {
        HDR_FLAG_BITS
    } else {
        0
    }
}

/// Flag bits contributed by the mesh's primitive topology.
pub fn from_primitive_topology(t: PrimitiveTopology) -> (bits: u32)
    ensures
        bits == (topology_code(t) * TOPOLOGY_SHIFT) as u32,
{
    match t {
        PrimitiveTopology::PointList => 0,
        PrimitiveTopology::LineList => 32,
        PrimitiveTopology::LineStrip => 64,
        PrimitiveTopology::TriangleList => 96,
        PrimitiveTopology::TriangleStrip => 128,
    }
}

/// The combined flag word of a view's bits and a topology's bits.
pub open spec fn key_flags(samples: u32, hdr: bool, t: PrimitiveTopology) -> u32 {
    (samples | (if hdr {
        HDR_FLAG_BITS
    } else {
        0u32
    })) | ((topology_code(t) * TOPOLOGY_SHIFT) as u32)
}

/// The multisample count read back from a flag word.
pub open spec fn samples_of_flags(flags: u32) -> u32 {
    flags & 0xF
}

/// The high-dynamic-range flag read back from a flag word.
pub open spec fn hdr_of_flags(flags: u32) -> bool {
    flags & HDR_FLAG_BITS == HDR_FLAG_BITS
}

/// The topology code read back from a flag word.
pub open spec fn topology_code_of_flags(flags: u32) -> u32 {
    flags >> 5
}

/// The flag word loses nothing: multisample count, high-dynamic-range flag
/// and topology code are all recovered from it, so distinct view or mesh
/// flags can never collide into one key.
pub proof fn lemma_key_flags_lossless(samples: u32, hdr: bool, t: PrimitiveTopology)
    requires
        valid_msaa_samples(samples),
    ensures
        samples_of_flags(key_flags(samples, hdr, t)) == samples,
        hdr_of_flags(key_flags(samples, hdr, t)) == hdr,
        topology_code_of_flags(key_flags(samples, hdr, t)) == topology_code(t),
{
    let hb: u32 = if hdr {
        HDR_FLAG_BITS
    } else {
        0u32
    };
    let c = topology_code(t);
    assert((samples == 1 || samples == 2 || samples == 4 || samples == 8) && (hb == 0 || hb == 16)
        && c <= 4 ==> ((samples | hb) | ((c * 32) as u32)) & 0xF == samples && ((((samples | hb) | ((c * 32) as u32))
        & 16) == 16) == (hb == 16) && ((samples | hb) | ((c * 32) as u32)) >> 5 == c) by (bit_vector);
}

/// The specialization key: the flag word plus the fingerprint of the mesh's
/// vertex buffer layout. Keys compare as values; equal keys name one
/// pipeline variant.
#[derive(Clone, Copy, Debug, PartialEq, Eq, Structural)]
pub struct PipelineKey {
    pub flags: u32,
    pub layout_fingerprint: u64,
}

} // verus!
