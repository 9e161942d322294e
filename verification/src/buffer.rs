//! The GPU buffer preparer: packing aggregated records into the exact bytes
//! the vertex stage reads, and placing them in a fresh per-frame buffer.
//!
//! Packing is tight: records follow each other at the fixed 32-byte stride,
//! each a little-endian image of its eight words, nothing between them. The
//! device here is a model of the GPU's transient buffer pool — enough to
//! state that what is uploaded is byte-identical to what is read back; the
//! real allocation call is made by the render backend at the crate's edge.
use vstd::prelude::*;

use crate::extract::InstanceMaterialData;
use crate::record::lemma_u32_le_round_trip;
use crate::record::push_u32_le;
use crate::record::read_u32_le;
use crate::record::u32_from_le_bytes;
use crate::record::u32_le_bytes;
use crate::record::ColorWords;
use crate::record::InstanceRecord;
use crate::record::Vec3Words;
use crate::record::RECORD_STRIDE;

verus! {

/// Buffer usage bit for per-vertex-stage reads.
pub const BUFFER_USAGE_VERTEX: u32 = 32;

/// Buffer usage bit for copy-destination uploads.
pub const BUFFER_USAGE_COPY_DST: u32 = 8;

/// The packed bytes of a record sequence: each record's bytes in order.
pub open spec fn records_bytes(records: Seq<InstanceRecord>) -> Seq<u8>
    decreases records.len(),
{
    if records.len() == 0 {
        Seq::empty()
    } else {
        records_bytes(records.drop_last()) + records.last().bytes()
    }
}

/// The packed image of `n` records is exactly `n` strides long.
pub proof fn lemma_records_bytes_len(records: Seq<InstanceRecord>)
    ensures
        records_bytes(records).len() == RECORD_STRIDE * records.len(),
    decreases records.len(),
{
    if records.len() > 0 {
        lemma_records_bytes_len(records.drop_last());
    }
}

/// Appends one record's 32 packed bytes to `out`.
pub fn write_record_bytes(out: &mut Vec<u8>, record: &InstanceRecord)
    ensures
        final(out)@ == old(out)@ + record.bytes(),
{
    push_u32_le(out, record.position.x);
    push_u32_le(out, record.position.y);
    push_u32_le(out, record.position.z);
    push_u32_le(out, record.scale);
    push_u32_le(out, record.color.r);
    push_u32_le(out, record.color.g);
    push_u32_le(out, record.color.b);
    push_u32_le(out, record.color.a);
    assert(out@ =~= old(out)@ + record.bytes());
}

/// Packs a record buffer tightly, in order, at the fixed stride.
pub fn pack_records(records: &Vec<InstanceRecord>) -> (r: Vec<u8>)
    ensures
        r@ == records_bytes(records@),
        r@.len() == RECORD_STRIDE * records@.len(),
{
    let n: usize = records.len();
    let mut out: Vec<u8> = Vec::new();
    let mut i: usize = 0;
    while i < n
        invariant
            n == records@.len(),
            i <= n,
            out@ == records_bytes(records@.take(i as int)),
        decreases n - i,
    {
        write_record_bytes(&mut out, &records[i]);
        proof {
            let taken = records@.take(i + 1 as int);
            assert(taken.drop_last() =~= records@.take(i as int));
            assert(taken.last() == records@[i as int]);
        }
        i = i + 1;
    }
    assert(records@.take(n as int) =~= records@);
    proof {
        lemma_records_bytes_len(records@);
    }
    out
}

/// Reads the record whose packed image starts at byte offset `at`.
pub fn read_record(bytes: &Vec<u8>, at: usize) -> (r: InstanceRecord)
    requires
        at + RECORD_STRIDE <= bytes@.len(),
    ensures
        r.bytes() == bytes@.subrange(at as int, at + RECORD_STRIDE),
{
    let _n: usize = bytes.len();
    let r = InstanceRecord {
        position: Vec3Words {
            x: read_u32_le(bytes, at),
            y: read_u32_le(bytes, at + 4),
            z: read_u32_le(bytes, at + 8),
        },
        scale: read_u32_le(bytes, at + 12),
        color: ColorWords {
            r: read_u32_le(bytes, at + 16),
            g: read_u32_le(bytes, at + 20),
            b: read_u32_le(bytes, at + 24),
            a: read_u32_le(bytes, at + 28),
        },
    };
    proof {
        lemma_read_record_exact(r, bytes@, at as int);
    }
    r
}

/// A word whose four little-endian bytes stand at `j..j + 4` of `bytes` is
/// the word those bytes decode to.
proof fn lemma_word_bytes_at(w: u32, bytes: Seq<u8>, j: int)
    requires
        0 <= j,
        j + 4 <= bytes.len(),
        w == u32_from_le_bytes(bytes[j], bytes[j + 1], bytes[j + 2], bytes[j + 3]),
    ensures
        u32_le_bytes(w) =~= bytes.subrange(j, j + 4),
{
    lemma_u32_le_round_trip(w);
    let b0 = bytes[j];
    let b1 = bytes[j + 1];
    let b2 = bytes[j + 2];
    let b3 = bytes[j + 3];
    assert(u32_le_bytes(u32_from_le_bytes(b0, b1, b2, b3)) =~= seq![b0, b1, b2, b3]) by {
        lemma_le_bytes_of_from_le(b0, b1, b2, b3);
    }
}

/// Encoding the word read from four bytes gives those bytes back.
proof fn lemma_le_bytes_of_from_le(b0: u8, b1: u8, b2: u8, b3: u8)
    ensures
        u32_le_bytes(u32_from_le_bytes(b0, b1, b2, b3)) =~= seq![b0, b1, b2, b3],
{
    assert(u32_from_le_bytes(b0, b1, b2, b3) % 256 == b0 && (u32_from_le_bytes(b0, b1, b2, b3)
        / 256) % 256 == b1 && (u32_from_le_bytes(b0, b1, b2, b3) / 65536) % 256 == b2 && (
    u32_from_le_bytes(b0, b1, b2, b3) / 16777216) % 256 == b3) by (bit_vector);
}

/// A record whose words were each decoded from its slot of `bytes` has the
/// whole subrange as its packed image.
#[verifier::rlimit(100)]
#[verifier::spinoff_prover]
proof fn lemma_read_record_exact(r: InstanceRecord, bytes: Seq<u8>, at: int)
    requires
        0 <= at,
        at + RECORD_STRIDE <= bytes.len(),
        r.position.x == u32_from_le_bytes(bytes[at], bytes[at + 1], bytes[at + 2], bytes[at + 3]),
        r.position.y == u32_from_le_bytes(
            bytes[at + 4],
            bytes[at + 5],
            bytes[at + 6],
            bytes[at + 7],
        ),
        r.position.z == u32_from_le_bytes(
            bytes[at + 8],
            bytes[at + 9],
            bytes[at + 10],
            bytes[at + 11],
        ),
        r.scale == u32_from_le_bytes(
            bytes[at + 12],
            bytes[at + 13],
            bytes[at + 14],
            bytes[at + 15],
        ),
        r.color.r == u32_from_le_bytes(
            bytes[at + 16],
            bytes[at + 17],
            bytes[at + 18],
            bytes[at + 19],
        ),
        r.color.g == u32_from_le_bytes(
            bytes[at + 20],
            bytes[at + 21],
            bytes[at + 22],
            bytes[at + 23],
        ),
        r.color.b == u32_from_le_bytes(
            bytes[at + 24],
            bytes[at + 25],
            bytes[at + 26],
            bytes[at + 27],
        ),
        r.color.a == u32_from_le_bytes(
            bytes[at + 28],
            bytes[at + 29],
            bytes[at + 30],
            bytes[at + 31],
        ),
    ensures
        r.bytes() == bytes.subrange(at, at + RECORD_STRIDE),
{
    lemma_word_bytes_at(r.position.x, bytes, at);
    lemma_word_bytes_at(r.position.y, bytes, at + 4);
    lemma_word_bytes_at(r.position.z, bytes, at + 8);
    lemma_word_bytes_at(r.scale, bytes, at + 12);
    lemma_word_bytes_at(r.color.r, bytes, at + 16);
    lemma_word_bytes_at(r.color.g, bytes, at + 20);
    lemma_word_bytes_at(r.color.b, bytes, at + 24);
    lemma_word_bytes_at(r.color.a, bytes, at + 28);
    assert(r.bytes() =~= bytes.subrange(at, at + RECORD_STRIDE));
}

/// Two records with the same packed image are the same record: the layout
/// loses nothing.
pub proof fn lemma_record_bytes_injective(r1: InstanceRecord, r2: InstanceRecord)
    requires
        r1.bytes() == r2.bytes(),
    ensures
        r1 == r2,
{
    lemma_words_from_bytes(r1);
    lemma_words_from_bytes(r2);
}

/// Each word of a record is what its slot of the packed image decodes to.
proof fn lemma_words_from_bytes(r: InstanceRecord)
    ensures
        r.position.x == u32_from_le_bytes(r.bytes()[0], r.bytes()[1], r.bytes()[2], r.bytes()[3]),
        r.position.y == u32_from_le_bytes(r.bytes()[4], r.bytes()[5], r.bytes()[6], r.bytes()[7]),
        r.position.z == u32_from_le_bytes(
            r.bytes()[8],
            r.bytes()[9],
            r.bytes()[10],
            r.bytes()[11],
        ),
        r.scale == u32_from_le_bytes(r.bytes()[12], r.bytes()[13], r.bytes()[14], r.bytes()[15]),
        r.color.r == u32_from_le_bytes(r.bytes()[16], r.bytes()[17], r.bytes()[18], r.bytes()[19]),
        r.color.g == u32_from_le_bytes(r.bytes()[20], r.bytes()[21], r.bytes()[22], r.bytes()[23]),
        r.color.b == u32_from_le_bytes(r.bytes()[24], r.bytes()[25], r.bytes()[26], r.bytes()[27]),
        r.color.a == u32_from_le_bytes(r.bytes()[28], r.bytes()[29], r.bytes()[30], r.bytes()[31]),
{
    let bx = u32_le_bytes(r.position.x);
    let by = u32_le_bytes(r.position.y);
    let bz = u32_le_bytes(r.position.z);
    let bs = u32_le_bytes(r.scale);
    let cr = u32_le_bytes(r.color.r);
    let cg = u32_le_bytes(r.color.g);
    let cb = u32_le_bytes(r.color.b);
    let ca = u32_le_bytes(r.color.a);
    assert(r.bytes() == bx + by + bz + bs + cr + cg + cb + ca);
    assert(r.bytes()[0] == bx[0] && r.bytes()[1] == bx[1] && r.bytes()[2] == bx[2] && r.bytes()[3]
        == bx[3]);
    assert(r.bytes()[4] == by[0] && r.bytes()[5] == by[1] && r.bytes()[6] == by[2] && r.bytes()[7]
        == by[3]);
    assert(r.bytes()[8] == bz[0] && r.bytes()[9] == bz[1] && r.bytes()[10] == bz[2]
        && r.bytes()[11] == bz[3]);
    assert(r.bytes()[12] == bs[0] && r.bytes()[13] == bs[1] && r.bytes()[14] == bs[2]
        && r.bytes()[15] == bs[3]);
    assert(r.bytes()[16] == cr[0] && r.bytes()[17] == cr[1] && r.bytes()[18] == cr[2]
        && r.bytes()[19] == cr[3]);
    assert(r.bytes()[20] == cg[0] && r.bytes()[21] == cg[1] && r.bytes()[22] == cg[2]
        && r.bytes()[23] == cg[3]);
    assert(r.bytes()[24] == cb[0] && r.bytes()[25] == cb[1] && r.bytes()[26] == cb[2]
        && r.bytes()[27] == cb[3]);
    assert(r.bytes()[28] == ca[0] && r.bytes()[29] == ca[1] && r.bytes()[30] == ca[2]
        && r.bytes()[31] == ca[3]);
    lemma_u32_le_round_trip(r.position.x);
    lemma_u32_le_round_trip(r.position.y);
    lemma_u32_le_round_trip(r.position.z);
    lemma_u32_le_round_trip(r.scale);
    lemma_u32_le_round_trip(r.color.r);
    lemma_u32_le_round_trip(r.color.g);
    lemma_u32_le_round_trip(r.color.b);
    lemma_u32_le_round_trip(r.color.a);
}

/// Round trip: the packed image determines the records. Reading a buffer
/// back yields exactly the record sequence that was written.
#[verifier::rlimit(100)]
#[verifier::spinoff_prover]
pub proof fn lemma_records_bytes_injective(rs1: Seq<InstanceRecord>, rs2: Seq<InstanceRecord>)
    requires
        rs1.len() == rs2.len(),
        records_bytes(rs1) == records_bytes(rs2),
    ensures
        rs1 == rs2,
    decreases rs1.len(),
{
    if rs1.len() > 0 {
        lemma_records_bytes_split(rs1, rs2);
        lemma_record_bytes_injective(rs1.last(), rs2.last());
        lemma_records_bytes_injective(rs1.drop_last(), rs2.drop_last());
        lemma_parts_to_whole(rs1, rs2);
    } else {
        assert(rs1 =~= rs2);
    }
}

/// Sequences of equal length with equal last elements and equal fronts are
/// equal.
proof fn lemma_parts_to_whole(rs1: Seq<InstanceRecord>, rs2: Seq<InstanceRecord>)
    requires
        rs1.len() == rs2.len(),
        rs1.len() > 0,
        rs1.last() == rs2.last(),
        rs1.drop_last() == rs2.drop_last(),
    ensures
        rs1 == rs2,
{
    assert forall|i: int| 0 <= i < rs1.len() implies rs1[i] == rs2[i] by {
        if i < rs1.len() - 1 {
            assert(rs1.drop_last()[i] == rs1[i]);
            assert(rs2.drop_last()[i] == rs2[i]);
            assert(rs1.drop_last()[i] == rs2.drop_last()[i]);
        } else {
            assert(rs1[i] == rs1.last() && rs2[i] == rs2.last());
        }
    }
    assert(rs1 =~= rs2);
}

/// Equal packed images of equally many records split into an equal last
/// record image and an equal image of the rest.
proof fn lemma_records_bytes_split(rs1: Seq<InstanceRecord>, rs2: Seq<InstanceRecord>)
    requires
        rs1.len() == rs2.len(),
        rs1.len() > 0,
        records_bytes(rs1) == records_bytes(rs2),
    ensures
        rs1.last().bytes() == rs2.last().bytes(),
        records_bytes(rs1.drop_last()) == records_bytes(rs2.drop_last()),
{
    lemma_records_bytes_len(rs1.drop_last());
    lemma_records_bytes_len(rs2.drop_last());
    assert(records_bytes(rs1) == records_bytes(rs1.drop_last()) + rs1.last().bytes());
    assert(records_bytes(rs2) == records_bytes(rs2.drop_last()) + rs2.last().bytes());
    lemma_concat_parts_equal(
        records_bytes(rs1.drop_last()),
        rs1.last().bytes(),
        records_bytes(rs2.drop_last()),
        rs2.last().bytes(),
    );
}

/// Two equal concatenations with equally long left parts have equal parts.
proof fn lemma_concat_parts_equal(a1: Seq<u8>, b1: Seq<u8>, a2: Seq<u8>, b2: Seq<u8>)
    requires
        a1.len() == a2.len(),
        a1 + b1 == a2 + b2,
    ensures
        a1 == a2,
        b1 == b2,
{
    assert((a1 + b1).len() == a1.len() + b1.len());
    assert((a2 + b2).len() == a2.len() + b2.len());
    assert(b1.len() == b2.len());
    assert(a1 =~= a2) by {
        assert(forall|i: int|
            0 <= i < a1.len() ==> a1[i] == (a1 + b1)[i] && a2[i] == (a2 + b2)[i]);
    }
    assert(b1 =~= b2) by {
        assert(forall|i: int|
            0 <= i < b1.len() ==> b1[i] == (a1 + b1)[a1.len() + i] && b2[i] == (a2 + b2)[a2.len()
                + i]);
    }
}

/// One record's packed image is one stride long.
pub proof fn lemma_record_bytes_len(r: InstanceRecord)
    ensures
        r.bytes().len() == RECORD_STRIDE,
{
}

/// One allocated transient buffer: its uploaded bytes and its usage tags.
pub struct GpuBuffer {
    pub contents: Vec<u8>,
    pub usage: u32,
}

/// A model of the GPU device's transient buffer pool: buffers are allocated
/// in order and keyed by their allocation index. The backend's real
/// allocation call is made at the crate's edge; this model is what the
/// contracts of buffer preparation and read-back speak of.
pub struct RenderDevice {
    pub buffers: Vec<GpuBuffer>,
}

impl RenderDevice {
    /// A device with no buffers allocated yet.
    pub fn new() -> (r: RenderDevice)
        ensures
            r.buffers@.len() == 0,
    {
        RenderDevice { buffers: Vec::new() }
    }

    /// The bytes a buffer was created with.
    pub open spec fn contents_of(self, id: int) -> Seq<u8> {
        self.buffers@[id].contents@
    }

    /// The usage tags a buffer was created with.
    pub open spec fn usage_of(self, id: int) -> u32 {
        self.buffers@[id].usage
    }

    /// Allocates a fresh buffer initialized with exactly `contents`.
    pub fn create_buffer_with_data(&mut self, contents: Vec<u8>, usage: u32) -> (id: u64)
        ensures
            id == old(self).buffers@.len(),
            final(self).buffers@.len() == old(self).buffers@.len() + 1,
            final(self).contents_of(id as int) == contents@,
            final(self).usage_of(id as int) == usage,
            forall|j: int|
                0 <= j < old(self).buffers@.len() ==> final(self).contents_of(j) == old(
                    self,
                ).contents_of(j) && final(self).usage_of(j) == old(self).usage_of(j),
    {
        let id: u64 = self.buffers.len() as u64;
        self.buffers.push(GpuBuffer { contents, usage });
        id
    }

    /// Reports the usage tags a buffer was allocated with.
    pub fn buffer_usage(&self, id: u64) -> (r: u32)
        requires
            id < self.buffers@.len(),
        ensures
            r == self.usage_of(id as int),
    {
        let _n: usize = self.buffers.len();
        let idx: usize = id as usize;
        self.buffers[idx].usage
    }

    /// Reads an allocated buffer's bytes back.
    pub fn read_buffer(&self, id: u64) -> (r: &Vec<u8>)
        requires
            id < self.buffers@.len(),
        ensures
            r@ == self.contents_of(id as int),
    {
        let _n: usize = self.buffers.len();
        let idx: usize = id as usize;
        &self.buffers[idx].contents
    }
}

/// The per-host render component naming the uploaded instance buffer and how
/// many records it holds; rebuilt every frame, never carried over.
pub struct InstanceBuffer {
    pub buffer: u64,
    pub length: usize,
}

/// Uploads each host's aggregated records into a fresh GPU-visible buffer:
/// the exact packed bytes, tagged for vertex reads and copy-destination
/// writes. Replaces, never updates, any earlier frame's buffer.
pub fn prepare_instance_buffers(
    query: &Vec<(u64, InstanceMaterialData)>,
    device: &mut RenderDevice,
) -> (r: Vec<(u64, InstanceBuffer)>)
    ensures
        r@.len() == query@.len(),
        final(device).buffers@.len() == old(device).buffers@.len() + query@.len(),
        forall|i: int|
            0 <= i < query@.len() ==> {
                &&& r@[i].0 == query@[i].0
                &&& r@[i].1.length == query@[i].1@.len()
                &&& r@[i].1.buffer == old(device).buffers@.len() + i
                &&& final(device).contents_of(r@[i].1.buffer as int) == records_bytes(
                    query@[i].1@,
                )
                &&& final(device).usage_of(r@[i].1.buffer as int) == (BUFFER_USAGE_VERTEX
                    | BUFFER_USAGE_COPY_DST)
            },
        forall|j: int|
            0 <= j < old(device).buffers@.len() ==> final(device).contents_of(j) == old(
                device,
            ).contents_of(j) && final(device).usage_of(j) == old(device).usage_of(j),
{
    let n: usize = query.len();
    let mut out: Vec<(u64, InstanceBuffer)> = Vec::new();
    let mut i: usize = 0;
    while i < n
        invariant
            n == query@.len(),
            i <= n,
            out@.len() == i,
            device.buffers@.len() == old(device).buffers@.len() + i,
            forall|k: int|
                0 <= k < i ==> {
                    &&& out@[k].0 == query@[k].0
                    &&& out@[k].1.length == query@[k].1@.len()
                    &&& out@[k].1.buffer == old(device).buffers@.len() + k
                    &&& device.contents_of(out@[k].1.buffer as int) == records_bytes(query@[k].1@)
                    &&& device.usage_of(out@[k].1.buffer as int) == (BUFFER_USAGE_VERTEX
                        | BUFFER_USAGE_COPY_DST)
                },
            forall|j: int|
                0 <= j < old(device).buffers@.len() ==> device.contents_of(j) == old(
                    device,
                ).contents_of(j) && device.usage_of(j) == old(device).usage_of(j),
        decreases n - i,
    {
        let entity: u64 = query[i].0;
        let contents = pack_records(&query[i].1.0);
        let length: usize = query[i].1.0.len();
        let id = device.create_buffer_with_data(
            contents,
            BUFFER_USAGE_VERTEX | BUFFER_USAGE_COPY_DST,
        );
        out.push((entity, InstanceBuffer { buffer: id, length }));
        i = i + 1;
    }
    out
}

/// Reads a whole packed buffer back into the records it was written from.
#[verifier::rlimit(100)]
#[verifier::spinoff_prover]
pub fn read_back_records(bytes: &Vec<u8>, count: usize) -> (r: Vec<InstanceRecord>)
    requires
        bytes@.len() == RECORD_STRIDE * count,
    ensures
        r@.len() == count,
        records_bytes(r@) == bytes@,
{
    let nb: usize = bytes.len();
    let mut out: Vec<InstanceRecord> = Vec::new();
    let mut i: usize = 0;
    while i < count
        invariant
            bytes@.len() == RECORD_STRIDE * count,
            bytes@.len() == nb,
            i <= count,
            out@.len() == i,
            records_bytes(out@) == bytes@.subrange(0, RECORD_STRIDE * i),
        decreases count - i,
    {
        assert(RECORD_STRIDE * i + RECORD_STRIDE <= RECORD_STRIDE * count);
        let at: usize = RECORD_STRIDE * i;
        let rec = read_record(bytes, at);
        let ghost prev = out@;
        out.push(rec);
        proof {
            assert(out@.drop_last() =~= prev);
            assert(records_bytes(out@) == records_bytes(prev) + rec.bytes());
            let upto = RECORD_STRIDE * (i + 1 as int);
            assert(bytes@.subrange(0, upto) =~= bytes@.subrange(0, RECORD_STRIDE * i as int)
                + bytes@.subrange(RECORD_STRIDE * i as int, upto));
        }
        i = i + 1;
    }
    assert(bytes@.subrange(0, RECORD_STRIDE * count as int) =~= bytes@);
    out
}

} // verus!
