//! The per-instance attribute record and its fixed byte layout.
//!
//! `InstanceRecord` is the value the vertex stage consumes once per drawn
//! copy: a position (3 components), a uniform scale (1 component) and a
//! color (4 components). Each component is a 32-bit word holding the IEEE-754
//! bit pattern of the corresponding shader float; the core only moves these
//! words, never computes on them. The packed layout is 8 words of 4 bytes,
//! little-endian, in field order and with no padding: a fixed 32-byte stride
//! that is the binary contract with the vertex shader.
use vstd::prelude::*;

verus! {

/// Three attribute components (a translation), as 32-bit words.
#[derive(Clone, Copy, Debug, PartialEq, Eq, Structural)]
pub struct Vec3Words {
    pub x: u32,
    pub y: u32,
    pub z: u32,
}

/// Four color components (red, green, blue, alpha), as 32-bit words.
#[derive(Clone, Copy, Debug, PartialEq, Eq, Structural)]
pub struct ColorWords {
    pub r: u32,
    pub g: u32,
    pub b: u32,
    pub a: u32,
}

/// One per-copy attribute record, in the exact field order the shader reads:
/// position, scale, color.
#[derive(Clone, Copy, Debug, PartialEq, Eq, Structural)]
pub struct InstanceRecord {
    pub position: Vec3Words,
    pub scale: u32,
    pub color: ColorWords,
}

/// Bytes one record occupies in the packed instance buffer.
pub const RECORD_STRIDE: usize = 32;

impl InstanceRecord {
    /// The record's 8 words in layout order: position.xyz, scale, color.rgba.
    pub open spec fn words(self) -> Seq<u32> {
        seq![
            self.position.x,
            self.position.y,
            self.position.z,
            self.scale,
            self.color.r,
            self.color.g,
            self.color.b,
            self.color.a,
        ]
    }

    /// The record's packed bytes: each word little-endian, words in order.
    pub open spec fn bytes(self) -> Seq<u8> {
        u32_le_bytes(self.position.x) + u32_le_bytes(self.position.y)
            + u32_le_bytes(self.position.z) + u32_le_bytes(self.scale)
            + u32_le_bytes(self.color.r) + u32_le_bytes(self.color.g)
            + u32_le_bytes(self.color.b) + u32_le_bytes(self.color.a)
    }
}

/// The four little-endian bytes of a 32-bit word.
pub open spec fn u32_le_bytes(w: u32) -> Seq<u8> {
    seq![
        (w % 256) as u8,
        ((w / 256) % 256) as u8,
        ((w / 65536) % 256) as u8,
        ((w / 16777216) % 256) as u8,
    ]
}

/// The 32-bit word read back from four little-endian bytes.
pub open spec fn u32_from_le_bytes(b0: u8, b1: u8, b2: u8, b3: u8) -> u32 {
    (b0 + b1 * 256 + b2 * 65536 + b3 * 16777216) as u32
}

/// Reading the four little-endian bytes of a word gives the word back.
pub proof fn lemma_u32_le_round_trip(w: u32)
    ensures
        u32_from_le_bytes(
            u32_le_bytes(w)[0],
            u32_le_bytes(w)[1],
            u32_le_bytes(w)[2],
            u32_le_bytes(w)[3],
        ) == w,
{
    assert(w % 256 + ((w / 256) % 256) * 256 + ((w / 65536) % 256) * 65536 + ((w / 16777216)
        % 256) * 16777216 == w) by (bit_vector);
}

/// Appends the four little-endian bytes of `w` to `out`.
pub fn push_u32_le(out: &mut Vec<u8>, w: u32)
    ensures
        final(out)@ == old(out)@ + u32_le_bytes(w),
{
    out.push((w % 256) as u8);
    out.push(((w / 256) % 256) as u8);
    out.push(((w / 65536) % 256) as u8);
    out.push(((w / 16777216) % 256) as u8);
    assert(out@ =~= old(out)@ + u32_le_bytes(w));
}

/// Reads the little-endian word at byte offset `i` of `bytes`.
pub fn read_u32_le(bytes: &Vec<u8>, i: usize) -> (w: u32)
    requires
        i + 4 <= bytes@.len(),
    ensures
        w == u32_from_le_bytes(bytes@[i as int], bytes@[i + 1], bytes@[i + 2], bytes@[i + 3]),
{
    let _n: usize = bytes.len();
    let b0 = bytes[i];
    let b1 = bytes[i + 1];
    let b2 = bytes[i + 2];
    let b3 = bytes[i + 3];
    b0 as u32 + b1 as u32 * 256 + b2 as u32 * 65536 + b3 as u32 * 16777216
}

} // verus!
