//! Packed per-instance attribute records and their byte-level codec.
//!
//! Each instance of the shared mesh carries a position, a uniform scale and
//! an rgba color. The GPU consumes these as a tightly packed array of
//! 32-byte records, little-endian, with no inter-record padding:
//! bytes `[0,12)` position, `[12,16)` scale, `[16,32)` color. The shader
//! reads the same bytes back as two 4-component attributes, so encoding a
//! record and decoding it again must be the identity, bit for bit.

use vstd::prelude::*;

verus! {

/// Number of bytes one packed record occupies in the instance buffer.
pub const RECORD_BYTES: usize = 32;

/// One per-instance attribute record. Every field holds the 32-bit pattern
/// of the shader-side value; the renderer never computes with the numbers,
/// it only moves them into the packed vertex-attribute layout, so the bit
/// pattern is the right level of description.
#[derive(Clone, Copy, PartialEq, Eq, Structural, Debug)]
pub struct InstanceRecord {
    /// Bit pattern of the x coordinate of the instance position.
    pub pos_x: u32,
    /// Bit pattern of the y coordinate of the instance position.
    pub pos_y: u32,
    /// Bit pattern of the z coordinate of the instance position.
    pub pos_z: u32,
    /// Bit pattern of the uniform scale, packed as the fourth component of
    /// the first shader attribute.
    pub scale: u32,
    /// Bit pattern of the red color channel.
    pub color_r: u32,
    /// Bit pattern of the green color channel.
    pub color_g: u32,
    /// Bit pattern of the blue color channel.
    pub color_b: u32,
    /// Bit pattern of the alpha color channel.
    pub color_a: u32,
}

/// An ordered sequence of records owned by one render-side entity;
/// insertion order is the GPU index order within the group.
pub type InstanceGroup = Vec<InstanceRecord>;

/// The four little-endian bytes of one 32-bit word.
pub open spec fn spec_le4(w: u32) -> Seq<u8> {
    seq![
        (w & 0xff) as u8,
        ((w >> 8) & 0xff) as u8,
        ((w >> 16) & 0xff) as u8,
        ((w >> 24) & 0xff) as u8,
    ]
}

/// The 32-bit word read little-endian from four bytes.
pub open spec fn spec_word(b0: u8, b1: u8, b2: u8, b3: u8) -> u32 {
    ((b0 as u32) | ((b1 as u32) << 8) | ((b2 as u32) << 16) | ((b3 as u32) << 24)) as u32
}

/// The word starting at byte offset `off` of `b`, read little-endian.
pub open spec fn spec_word_at(b: Seq<u8>, off: int) -> u32 {
    spec_word(b[off], b[off + 1], b[off + 2], b[off + 3])
}

/// The packed 32-byte image of one record: position, scale, color, each
/// component as a little-endian word.
pub open spec fn spec_encode_record(r: InstanceRecord) -> Seq<u8> {
    spec_le4(r.pos_x) + spec_le4(r.pos_y) + spec_le4(r.pos_z) + spec_le4(r.scale)
        + spec_le4(r.color_r) + spec_le4(r.color_g) + spec_le4(r.color_b) + spec_le4(r.color_a)
}

/// The record whose packed image starts at byte offset `off` of `b`.
pub open spec fn spec_decode_record(b: Seq<u8>, off: int) -> InstanceRecord {
    InstanceRecord {
        pos_x: spec_word_at(b, off),
        pos_y: spec_word_at(b, off + 4),
        pos_z: spec_word_at(b, off + 8),
        scale: spec_word_at(b, off + 12),
        color_r: spec_word_at(b, off + 16),
        color_g: spec_word_at(b, off + 20),
        color_b: spec_word_at(b, off + 24),
        color_a: spec_word_at(b, off + 28),
    }
}

/// The packed image of a whole group: the records' images in group order.
pub open spec fn spec_encode_group(g: Seq<InstanceRecord>) -> Seq<u8>
    decreases g.len(),
{
    if g.len() == 0 {
        Seq::empty()
    } else {
        spec_encode_group(g.drop_last()) + spec_encode_record(g.last())
    }
}

/// A group's packed image is exactly 32 bytes per record.
pub proof fn lemma_encode_group_len(g: Seq<InstanceRecord>)
    ensures
        spec_encode_group(g).len() == 32 * g.len(),
    decreases g.len(),
{
    if g.len() > 0 {
        lemma_encode_group_len(g.drop_last());
    }
}

/// Reading four little-endian bytes of a word gives the word back.
pub proof fn lemma_word_of_le4(w: u32)
    ensures
        spec_word(spec_le4(w)[0], spec_le4(w)[1], spec_le4(w)[2], spec_le4(w)[3]) == w,
{
    assert((((((w & 0xff) as u8) as u32) | ((((w >> 8) & 0xff) as u8) as u32) << 8
        | ((((w >> 16) & 0xff) as u8) as u32) << 16
        | ((((w >> 24) & 0xff) as u8) as u32) << 24) as u32) == w) by (bit_vector);
}

/// The word at offset `4 * k` of a record's packed image is the record's
/// `k`-th component, in field order.
proof fn lemma_encode_record_words(r: InstanceRecord)
    ensures
        spec_encode_record(r).len() == 32,
        spec_word_at(spec_encode_record(r), 0) == r.pos_x,
        spec_word_at(spec_encode_record(r), 4) == r.pos_y,
        spec_word_at(spec_encode_record(r), 8) == r.pos_z,
        spec_word_at(spec_encode_record(r), 12) == r.scale,
        spec_word_at(spec_encode_record(r), 16) == r.color_r,
        spec_word_at(spec_encode_record(r), 20) == r.color_g,
        spec_word_at(spec_encode_record(r), 24) == r.color_b,
        spec_word_at(spec_encode_record(r), 28) == r.color_a,
{
    lemma_word_of_le4(r.pos_x);
    lemma_word_of_le4(r.pos_y);
    lemma_word_of_le4(r.pos_z);
    lemma_word_of_le4(r.scale);
    lemma_word_of_le4(r.color_r);
    lemma_word_of_le4(r.color_g);
    lemma_word_of_le4(r.color_b);
    lemma_word_of_le4(r.color_a);
}

/// Decoding a record's packed image yields the record unchanged: the
/// 32-byte layout and the shader's attribute view agree bit for bit.
pub proof fn lemma_record_round_trip(r: InstanceRecord)
    ensures
        spec_decode_record(spec_encode_record(r), 0) == r,
{
    lemma_encode_record_words(r);
}

/// Decoding a group's packed image at offset `32 * i` yields the group's
/// `i`-th record: GPU-side instance indexing by buffer position agrees
/// with the group's own order.
pub proof fn lemma_group_gpu_indexing(g: Seq<InstanceRecord>, i: int)
    requires
        0 <= i < g.len(),
    ensures
        spec_decode_record(spec_encode_group(g), 32 * i) == g[i],
    decreases g.len(),
{
    let a = spec_encode_group(g.drop_last());
    let b = spec_encode_record(g.last());
    lemma_encode_group_len(g.drop_last());
    if i == g.len() - 1 {
        lemma_record_round_trip(g.last());
        assert(spec_decode_record(a + b, 32 * i) == spec_decode_record(b, 0));
    } else {
        lemma_group_gpu_indexing(g.drop_last(), i);
        assert(spec_decode_record(a + b, 32 * i) == spec_decode_record(a, 32 * i));
    }
}

/// Appends the four little-endian bytes of `w` to `out`.
pub fn push_word_le(out: &mut Vec<u8>, w: u32)
    ensures
        final(out)@ == old(out)@ + spec_le4(w),
{
    out.push((w & 0xff) as u8);
    out.push(((w >> 8) & 0xff) as u8);
    out.push(((w >> 16) & 0xff) as u8);
    out.push(((w >> 24) & 0xff) as u8);
    proof {
        assert(out@ =~= old(out)@ + spec_le4(w));
    }
}

/// Appends the packed 32-byte image of `r` to `out`.
pub fn encode_record_into(out: &mut Vec<u8>, r: &InstanceRecord)
    ensures
        final(out)@ == old(out)@ + spec_encode_record(*r),
{
    push_word_le(out, r.pos_x);
    push_word_le(out, r.pos_y);
    push_word_le(out, r.pos_z);
    push_word_le(out, r.scale);
    push_word_le(out, r.color_r);
    push_word_le(out, r.color_g);
    push_word_le(out, r.color_b);
    push_word_le(out, r.color_a);
    proof {
        assert(out@ =~= old(out)@ + spec_encode_record(*r));
    }
}

/// Packs a whole instance group into the byte array uploaded to the GPU:
/// the records' 32-byte images in group order, no padding between them.
pub fn encode_group(g: &InstanceGroup) -> (out: Vec<u8>)
    ensures
        out@ == spec_encode_group(g@),
        out@.len() == 32 * g@.len(),
{
    let mut out: Vec<u8> = Vec::new();
    let mut i: usize = 0;
    while i < g.len()
        invariant
            i <= g@.len(),
            out@ == spec_encode_group(g@.take(i as int)),
        decreases g@.len() - i,
    {
        encode_record_into(&mut out, &g[i]);
        proof {
            assert(g@.take(i + 1).drop_last() =~= g@.take(i as int));
            assert(g@.take(i + 1).last() == g@[i as int]);
        }
        i += 1;
    }
    proof {
        assert(g@.take(g@.len() as int) =~= g@);
        lemma_encode_group_len(g@);
    }
    out
}

/// Reads the 32-bit word stored little-endian at byte offset `off`.
pub fn read_word_le(bytes: &Vec<u8>, off: usize) -> (w: u32)
    requires
        off + 4 <= bytes@.len(),
    ensures
        w == spec_word_at(bytes@, off as int),
{
    // Binding the length as a usize puts the bound the offset sums below
    // need within the prover's reach.
    let _len: usize = bytes.len();
    (bytes[off] as u32) | ((bytes[off + 1] as u32) << 8) | ((bytes[off + 2] as u32) << 16)
        | ((bytes[off + 3] as u32) << 24)
}

/// Decodes the record whose packed image starts at byte offset `off`,
/// reading the bytes exactly as the shader's two 4-component attributes do.
pub fn decode_record(bytes: &Vec<u8>, off: usize) -> (r: InstanceRecord)
    requires
        off + 32 <= bytes@.len(),
    ensures
        r == spec_decode_record(bytes@, off as int),
{
    let _len: usize = bytes.len();
    InstanceRecord {
        pos_x: read_word_le(bytes, off),
        pos_y: read_word_le(bytes, off + 4),
        pos_z: read_word_le(bytes, off + 8),
        scale: read_word_le(bytes, off + 12),
        color_r: read_word_le(bytes, off + 16),
        color_g: read_word_le(bytes, off + 20),
        color_b: read_word_le(bytes, off + 24),
        color_a: read_word_le(bytes, off + 28),
    }
}

} // verus!
