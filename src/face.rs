use vstd::prelude::*;
use crate::voxel::{Norm, TextureId, TEXTURE_LIMIT};

verus! {

// Layout of a packed face record (one little-endian `u32` on the device):
// bits 0..15 hold the voxel's local index in its cell, bits 15..18 the face
// direction, bits 18..21 the texture id; the higher bits are zero.

/// Shift of the direction field.
pub const NORM_SHIFT: u32 = 15;

/// Shift of the texture field.
pub const TEX_SHIFT: u32 = 18;

/// The record of the face of voxel `index` facing direction `norm`, textured
/// with `tex`.
pub open spec fn face_word(index: u32, norm: u32, tex: u32) -> u32 {
    index | (norm << 15u32) | (tex << 18u32)
}

/// Local voxel index of a record.
pub open spec fn record_index(w: u32) -> u32 {
    w & 0x7fffu32
}

/// Direction field of a record.
pub open spec fn record_norm(w: u32) -> u32 {
    (w >> 15u32) & 7u32
}

/// Texture field of a record.
pub open spec fn record_tex(w: u32) -> u32 {
    (w >> 18u32) & 7u32
}

/// Whether `w` is the record of some face: a valid direction and nothing
/// above the texture field.
pub open spec fn record_valid(w: u32) -> bool {
    (w >> 21u32) == 0 && record_norm(w) < 6
}

/// The fields of a packed record come back out unchanged.
pub proof fn lemma_face_word_fields(index: u32, norm: u32, tex: u32)
    requires
        index < 32768,
        norm < 8,
        tex < 8,
    ensures
        record_index(face_word(index, norm, tex)) == index,
        record_norm(face_word(index, norm, tex)) == norm,
        record_tex(face_word(index, norm, tex)) == tex,
        face_word(index, norm, tex) >> 21u32 == 0,
{
    assert((index | (norm << 15u32) | (tex << 18u32)) & 0x7fffu32 == index) by (bit_vector)
        requires
            index < 32768,
            norm < 8,
            tex < 8,
    ;
    assert(((index | (norm << 15u32) | (tex << 18u32)) >> 15u32) & 7u32 == norm) by (bit_vector)
        requires
            index < 32768,
            norm < 8,
            tex < 8,
    ;
    assert(((index | (norm << 15u32) | (tex << 18u32)) >> 18u32) & 7u32 == tex) by (bit_vector)
        requires
            index < 32768,
            norm < 8,
            tex < 8,
    ;
    assert((index | (norm << 15u32) | (tex << 18u32)) >> 21u32 == 0) by (bit_vector)
        requires
            index < 32768,
            norm < 8,
            tex < 8,
    ;
}

/// A record with nothing above its texture field is its fields packed again.
pub proof fn lemma_record_repack(w: u32)
    requires
        w >> 21u32 == 0,
    ensures
        face_word(record_index(w), record_norm(w), record_tex(w)) == w,
{
    assert(((w & 0x7fffu32) | (((w >> 15u32) & 7u32) << 15u32) | (((w >> 18u32) & 7u32) << 18u32))
        == w) by (bit_vector)
        requires
            w >> 21u32 == 0,
    ;
}

/// One visible face of one voxel, unpacked.
#[derive(Clone, Copy, Debug, PartialEq, Eq, Structural)]
pub struct FaceRecord {
    pub index: u16,
    pub norm: Norm,
    pub tex_id: TextureId,
}

impl FaceRecord {
    /// Whether the fields fit their widths in the packed layout.
    pub open spec fn valid(self) -> bool {
        self.index < 32768 && self.tex_id < TEXTURE_LIMIT
    }

    /// The packed form of the record.
    pub open spec fn word(self) -> u32 {
        face_word(self.index as u32, self.norm.ordinal() as u32, self.tex_id as u32)
    }

    pub fn pack(&self) -> (r: u32)
        requires
            self.valid(),
        ensures
            r == self.word(),
    {
        let n = self.norm.index() as u32;
        (self.index as u32) | (n << NORM_SHIFT) | ((self.tex_id as u32) << TEX_SHIFT)
    }

    /// The record that `w` packs, if `w` is one.
    pub fn unpack(w: u32) -> (r: Option<FaceRecord>)
        ensures
            r is Some <==> record_valid(w),
            r matches Some(f) ==> f.valid() && f.word() == w,
    {
        let n = (w >> NORM_SHIFT) & 7;
        if (w >> 21u32) != 0 || n >= 6 {
            return None;
        }
        assert(w & 0x7fffu32 < 32768) by (bit_vector);
        assert((w >> 18u32) & 7u32 < 8) by (bit_vector);
        let index = (w & 0x7fff) as u16;
        let tex_id = ((w >> TEX_SHIFT) & 7) as u8;
        let f = FaceRecord { index, norm: Norm::from_index(n as u8), tex_id };
        proof {
            lemma_record_repack(w);
        }
        Some(f)
    }
}

/// Packing a valid record and unpacking the result gives the record back,
/// and the packed word is a valid record.
pub proof fn lemma_face_round_trip(f: FaceRecord)
    requires
        f.valid(),
    ensures
        record_valid(f.word()),
        record_index(f.word()) == f.index as u32,
        record_norm(f.word()) == f.norm.ordinal(),
        record_tex(f.word()) == f.tex_id as u32,
{
    lemma_face_word_fields(f.index as u32, f.norm.ordinal() as u32, f.tex_id as u32);
}

} // verus!
