//! The native formatting record: a flat, always-fully-present encoding of
//! the abstract format, in the field order of the foreign binary layout.

use vstd::prelude::*;

use crate::flags::LF_FACESIZE;

verus! {

/// The native character-formatting record.  Field order mirrors the foreign
/// binary layout; the fields this codec does not model are kept at zero on
/// encode and ignored on decode.
#[derive(Clone, Debug, PartialEq)]
pub struct CharFormatW {
    /// Self-describing byte size of the record.
    pub cb_size: u32,
    /// Bitset of the fields that are meaningful.
    pub dw_mask: u32,
    /// Effects bitset.
    pub dw_effects: u32,
    /// Font height, in twentieths of a point.
    pub y_height: i32,
    /// Baseline offset.
    pub y_offset: i32,
    /// Packed text color: red in the lowest byte, then green, then blue.
    pub cr_text_color: u32,
    /// Unused by this codec.
    pub b_char_set: u8,
    /// Unused by this codec.
    pub b_pitch_and_family: u8,
    /// Wide-character face-name buffer: always exactly [`LF_FACESIZE`]
    /// units, NUL-terminated and zero-padded.
    pub sz_face_name: Vec<u16>,
    /// Unused by this codec.
    pub w_weight: u16,
    /// Unused by this codec.
    pub s_spacing: i16,
    /// Unused by this codec.
    pub cr_back_color: u32,
    /// Unused by this codec.
    pub lcid: u32,
    /// Unused by this codec.
    pub reserved: u32,
    /// Unused by this codec.
    pub s_style: i16,
    /// Unused by this codec.
    pub w_kerning: u16,
    /// Native code of the underline style.
    pub b_underline_type: u8,
    /// Unused by this codec.
    pub b_animation: u8,
    /// Unused by this codec.
    pub b_rev_author: u8,
    /// Unused by this codec.
    pub b_underline_color: u8,
}

impl CharFormatW {
    /// The face buffer holds exactly its fixed capacity of units.
    pub open spec fn wf(self) -> bool {
        self.sz_face_name@.len() == LF_FACESIZE
    }

    /// Every field this codec does not model is zero.
    pub open spec fn unused_fields_zero(self) -> bool {
        &&& self.b_char_set == 0
        &&& self.b_pitch_and_family == 0
        &&& self.w_weight == 0
        &&& self.s_spacing == 0
        &&& self.cr_back_color == 0
        &&& self.lcid == 0
        &&& self.reserved == 0
        &&& self.s_style == 0
        &&& self.w_kerning == 0
        &&& self.b_animation == 0
        &&& self.b_rev_author == 0
        &&& self.b_underline_color == 0
    }

    /// The two records agree field for field, the face buffer unit for unit:
    /// they are identical byte for byte in the foreign layout.
    pub open spec fn equiv(self, other: CharFormatW) -> bool {
        &&& self.cb_size == other.cb_size
        &&& self.dw_mask == other.dw_mask
        &&& self.dw_effects == other.dw_effects
        &&& self.y_height == other.y_height
        &&& self.y_offset == other.y_offset
        &&& self.cr_text_color == other.cr_text_color
        &&& self.b_char_set == other.b_char_set
        &&& self.b_pitch_and_family == other.b_pitch_and_family
        &&& self.sz_face_name@ == other.sz_face_name@
        &&& self.w_weight == other.w_weight
        &&& self.s_spacing == other.s_spacing
        &&& self.cr_back_color == other.cr_back_color
        &&& self.lcid == other.lcid
        &&& self.reserved == other.reserved
        &&& self.s_style == other.s_style
        &&& self.w_kerning == other.w_kerning
        &&& self.b_underline_type == other.b_underline_type
        &&& self.b_animation == other.b_animation
        &&& self.b_rev_author == other.b_rev_author
        &&& self.b_underline_color == other.b_underline_color
    }

    /// A zero-initialized record with its size field set, as handed to the
    /// collaborator's query primitive before it is filled in.
    pub fn zeroed() -> (r: CharFormatW)
        ensures
            r.wf(),
            r.unused_fields_zero(),
            r.cb_size == crate::flags::CHARFORMATW_SIZE,
            r.dw_mask == 0,
            r.dw_effects == 0,
            r.y_height == 0,
            r.y_offset == 0,
            r.cr_text_color == 0,
            r.b_underline_type == 0,
            forall|j: int| 0 <= j < LF_FACESIZE ==> r.sz_face_name@[j] == 0,
    {
        let mut face: Vec<u16> = Vec::new();
        let mut k: usize = 0;
        while k < LF_FACESIZE
            invariant
                k <= LF_FACESIZE,
                face@.len() == k,
                forall|j: int| 0 <= j < k ==> face@[j] == 0,
            decreases LF_FACESIZE - k,
        {
            face.push(0);
            k += 1;
        }
        CharFormatW {
            cb_size: crate::flags::CHARFORMATW_SIZE,
            dw_mask: 0,
            dw_effects: 0,
            y_height: 0,
            y_offset: 0,
            cr_text_color: 0,
            b_char_set: 0,
            b_pitch_and_family: 0,
            sz_face_name: face,
            w_weight: 0,
            s_spacing: 0,
            cr_back_color: 0,
            lcid: 0,
            reserved: 0,
            s_style: 0,
            w_kerning: 0,
            b_underline_type: 0,
            b_animation: 0,
            b_rev_author: 0,
            b_underline_color: 0,
        }
    }
}

} // verus!
