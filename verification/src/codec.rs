//! The format codec: building a native record from an abstract format, and
//! reading an abstract format back out of a native record.
//!
//! On encode, a mask bit is set for each present field, absent fields encode
//! as zero, and every unmodeled field is zero-initialized.  On decode,
//! presence is inferred from the values: the effects bitset is always
//! present, a zero height, offset or packed color reads back as absent, and
//! an underline code outside the table reads back as absent.

use vstd::prelude::*;

use crate::flags::{
    CFM_COLOR, CFM_EFFECTS, CFM_FACE, CFM_OFFSET, CFM_SIZE, CFM_UNDERLINETYPE, CHARFORMATW_SIZE,
    LF_FACESIZE,
};
use crate::model::{underline_code, underline_from_code, CharEffects, CharFormat, UnderlineType};
use crate::record::CharFormatW;
use crate::utf16::{
    decode_utf16, encode_utf16, lemma_encode_utf16_no_nul, lemma_first_nul_at,
    lemma_utf16_round_trip, to_utf16, trim_nul,
};

verus! {

/// The mask of the native record: the union of one mask bit per present
/// field of the abstract format.
pub open spec fn spec_mask(f: CharFormat) -> u32 {
    (if f.effects is Some {
        CFM_EFFECTS
    } else {
        0u32
    }) | (if f.height is Some {
        CFM_SIZE
    } else {
        0u32
    }) | (if f.y_offset is Some {
        CFM_OFFSET
    } else {
        0u32
    }) | (if f.text_color is Some {
        CFM_COLOR
    } else {
        0u32
    }) | (if f.font_face_name is Some {
        CFM_FACE
    } else {
        0u32
    }) | (if f.underline_type is Some {
        CFM_UNDERLINETYPE
    } else {
        0u32
    })
}

/// The packed color value: red in the lowest byte, then green, then blue.
pub open spec fn pack_rgb(c: [u8; 3]) -> u32 {
    (c[0] as u32) | ((c[1] as u32) << 8) | ((c[2] as u32) << 16)
}

/// A sequence of `n` zero units.
pub open spec fn zero_units(n: int) -> Seq<u16> {
    Seq::new(n as nat, |i: int| 0u16)
}

/// The face-name buffer an abstract name encodes to: its UTF-16 units,
/// left-aligned and zero-padded to the buffer capacity; all zero for an
/// absent name.
pub open spec fn face_buffer(name: Option<String>) -> Seq<u16> {
    match name {
        Some(s) => encode_utf16(s@) + zero_units(LF_FACESIZE - encode_utf16(s@).len()),
        None => zero_units(LF_FACESIZE as int),
    }
}

/// Whether a face name leaves room in the fixed buffer for itself and the
/// mandatory NUL terminator.  An absent name always fits.
pub open spec fn face_name_fits(name: Option<String>) -> bool {
    match name {
        Some(s) => encode_utf16(s@).len() + 1 < LF_FACESIZE,
        None => true,
    }
}

/// A well-formed abstract format: a present effects bitset holds only known
/// effect bits, and a present face name fits the buffer.
pub open spec fn format_wf(f: CharFormat) -> bool {
    &&& match f.effects {
        Some(e) => e.wf(),
        None => true,
    }
    &&& face_name_fits(f.font_face_name)
}

/// `r` is exactly the native record the abstract format `f` encodes to:
/// the size field holds the record's byte size, the mask describes the
/// present fields, each present field is encoded in place, each absent
/// field is zero, and every unmodeled field is zero.
pub open spec fn encodes(f: CharFormat, r: CharFormatW) -> bool {
    &&& r.cb_size == CHARFORMATW_SIZE
    &&& r.dw_mask == spec_mask(f)
    &&& r.dw_effects == match f.effects {
        Some(e) => e.bits,
        None => 0u32,
    }
    &&& r.y_height == match f.height {
        Some(h) => h,
        None => 0i32,
    }
    &&& r.y_offset == match f.y_offset {
        Some(o) => o,
        None => 0i32,
    }
    &&& r.cr_text_color == match f.text_color {
        Some(c) => pack_rgb(c),
        None => 0u32,
    }
    &&& r.sz_face_name@ == face_buffer(f.font_face_name)
    &&& r.b_underline_type == match f.underline_type {
        Some(u) => underline_code(u),
        None => 0u8,
    }
    &&& r.unused_fields_zero()
}

/// The color field `f` decodes to from the packed value `v`: absent for
/// zero (pure black is indistinguishable from "not set"), otherwise the
/// three unpacked channels.
pub open spec fn decoded_color(v: u32, c: Option<[u8; 3]>) -> bool {
    if v == 0 {
        c is None
    } else {
        &&& c matches Some(t)
        &&& t[0] == (v & 0xFF) as u8
        &&& t[1] == ((v >> 8) & 0xFF) as u8
        &&& t[2] == ((v >> 16) & 0xFF) as u8
    }
}

/// The face name a buffer decodes to: absent when the buffer starts with a
/// NUL unit, otherwise the units before the first NUL, decoded.
pub open spec fn decoded_face(buf: Seq<u16>, name: Option<String>) -> bool {
    if buf.len() == 0 || buf[0] == 0 {
        name is None
    } else {
        &&& name matches Some(s)
        &&& s@ == decode_utf16(trim_nul(buf))
    }
}

/// `f` is exactly the abstract format the native record `r` decodes to,
/// presence inferred from the values: effects are always present, a zero
/// height, offset or packed color is absent, an underline code outside the
/// table is absent, and a face name is present exactly when the buffer's
/// first unit is nonzero.
pub open spec fn decodes(r: CharFormatW, f: CharFormat) -> bool {
    &&& f.effects == Some(CharEffects { bits: r.dw_effects & CFM_EFFECTS })
    &&& f.height == if r.y_height != 0 {
        Some(r.y_height)
    } else {
        None::<i32>
    }
    &&& f.y_offset == if r.y_offset != 0 {
        Some(r.y_offset)
    } else {
        None::<i32>
    }
    &&& decoded_color(r.cr_text_color, f.text_color)
    &&& f.underline_type == underline_from_code(r.b_underline_type)
    &&& decoded_face(r.sz_face_name@, f.font_face_name)
}

/// Unpacking inverts packing: each channel is recovered from the packed
/// value, and the packed value is zero exactly for pure black.
pub proof fn lemma_pack_rgb_inverts(c: [u8; 3])
    ensures
        (pack_rgb(c) & 0xFF) as u8 == c[0],
        ((pack_rgb(c) >> 8) & 0xFF) as u8 == c[1],
        ((pack_rgb(c) >> 16) & 0xFF) as u8 == c[2],
        pack_rgb(c) == 0 <==> c[0] == 0 && c[1] == 0 && c[2] == 0,
{
    let r = c[0];
    let g = c[1];
    let b = c[2];
    let v = pack_rgb(c);
    assert(v == (r as u32) | ((g as u32) << 8) | ((b as u32) << 16));
    assert((((r as u32) | ((g as u32) << 8) | ((b as u32) << 16)) & 0xFF) as u8 == r)
        by (bit_vector);
    assert(((((r as u32) | ((g as u32) << 8) | ((b as u32) << 16)) >> 8) & 0xFF) as u8 == g)
        by (bit_vector);
    assert(((((r as u32) | ((g as u32) << 8) | ((b as u32) << 16)) >> 16) & 0xFF) as u8 == b)
        by (bit_vector);
    assert(((r as u32) | ((g as u32) << 8) | ((b as u32) << 16)) == 0 <==> r == 0 && g == 0 && b
        == 0) by (bit_vector);
}

/// Mask independence: a format with only the face name present emits a mask
/// with exactly the face-name bit set, so no other aspect of the target is
/// touched.
pub proof fn lemma_mask_face_only(f: CharFormat)
    requires
        f.effects is None,
        f.height is None,
        f.y_offset is None,
        f.text_color is None,
        f.font_face_name is Some,
        f.underline_type is None,
    ensures
        spec_mask(f) == CFM_FACE,
{
    assert(0u32 | 0u32 | 0u32 | 0u32 | 0x20000000u32 | 0u32 == 0x20000000u32) by (bit_vector);
}

/// Encoding is deterministic: two records that encode the same abstract
/// format are identical byte for byte, zero-padding of the unmodeled fields
/// included.
pub proof fn lemma_encode_deterministic(f: CharFormat, r1: CharFormatW, r2: CharFormatW)
    requires
        encodes(f, r1),
        encodes(f, r2),
    ensures
        r1.equiv(r2),
{
}

/// An empty format encodes to a record that requests no changes: the mask
/// is zero and every field but the size field is zero.
pub proof fn lemma_encode_empty(f: CharFormat, r: CharFormatW)
    requires
        f.effects is None,
        f.height is None,
        f.y_offset is None,
        f.text_color is None,
        f.font_face_name is None,
        f.underline_type is None,
        encodes(f, r),
    ensures
        r.cb_size == CHARFORMATW_SIZE,
        r.dw_mask == 0,
        r.dw_effects == 0,
        r.y_height == 0,
        r.y_offset == 0,
        r.cr_text_color == 0,
        r.b_underline_type == 0,
        forall|j: int| 0 <= j < r.sz_face_name@.len() ==> r.sz_face_name@[j] == 0,
        r.unused_fields_zero(),
{
    assert(0u32 | 0u32 | 0u32 | 0u32 | 0u32 | 0u32 == 0u32) by (bit_vector);
}

/// Encode then decode reproduces every present field exactly, except where
/// a value collides with the "absent" encoding: a zero height or offset, a
/// pure-black color, the explicit "no underline" style and an empty face
/// name all read back as absent, and an absent effects field reads back as
/// the present-but-empty bitset.
pub proof fn lemma_round_trip(f: CharFormat, r: CharFormatW, g: CharFormat)
    requires
        format_wf(f),
        f.font_face_name matches Some(s) ==> crate::utf16::nul_free(s@),
        encodes(f, r),
        decodes(r, g),
    ensures
        f.effects matches Some(e) ==> g.effects == Some(e),
        f.effects is None ==> g.effects == Some(CharEffects { bits: 0u32 }),
        f.height matches Some(h) ==> (h != 0 ==> g.height == Some(h)),
        f.height is None || f.height == Some(0i32) ==> g.height is None,
        f.y_offset matches Some(o) ==> (o != 0 ==> g.y_offset == Some(o)),
        f.y_offset is None || f.y_offset == Some(0i32) ==> g.y_offset is None,
        f.text_color matches Some(c) ==> (pack_rgb(c) != 0 ==> g.text_color == Some(c)),
        f.text_color matches Some(c) ==> (pack_rgb(c) == 0 ==> g.text_color is None),
        f.text_color is None ==> g.text_color is None,
        f.underline_type matches Some(u) ==> (u != UnderlineType::NoUnderline
            ==> g.underline_type == Some(u)),
        f.underline_type is None || f.underline_type == Some(UnderlineType::NoUnderline)
            ==> g.underline_type is None,
        f.font_face_name matches Some(s) ==> (s@.len() > 0 ==> (g.font_face_name matches Some(m)
            && m@ == s@)),
        f.font_face_name matches Some(s) ==> (s@.len() == 0 ==> g.font_face_name is None),
        f.font_face_name is None ==> g.font_face_name is None,
{
    crate::flags::lemma_cfm_effects_value();
    if let Some(e) = f.effects {
        assert(e.bits & CFM_EFFECTS == e.bits);
    } else {
        assert(0u32 & 0x4000003Fu32 == 0u32) by (bit_vector);
    }
    if let Some(c) = f.text_color {
        lemma_pack_rgb_inverts(c);
        if pack_rgb(c) != 0 {
            let t = choose|t: [u8; 3]| g.text_color == Some(t);
            assert(g.text_color matches Some(t2) ==> t2 == t);
            assert(t@ =~= c@);
            assert(t == c);
        }
    }
    if let Some(u) = f.underline_type {
        crate::model::lemma_underline_round_trip(u);
    }
    if let Some(s) = f.font_face_name {
        let units = encode_utf16(s@);
        let buf = r.sz_face_name@;
        lemma_encode_utf16_no_nul(s@);
        assert(buf =~= units + zero_units(LF_FACESIZE - units.len()));
        assert(forall|j: int| 0 <= j < units.len() ==> buf[j] == units[j]);
        assert(forall|j: int| units.len() <= j < buf.len() ==> buf[j] == 0);
        lemma_first_nul_at(buf, units.len() as int);
        assert(trim_nul(buf) =~= units);
        lemma_utf16_round_trip(s@);
        if s@.len() > 0 {
            assert(units.len() > 0);
            assert(buf[0] != 0);
        } else {
            assert(units =~= Seq::<u16>::empty());
            assert(buf[0] == 0);
        }
    }
}

/// Builds the fixed-capacity face buffer: the name's UTF-16 units,
/// zero-padded to capacity; all zero for an absent name.
fn make_face_buffer(name: &Option<String>) -> (v: Vec<u16>)
    requires
        face_name_fits(*name),
    ensures
        v@ == face_buffer(*name),
        v@.len() == LF_FACESIZE,
{
    let mut face: Vec<u16>;
    let ghost units: Seq<u16>;
    match name {
        Some(s) => {
            face = to_utf16(s.as_str());
            proof {
                units = encode_utf16(s@);
            }
        },
        None => {
            face = Vec::new();
            proof {
                units = Seq::empty();
            }
        },
    }
    proof {
        assert(face@ =~= units + zero_units(face@.len() - units.len()));
    }
    while face.len() < LF_FACESIZE
        invariant
            units.len() <= face@.len() <= LF_FACESIZE,
            face@ == units + zero_units(face@.len() - units.len()),
        decreases LF_FACESIZE - face@.len(),
    {
        face.push(0);
        proof {
            assert(face@ =~= units + zero_units(face@.len() - units.len()));
        }
    }
    proof {
        assert(face@ =~= face_buffer(*name));
    }
    face
}

/// Whether the face name of `name` fits its buffer, checked by encoding it.
pub fn face_name_ok(name: &Option<String>) -> (b: bool)
    ensures
        b == face_name_fits(*name),
{
    match name {
        Some(s) => {
            let units = to_utf16(s.as_str());
            units.len() < LF_FACESIZE - 1
        },
        None => true,
    }
}

/// Builds the native record for an abstract format whose face name is known
/// to fit.  The result is pinned down field for field by [`encodes`].
pub fn encode_char_format(fmt: &CharFormat) -> (r: CharFormatW)
    requires
        face_name_fits(fmt.font_face_name),
    ensures
        r.wf(),
        encodes(*fmt, r),
{
    let m_effects: u32 = if fmt.effects.is_some() {
        CFM_EFFECTS
    } else {
        0
    };
    let m_size: u32 = if fmt.height.is_some() {
        CFM_SIZE
    } else {
        0
    };
    let m_offset: u32 = if fmt.y_offset.is_some() {
        CFM_OFFSET
    } else {
        0
    };
    let m_color: u32 = if fmt.text_color.is_some() {
        CFM_COLOR
    } else {
        0
    };
    let m_face: u32 = if fmt.font_face_name.is_some() {
        CFM_FACE
    } else {
        0
    };
    let m_under: u32 = if fmt.underline_type.is_some() {
        CFM_UNDERLINETYPE
    } else {
        0
    };
    let mask = m_effects | m_size | m_offset | m_color | m_face | m_under;

    let effects: u32 = match fmt.effects {
        Some(e) => e.bits,
        None => 0,
    };
    let height: i32 = match fmt.height {
        Some(h) => h,
        None => 0,
    };
    let y_offset: i32 = match fmt.y_offset {
        Some(o) => o,
        None => 0,
    };
    let color: u32 = match fmt.text_color {
        Some(c) => (c[0] as u32) | ((c[1] as u32) << 8) | ((c[2] as u32) << 16),
        None => 0,
    };
    let face = make_face_buffer(&fmt.font_face_name);
    let underline: u8 = match fmt.underline_type {
        Some(u) => u.to_code(),
        None => 0,
    };

    CharFormatW {
        cb_size: CHARFORMATW_SIZE,
        dw_mask: mask,
        dw_effects: effects,
        y_height: height,
        y_offset: y_offset,
        cr_text_color: color,
        b_char_set: 0,
        b_pitch_and_family: 0,
        sz_face_name: face,
        w_weight: 0,
        s_spacing: 0,
        cr_back_color: 0,
        lcid: 0,
        reserved: 0,
        s_style: 0,
        w_kerning: 0,
        b_underline_type: underline,
        b_animation: 0,
        b_rev_author: 0,
        b_underline_color: 0,
    }
}

/// Encodes `fmt` if its face name fits the buffer; reports the validation
/// failure as `None` otherwise, before any record is built.
pub fn try_encode_char_format(fmt: &CharFormat) -> (r: Option<CharFormatW>)
    ensures
        (r is Some) <==> face_name_fits(fmt.font_face_name),
        r matches Some(rec) ==> rec.wf() && encodes(*fmt, rec),
{
    if face_name_ok(&fmt.font_face_name) {
        Some(encode_char_format(fmt))
    } else {
        None
    }
}

/// Reads the abstract format out of a native record, inferring presence
/// from the values as [`decodes`] states.
pub fn decode_char_format(r: &CharFormatW) -> (f: CharFormat)
    requires
        r.wf(),
    ensures
        decodes(*r, f),
{
    let effects = Some(CharEffects::from_bits_truncate(r.dw_effects));

    let height: Option<i32> = if r.y_height != 0 {
        Some(r.y_height)
    } else {
        None
    };

    let y_offset: Option<i32> = if r.y_offset != 0 {
        Some(r.y_offset)
    } else {
        None
    };

    let text_color: Option<[u8; 3]> = if r.cr_text_color != 0 {
        Some(
            [
                (r.cr_text_color & 0xFF) as u8,
                ((r.cr_text_color >> 8) & 0xFF) as u8,
                ((r.cr_text_color >> 16) & 0xFF) as u8,
            ],
        )
    } else {
        None
    };

    let underline_type = UnderlineType::from_code(r.b_underline_type);

    let font_face_name: Option<String> = if r.sz_face_name[0] != 0 {
        Some(crate::utf16::from_utf16_nul_terminated(&r.sz_face_name))
    } else {
        None
    };

    CharFormat { effects, height, y_offset, text_color, font_face_name, underline_type }
}

} // verus!
